//! Things that have a width and a height.

use crate::Dimension;
use vstd::prelude::*;

verus! {

/// Denotes a struct that has a width and height of type `Dimension`.
pub trait Dimensional {
    /// Whether this object is in a state in which it has a width and a height.
    spec fn well_formed(&self) -> bool;

    /// The width of this object.
    spec fn spec_width(&self) -> nat;

    /// The height of this object.
    spec fn spec_height(&self) -> nat;

    /// Returns the width of this object.
    fn width(&self) -> (width: Dimension)
        requires
            self.well_formed(),
        ensures
            width == self.spec_width(),
    ;

    /// Returns the height of this object.
    fn height(&self) -> (height: Dimension)
        requires
            self.well_formed(),
        ensures
            height == self.spec_height(),
    ;
}

} // verus!
