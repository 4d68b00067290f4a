//! The two ways a ship can lie.

use vstd::prelude::*;

verus! {

/// The possible orientations of a ship in the game.
#[derive(Copy, Clone, PartialEq, Eq, Structural, Debug)]
pub enum Orientation {
    Horizontal,
    Vertical,
}

} // verus!
