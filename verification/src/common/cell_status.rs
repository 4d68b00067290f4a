//! What a player gets to see of a cell.

use vstd::prelude::*;

verus! {

/// The (display) states a cell on the battlefield can have.
#[derive(Copy, Clone, PartialEq, Eq, Structural, Debug)]
pub enum CellStatus {
    Empty,
    Miss,
    Ship,
    Hit,
}

} // verus!
