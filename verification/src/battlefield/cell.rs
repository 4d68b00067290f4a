//! The cells that a battlefield is made of.

use crate::ShipTypeId;
use vstd::prelude::*;

verus! {

/// One position of a battlefield: the type of the ship that covers it, if any, and whether it
/// has been shot at.
#[derive(Copy, Clone, Debug, PartialEq)]
pub struct Cell {
    ship_type_id: Option<ShipTypeId>,
    shot: bool,
}

/// What a cell holds.
#[verifier::ext_equal]
pub struct CellView {
    pub ship_type_id: Option<ShipTypeId>,
    pub shot: bool,
}

impl CellView {
    /// The cell nothing was placed on and nobody shot at.
    pub open spec fn blank() -> CellView {
        CellView { ship_type_id: None, shot: false }
    }

    /// This cell after a shot at it.
    pub open spec fn shoot(self) -> CellView {
        CellView { shot: true, ..self }
    }

    /// This cell once a ship of type `ship_type_id` covers it.
    pub open spec fn occupy(self, ship_type_id: ShipTypeId) -> CellView {
        CellView { ship_type_id: Some(ship_type_id), ..self }
    }

    /// Whether a ship covers this cell.
    pub open spec fn occupied(self) -> bool {
        self.ship_type_id is Some
    }
}

impl View for Cell {
    type V = CellView;

    closed spec fn view(&self) -> CellView {
        CellView { ship_type_id: self.ship_type_id, shot: self.shot }
    }
}

impl Cell {
    /// Creates an empty cell that has not been shot at.
    pub fn new() -> (cell: Self)
        ensures
            cell@ == CellView::blank(),
    {
        Cell { ship_type_id: None, shot: false }
    }

    /// Marks this cell as shot at. A cell is shot at once: whoever shoots sees to it that
    /// the cell was not shot at before.
    pub fn shoot(&mut self)
        requires
            !old(self)@.shot,
        ensures
            final(self)@ == old(self)@.shoot(),
    {
        self.shot = true;
    }

    /// Tells whether this cell has been shot at.
    pub fn is_shot(&self) -> (shot: bool)
        ensures
            shot == self@.shot,
    {
        self.shot
    }

    /// Returns the id of the type of the ship that covers this cell.
    pub fn ship_type_id(&self) -> (id: Option<ShipTypeId>)
        ensures
            id == self@.ship_type_id,
    {
        self.ship_type_id
    }

    /// Puts (a part of) a ship of the given type on this cell. A ship stays where it is:
    /// whoever places a ship sees to it that the cell has no ship on it yet.
    pub fn set_ship_type_id(&mut self, ship_type_id: ShipTypeId)
        requires
            !old(self)@.occupied(),
        ensures
            final(self)@ == old(self)@.occupy(ship_type_id),
    {
        self.ship_type_id = Some(ship_type_id)
    }
}

} // verus!
