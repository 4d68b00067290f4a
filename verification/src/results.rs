//! Result types for all operations that can fail.

use vstd::prelude::*;

verus! {

/// General errors when creating a game.
#[derive(Copy, Clone, PartialEq, Eq, Structural, Debug)]
pub enum GameError {
    /// The battlefield would be less than one column wide or less than two lines high.
    IllegalDimensions,
}

/// Errors concerning ship types.
#[derive(Copy, Clone, PartialEq, Eq, Structural, Debug)]
pub enum ShipTypeError {
    /// A ship has to cover at least one cell.
    IllegalShipLength,
    /// The ship fits the battlefield neither horizontally nor vertically.
    ShipTooLongForBattlefield,
}

/// Errors that can occur when placing ships.
#[derive(Copy, Clone, PartialEq, Eq, Structural, Debug)]
pub enum PlaceError {
    /// The ship type was not added to the game the ship is placed in.
    UnknownShipType,
    /// The player has already placed the ship of that type.
    AlreadyPlaced,
    /// The ship would exceed a boundary of the battlefield.
    OutOfBounds,
    /// The ship would cover a cell that another ship covers already.
    CellOccupied,
}

/// Possible errors when trying to start playing.
#[derive(Copy, Clone, PartialEq, Eq, Structural, Debug)]
pub enum GameStartError {
    /// No player has placed any ship yet.
    NoShipsPlaced,
    /// Some ship of some player is still missing.
    NotAllShipsPlaced,
}

/// Possible positive outcomes of shooting.
#[derive(Copy, Clone, PartialEq, Eq, Structural, Debug)]
pub enum ShootOk {
    /// A ship was hit and still has cells that were not hit.
    Hit,
    /// The shot hit the water.
    Miss,
    /// The last cell of a ship was hit, and its owner has other ships left.
    Destroyed,
    /// The last cell of the owner's last ship was hit.
    WinningShot,
}

/// Errors that can occur when shooting.
#[derive(Copy, Clone, PartialEq, Eq, Structural, Debug)]
pub enum ShootError {
    /// The player shot at is the one whose turn it is.
    NotThisPlayersTurn,
    /// The game has a winner already.
    GameOver,
    /// The coordinates lie outside the battlefield.
    OutOfBounds,
    /// The cell was shot at before.
    AlreadyShot,
}

} // verus!
