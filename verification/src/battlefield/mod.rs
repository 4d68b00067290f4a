//! The grid of cells each player owns, and the health of the ships on it.

pub use self::cell::Cell;
pub use self::cell::CellView;
pub use self::grid::Battlefield;
pub use self::grid::Grid;
pub use self::ship_status::ShipStatus;
pub use self::ship_status::ShipStatusView;

pub mod cell;
pub mod grid;
pub mod ship_status;
