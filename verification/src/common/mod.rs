//! Common types, functions, etc.

pub use self::cell_status::CellStatus;
pub use self::dimensional::Dimensional;
pub use self::orientation::Orientation;
pub use self::player::Player;
pub use self::ship_type::ShipType;
pub use self::ship_type::ShipTypeView;
pub use self::ship_type_container::ShipTypeContainer;

pub mod cell_status;
pub mod dimensional;
pub mod orientation;
pub mod player;
pub mod ship_type;
pub mod ship_type_container;
