//! The core logic of a two-player game of battleship, verified with Verus.
//!
//! You can set up the game by creating and configuring a [`PreGame`] object like so:
//!
//! ```
//! use lib_battleship::common::CellStatus;
//! use lib_battleship::common::Dimensional;
//! use lib_battleship::common::Orientation::*;
//! use lib_battleship::common::Player::*;
//! use lib_battleship::results::ShootOk;
//! use lib_battleship::PreGame;
//!
//! // `PreGame`'s constructor makes sure that the battlefield has
//! // at least one column and at least two lines.
//! let mut pregame = PreGame::new(10, 10).unwrap();
//!
//! // Add ship types. `PreGame` validates that a ship is no shorter
//! // than 1 in length and no longer than the battlefield.
//! let sub = pregame.add_ship_type("Submarine", 1).unwrap();
//! let corvette = pregame.add_ship_type("Corvette", 2).unwrap();
//!
//! // Then each player has to place all their ships on the battlefield. Each player has one
//! // ship of every ship type. `PreGame` also validates the placement of each ship.
//! pregame.place_ship(P1, &corvette, 0, 0, Horizontal).unwrap();
//! pregame.place_ship(P1, &sub, 9, 9, Horizontal).unwrap();
//!
//! pregame.place_ship(P2, &corvette, 5, 5, Vertical).unwrap();
//! pregame.place_ship(P2, &sub, 3, 7, Horizontal).unwrap();
//!
//! // Display a player's battlefield by iterating over its cells like so:
//! for y in 0..pregame.height() {
//!     for x in 0..pregame.width() {
//!         // `PreGame::get_cell` only returns `Empty` or `Ship`.
//!         let char = match pregame.get_cell(P1, x, y) {
//!             CellStatus::Empty => " ",
//!             CellStatus::Ship => "X",
//!             _ => unreachable!(),
//!         };
//!         print!("{}", char);
//!     }
//!     println!("");
//! }
//!
//! // When all ships have been placed, start the game. `PreGame::start()` hands the
//! // `PreGame` back with an error if that's not the case.
//! let mut game = pregame.start().unwrap();
//!
//! // From now on, players can take turns shooting at each other's ships. A player can
//! // keep shooting as long as they score hits.
//! match game.shoot(P2, 0, 0).unwrap() {
//!     ShootOk::Hit => println!("hit!"),
//!     ShootOk::Miss => println!("miss!"),
//!     ShootOk::Destroyed => println!("ship destroyed!"),
//!     ShootOk::WinningShot => println!("you won!"),
//! }
//! ```
//!
//! Every operation has a contract over a mathematical view of the state it works on:
//! [`pregame::PreGameView`] while a game is set up, [`game::GameView`] while it is played.
//! What follows from those contracts for the game as a whole, whatever the players do, is
//! stated and proved in [`laws`].

use vstd::prelude::*;

pub use self::game::Game;
pub use self::pregame::PreGame;

pub mod battlefield;
pub mod common;
pub mod game;
pub mod laws;
pub mod placed_ships;
pub mod placement;
pub mod pregame;
pub mod results;

verus! {

/// Dimension type for battleship: widths, heights, coordinates and ship lengths.
pub type Dimension = usize;

/// The type of ship type IDs.
pub type ShipTypeId = usize;

} // verus!
