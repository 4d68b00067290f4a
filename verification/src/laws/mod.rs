//! What holds of setting up and playing a game, whatever the players do.
//!
//! The laws speak of the mathematical states of [`crate::pregame::PreGame`] and
//! [`crate::game::Game`] and of the functions on those states by which the operations of the
//! two are specified.

pub mod play;
pub mod setup;
