//! The playing pieces: the ship catalogue and the board that holds the fleet.

pub mod ship;
pub mod grid;
