//! The entities of the game.

pub mod character;
