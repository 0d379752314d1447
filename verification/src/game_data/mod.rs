//! The weapons and enemies that a game knows.

pub mod game_data;
