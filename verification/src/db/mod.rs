//! The records that are stored, as plain values, and the rules on them.

pub mod game;
