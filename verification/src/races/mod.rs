//! Races and the table of default races.

pub mod race;
pub mod race_loader;
