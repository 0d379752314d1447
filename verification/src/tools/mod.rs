//! Game objects as the loading tool reads them from files.

pub mod game;
