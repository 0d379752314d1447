//! The types that client and server exchange, and the rules they obey.

pub mod character;
pub mod character_class;
pub mod item;
pub mod signature;
pub mod valid;
pub mod world;
