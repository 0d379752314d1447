//! What the server answers, and the rules by which it decides.

pub mod auth;
pub mod character_classes;
pub mod items;
pub mod responses;
pub mod worlds;
