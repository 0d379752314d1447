//! The rules of a text adventure game.
//!
//! The heart of the library is `utilities`: dice notation such as `2d6+5` is
//! parsed, rolled and judged against a difficulty check, and expressions
//! over named variables are resolved and calculated. Around it stand the
//! characters and races of the game, the types that client and server
//! exchange with their validation and their signatures, and the decisions
//! that the server and the resource loader take.
//!
//! Every function is verified against its contract. What other crates
//! compute (random faces, substitution, arithmetic, digests, JSON) enters
//! through a few functions whose contracts are believed, each marked
//! `external_body` and documented where it stands.

pub mod abilities;
pub mod api;
pub mod db;
pub mod entities;
pub mod game_data;
pub mod protocol;
pub mod races;
pub mod tools;
pub mod utilities;
