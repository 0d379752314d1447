//! Dice rolling and expression evaluation.

pub mod dice_facts;
pub mod dice_roller;
pub mod expression_parser;
pub mod rounding;
pub mod text;
