//! Abilities and ability scores.

pub mod ability;
pub mod ability_scores;
pub mod detailed_ability_score;
