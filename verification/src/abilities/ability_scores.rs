//! What can be asked of anything that has ability scores.

use crate::abilities::ability::Ability;
use crate::abilities::detailed_ability_score::DetailedAbilityScore;
use vstd::prelude::*;

verus! {

/// The sum of a score and a modifier, kept within 32 signed bits.
pub open spec fn bounded_sum(score: int, modifier: int) -> int {
    let sum = score + modifier;
    if sum < i32::MIN {
        i32::MIN as int
    } else if sum > i32::MAX {
        i32::MAX as int
    } else {
        sum
    }
}

/// The bonus that a score gives: half of what it has above 10, or minus half
/// of what it lacks to 10, each half rounded toward zero.
pub open spec fn modifier_for(score: int) -> int {
    if score >= 10 {
        (score - 10) / 2
    } else {
        -((10 - score) / 2)
    }
}

/// The name under which a racial modifier is listed.
pub open spec fn racial_source() -> Seq<char> {
    "racial"@
}

pub trait AbilityScores {
    /// The score as it was set, before any modifier.
    spec fn raw_score(&self, ability: Ability) -> int;

    /// The modifier that the race brings to `ability`, if it brings one.
    spec fn racial_modifier(&self, ability: Ability) -> Option<int>;

    /// The raw score with the racial modifier added.
    fn get_ability_score(&self, ability: Ability) -> (score: i32)
        ensures
            score == bounded_sum(
                self.raw_score(ability),
                match self.racial_modifier(ability) {
                    Some(modifier) => modifier,
                    None => 0,
                },
            ),
    ;

    fn get_raw_ability_score(&self, ability: Ability) -> (score: i32)
        ensures
            score == self.raw_score(ability),
    ;

    /// The score of `get_ability_score`, with the racial modifier listed
    /// under the name "racial" where there is one.
    fn get_detail_ability_score(&self, ability: Ability) -> (detail: DetailedAbilityScore)
        ensures
            detail@.ability == ability,
            detail@.score == bounded_sum(
                self.raw_score(ability),
                match self.racial_modifier(ability) {
                    Some(modifier) => modifier,
                    None => 0,
                },
            ),
            detail@.modifiers == (match self.racial_modifier(ability) {
                Some(modifier) => seq![(racial_source(), modifier)],
                None => Seq::<(Seq<char>, int)>::empty(),
            }),
    ;

    /// The bonus that the ability score gives.
    fn get_modifier(&self, ability: Ability) -> (modifier: i32)
        ensures
            modifier == modifier_for(
                bounded_sum(
                    self.raw_score(ability),
                    match self.racial_modifier(ability) {
                        Some(modifier) => modifier,
                        None => 0,
                    },
                ),
            ),
    ;
}

} // verus!
