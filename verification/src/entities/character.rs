//! A character: its race, its class and its six ability scores.

use crate::abilities::ability::Ability;
use crate::abilities::ability_scores::{bounded_sum, racial_source, AbilityScores};
use crate::abilities::detailed_ability_score::DetailedAbilityScore;
use crate::races::race::{modifier_of, Race};
use vstd::prelude::*;

verus! {

pub struct Character {
    name: String,
    level: i32,
    class: String,
    race: Race,
    strength: i32,
    dexterity: i32,
    constitution: i32,
    intelligence: i32,
    wisdom: i32,
    charisma: i32,
}

/// The one of six scores that belongs to `ability`.
pub open spec fn score_for(
    ability: Ability,
    strength: int,
    dexterity: int,
    constitution: int,
    intelligence: int,
    wisdom: int,
    charisma: int,
) -> int {
    match ability {
        Ability::Strength => strength,
        Ability::Dexterity => dexterity,
        Ability::Constitution => constitution,
        Ability::Intelligence => intelligence,
        Ability::Wisdom => wisdom,
        Ability::Charisma => charisma,
    }
}

/// Adds a modifier to a score and keeps the sum within 32 signed bits.
fn add_bounded(score: i32, modifier: i32) -> (sum: i32)
    ensures
        sum == bounded_sum(score as int, modifier as int),
{
    let wide: i64 = score as i64 + modifier as i64;
    if wide < -0x8000_0000 {
        -0x8000_0000
    } else if wide > 0x7fff_ffff {
        0x7fff_ffff
    } else {
        wide as i32
    }
}

impl AbilityScores for Character {
    closed spec fn raw_score(&self, ability: Ability) -> int {
        score_for(
            ability,
            self.strength as int,
            self.dexterity as int,
            self.constitution as int,
            self.intelligence as int,
            self.wisdom as int,
            self.charisma as int,
        )
    }

    closed spec fn racial_modifier(&self, ability: Ability) -> Option<int> {
        modifier_of(self.race.ability_modifiers@, ability)
    }

    fn get_ability_score(&self, ability: Ability) -> (score: i32) {
        let score = self.get_raw_ability_score(ability);
        match self.race.ability_modifier(ability) {
            Some(modifier) => add_bounded(score, modifier),
            None => score,
        }
    }

    fn get_modifier(&self, ability: Ability) -> (modifier: i32) {
        let score: i64 = self.get_ability_score(ability) as i64;
        ((score - 10) / 2) as i32
    }

    fn get_raw_ability_score(&self, ability: Ability) -> (score: i32) {
        match ability {
            Ability::Strength => self.strength,
            Ability::Dexterity => self.dexterity,
            Ability::Constitution => self.constitution,
            Ability::Intelligence => self.intelligence,
            Ability::Wisdom => self.wisdom,
            Ability::Charisma => self.charisma,
        }
    }

    fn get_detail_ability_score(&self, ability: Ability) -> (detail: DetailedAbilityScore) {
        let score = self.get_raw_ability_score(ability);
        match self.race.ability_modifier(ability) {
            Some(modifier) => {
                let mut detailed = DetailedAbilityScore {
                    ability,
                    score: add_bounded(score, modifier),
                    modifiers: Vec::new(),
                };
                detailed.modifiers.push(("racial".to_owned(), modifier));
                assert(detailed@.modifiers =~= seq![(racial_source(), modifier as int)]);
                detailed
            },
            None => {
                let detailed = DetailedAbilityScore { ability, score, modifiers: Vec::new() };
                assert(detailed@.modifiers =~= Seq::<(Seq<char>, int)>::empty());
                detailed
            },
        }
    }
}

impl Character {
    pub fn new(
        name: String,
        level: i32,
        class: String,
        race: Race,
        strength: i32,
        dexterity: i32,
        constitution: i32,
        intelligence: i32,
        wisdom: i32,
        charisma: i32,
    ) -> (character: Self)
        ensures
            forall|ability: Ability| #[trigger]
                character.raw_score(ability) == score_for(
                    ability,
                    strength as int,
                    dexterity as int,
                    constitution as int,
                    intelligence as int,
                    wisdom as int,
                    charisma as int,
                ),
            forall|ability: Ability| #[trigger]
                character.racial_modifier(ability) == modifier_of(race.ability_modifiers@, ability),
            character.name_text() == name@,
            character.class_text() == class@,
            character.level_number() == level,
    {
        Character {
            name,
            level,
            class,
            race,
            strength,
            dexterity,
            constitution,
            intelligence,
            wisdom,
            charisma,
        }
    }

    pub closed spec fn name_text(&self) -> Seq<char> {
        self.name@
    }

    pub closed spec fn class_text(&self) -> Seq<char> {
        self.class@
    }

    pub closed spec fn level_number(&self) -> int {
        self.level as int
    }
}

} // verus!
