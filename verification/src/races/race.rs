//! A race and what it brings to a character.

use crate::abilities::ability::Ability;
use vstd::prelude::*;

verus! {

#[derive(Debug, Clone)]
pub struct Race {
    pub name: String,
    /// The modifiers to ability scores. Where an ability occurs twice, the
    /// later entry counts.
    pub ability_modifiers: Vec<(Ability, i32)>,
    pub special_abilities: Vec<String>,
    pub speed: i32,
}

/// A race as mathematical values.
pub struct RaceView {
    pub name: Seq<char>,
    pub ability_modifiers: Seq<(Ability, i32)>,
    pub special_abilities: Seq<Seq<char>>,
    pub speed: int,
}

impl View for Race {
    type V = RaceView;

    open spec fn view(&self) -> RaceView {
        RaceView {
            name: self.name@,
            ability_modifiers: self.ability_modifiers@,
            special_abilities: Seq::new(
                self.special_abilities@.len(),
                |i: int| self.special_abilities@[i]@,
            ),
            speed: self.speed as int,
        }
    }
}

/// The modifier that a list of modifiers holds for `ability`: that of the
/// last entry for it, or `None` where there is no entry.
pub open spec fn modifier_of(modifiers: Seq<(Ability, i32)>, ability: Ability) -> Option<int>
    decreases modifiers.len(),
{
    if modifiers.len() == 0 {
        None
    } else if modifiers.last().0 == ability {
        Some(modifiers.last().1 as int)
    } else {
        modifier_of(modifiers.drop_last(), ability)
    }
}

impl Race {
    pub fn new(
        name: &str,
        ability_modifiers: Vec<(Ability, i32)>,
        special_abilities: Vec<String>,
        speed: i32,
    ) -> (race: Self)
        ensures
            race.name@ == name@,
            race.ability_modifiers == ability_modifiers,
            race.special_abilities == special_abilities,
            race.speed == speed,
    {
        Self { name: name.to_owned(), ability_modifiers, special_abilities, speed }
    }

    /// The modifier that the race brings to `ability`, if it brings one.
    pub fn ability_modifier(&self, ability: Ability) -> (r: Option<i32>)
        ensures
            match r {
                Some(modifier) => modifier_of(self.ability_modifiers@, ability) == Some(
                    modifier as int,
                ),
                None => modifier_of(self.ability_modifiers@, ability) is None,
            },
    {
        let mut i: usize = self.ability_modifiers.len();
        assert(self.ability_modifiers@.take(i as int) == self.ability_modifiers@);
        while i > 0
            invariant
                i <= self.ability_modifiers.len(),
                modifier_of(self.ability_modifiers@, ability) == modifier_of(
                    self.ability_modifiers@.take(i as int),
                    ability,
                ),
            decreases i,
        {
            i -= 1;
            proof {
                assert(self.ability_modifiers@.take(i + 1).drop_last()
                    == self.ability_modifiers@.take(i as int));
            }
            let entry = &self.ability_modifiers[i];
            if entry.0 == ability {
                return Some(entry.1);
            }
        }
        None
    }
}

} // verus!
