//! The races that every world starts with.

use crate::abilities::ability::Ability;
use crate::races::race::{Race, RaceView};
use vstd::hash_map::StringHashMap;
use vstd::prelude::*;

verus! {

pub open spec fn dwarf() -> RaceView {
    RaceView {
        name: "Dwarf"@,
        ability_modifiers: seq![(Ability::Constitution, 2i32), (Ability::Charisma, -2i32)],
        special_abilities: seq![
            "Darkvision"@,
            "Dwarven Resilience"@,
            "Dwarven Combat Training"@,
            "Stonecunning"@,
        ],
        speed: 25,
    }
}

pub open spec fn elf() -> RaceView {
    RaceView {
        name: "Elf"@,
        ability_modifiers: seq![(Ability::Dexterity, 2i32), (Ability::Constitution, -2i32)],
        special_abilities: seq!["Darkvision"@, "Keen Senses"@, "Fae Ancestry"@, "Trance"@],
        speed: 30,
    }
}

pub open spec fn halfling() -> RaceView {
    RaceView {
        name: "Halfling"@,
        ability_modifiers: seq![(Ability::Constitution, 2i32)],
        special_abilities: seq!["Lucky"@, "Brave"@, "Halfling Nimbleness"@],
        speed: 25,
    }
}

pub open spec fn human() -> RaceView {
    RaceView {
        name: "Human"@,
        ability_modifiers: seq![
            (Ability::Strength, 1i32),
            (Ability::Dexterity, 1i32),
            (Ability::Constitution, 1i32),
            (Ability::Intelligence, 1i32),
            (Ability::Wisdom, 1i32),
            (Ability::Charisma, 1i32),
        ],
        special_abilities: seq!["odd elections"@],
        speed: 30,
    }
}

/// The default races by name.
pub open spec fn default_races() -> Map<Seq<char>, RaceView> {
    Map::<Seq<char>, RaceView>::empty().insert("Dwarf"@, dwarf()).insert("Elf"@, elf()).insert(
        "Halfling"@,
        halfling(),
    ).insert("Human"@, human())
}

/// The views of the races of a table, under the same names.
pub open spec fn race_views(races: Map<Seq<char>, Race>) -> Map<Seq<char>, RaceView> {
    races.map_values(|race: Race| race@)
}

fn build_dwarf() -> (race: Race)
    ensures
        race@ == dwarf(),
{
    let mut modifiers: Vec<(Ability, i32)> = Vec::new();
    modifiers.push((Ability::Constitution, 2));
    modifiers.push((Ability::Charisma, -2));
    let mut special: Vec<String> = Vec::new();
    special.push("Darkvision".to_owned());
    special.push("Dwarven Resilience".to_owned());
    special.push("Dwarven Combat Training".to_owned());
    special.push("Stonecunning".to_owned());
    let race = Race::new("Dwarf", modifiers, special, 25);
    assert(race@.ability_modifiers =~= dwarf().ability_modifiers);
    assert(race@.special_abilities =~= dwarf().special_abilities);
    race
}

fn build_elf() -> (race: Race)
    ensures
        race@ == elf(),
{
    let mut modifiers: Vec<(Ability, i32)> = Vec::new();
    modifiers.push((Ability::Dexterity, 2));
    modifiers.push((Ability::Constitution, -2));
    let mut special: Vec<String> = Vec::new();
    special.push("Darkvision".to_owned());
    special.push("Keen Senses".to_owned());
    special.push("Fae Ancestry".to_owned());
    special.push("Trance".to_owned());
    let race = Race::new("Elf", modifiers, special, 30);
    assert(race@.ability_modifiers =~= elf().ability_modifiers);
    assert(race@.special_abilities =~= elf().special_abilities);
    race
}

fn build_halfling() -> (race: Race)
    ensures
        race@ == halfling(),
{
    let mut modifiers: Vec<(Ability, i32)> = Vec::new();
    modifiers.push((Ability::Constitution, 2));
    let mut special: Vec<String> = Vec::new();
    special.push("Lucky".to_owned());
    special.push("Brave".to_owned());
    special.push("Halfling Nimbleness".to_owned());
    let race = Race::new("Halfling", modifiers, special, 25);
    assert(race@.ability_modifiers =~= halfling().ability_modifiers);
    assert(race@.special_abilities =~= halfling().special_abilities);
    race
}

fn build_human() -> (race: Race)
    ensures
        race@ == human(),
{
    let mut modifiers: Vec<(Ability, i32)> = Vec::new();
    modifiers.push((Ability::Strength, 1));
    modifiers.push((Ability::Dexterity, 1));
    modifiers.push((Ability::Constitution, 1));
    modifiers.push((Ability::Intelligence, 1));
    modifiers.push((Ability::Wisdom, 1));
    modifiers.push((Ability::Charisma, 1));
    let mut special: Vec<String> = Vec::new();
    special.push("odd elections".to_owned());
    let race = Race::new("Human", modifiers, special, 30);
    assert(race@.ability_modifiers =~= human().ability_modifiers);
    assert(race@.special_abilities =~= human().special_abilities);
    race
}

/// The table of default races: Dwarf, Elf, Halfling and Human, each under
/// its name.
pub fn load_default_races() -> (races: StringHashMap<Race>)
    ensures
        race_views(races@) == default_races(),
{
    let mut races: StringHashMap<Race> = StringHashMap::new();
    races.insert("Dwarf".to_owned(), build_dwarf());
    races.insert("Elf".to_owned(), build_elf());
    races.insert("Halfling".to_owned(), build_halfling());
    races.insert("Human".to_owned(), build_human());
    assert(race_views(races@) =~= default_races());
    races
}

} // verus!
