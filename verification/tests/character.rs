use logic::abilities::ability::Ability;
use logic::abilities::ability_scores::AbilityScores;
use logic::entities::character::Character;
use logic::game_data::game_data::{Enemy, Entity, EntityTypes, GameData, Weapon};
use logic::races::race::Race;
use logic::races::race_loader::load_default_races;

#[test]
fn test_get_ability_score() {
    let races = load_default_races();
    let human = &races.get("Human").unwrap().clone();

    let character = Character::new(
        "Test".to_string(),
        1,
        "Fighter".to_string(),
        human.clone(),
        10,
        10,
        10,
        10,
        10,
        10,
    );

    assert_eq!(character.get_ability_score(Ability::Strength), 11);
    assert_eq!(character.get_ability_score(Ability::Dexterity), 11);
    assert_eq!(character.get_ability_score(Ability::Constitution), 11);
    assert_eq!(character.get_ability_score(Ability::Intelligence), 11);
    assert_eq!(character.get_ability_score(Ability::Wisdom), 11);
    assert_eq!(character.get_ability_score(Ability::Charisma), 11);
}

fn dwarf_with(scores: [i32; 6]) -> Character {
    let races = load_default_races();
    let dwarf = races.get("Dwarf").unwrap().clone();
    Character::new(
        "Gimli".to_string(),
        3,
        "Fighter".to_string(),
        dwarf,
        scores[0],
        scores[1],
        scores[2],
        scores[3],
        scores[4],
        scores[5],
    )
}

#[test]
fn default_races_are_the_four() {
    let races = load_default_races();
    assert_eq!(races.len(), 4);
    for name in ["Dwarf", "Elf", "Halfling", "Human"] {
        assert_eq!(races.get(name).unwrap().name, name);
    }
    assert!(races.get("Orc").is_none());
    let dwarf = races.get("Dwarf").unwrap();
    assert_eq!(dwarf.speed, 25);
    assert_eq!(dwarf.ability_modifiers, vec![(Ability::Constitution, 2), (Ability::Charisma, -2)]);
    assert_eq!(
        dwarf.special_abilities,
        vec!["Darkvision", "Dwarven Resilience", "Dwarven Combat Training", "Stonecunning"]
    );
    let elf = races.get("Elf").unwrap();
    assert_eq!(elf.speed, 30);
    assert_eq!(elf.ability_modifiers, vec![(Ability::Dexterity, 2), (Ability::Constitution, -2)]);
    assert_eq!(elf.special_abilities, vec!["Darkvision", "Keen Senses", "Fae Ancestry", "Trance"]);
    let halfling = races.get("Halfling").unwrap();
    assert_eq!(halfling.speed, 25);
    assert_eq!(halfling.ability_modifiers, vec![(Ability::Constitution, 2)]);
    assert_eq!(halfling.special_abilities, vec!["Lucky", "Brave", "Halfling Nimbleness"]);
    let human = races.get("Human").unwrap();
    assert_eq!(human.speed, 30);
    assert_eq!(human.ability_modifiers.len(), 6);
    assert_eq!(human.special_abilities, vec!["odd elections"]);
}

#[test]
fn racial_modifiers_are_added() {
    let gimli = dwarf_with([16, 12, 14, 10, 9, 8]);
    assert_eq!(gimli.get_raw_ability_score(Ability::Constitution), 14);
    assert_eq!(gimli.get_ability_score(Ability::Constitution), 16);
    assert_eq!(gimli.get_ability_score(Ability::Charisma), 6);
    assert_eq!(gimli.get_ability_score(Ability::Strength), 16);
    assert_eq!(gimli.get_raw_ability_score(Ability::Wisdom), 9);
}

#[test]
fn modifier_is_half_of_what_is_above_ten() {
    let gimli = dwarf_with([16, 12, 14, 10, 9, 8]);
    assert_eq!(gimli.get_modifier(Ability::Strength), 3);
    assert_eq!(gimli.get_modifier(Ability::Dexterity), 1);
    assert_eq!(gimli.get_modifier(Ability::Constitution), 3);
    assert_eq!(gimli.get_modifier(Ability::Intelligence), 0);
    // Halves are rounded toward zero.
    assert_eq!(gimli.get_modifier(Ability::Wisdom), 0);
    assert_eq!(gimli.get_modifier(Ability::Charisma), -2);
    let odd = dwarf_with([11, 7, 0, -5, i32::MAX, i32::MIN]);
    assert_eq!(odd.get_modifier(Ability::Strength), 0);
    assert_eq!(odd.get_modifier(Ability::Dexterity), -1);
    assert_eq!(odd.get_modifier(Ability::Constitution), -4);
    assert_eq!(odd.get_modifier(Ability::Intelligence), -7);
    assert_eq!(odd.get_modifier(Ability::Wisdom), (i32::MAX - 10) / 2);
    assert_eq!(odd.get_modifier(Ability::Charisma), ((i32::MIN as i64 - 10) / 2) as i32);
}

#[test]
fn scores_stay_within_32_bits() {
    let odd = dwarf_with([0, 0, i32::MAX, 0, 0, i32::MIN]);
    assert_eq!(odd.get_ability_score(Ability::Constitution), i32::MAX);
    assert_eq!(odd.get_ability_score(Ability::Charisma), i32::MIN);
    assert_eq!(odd.get_detail_ability_score(Ability::Constitution).score, i32::MAX);
}

#[test]
fn detail_lists_the_racial_modifier() {
    let gimli = dwarf_with([16, 12, 14, 10, 9, 8]);
    let detail = gimli.get_detail_ability_score(Ability::Constitution);
    assert_eq!(detail.ability, Ability::Constitution);
    assert_eq!(detail.score, 16);
    assert_eq!(detail.modifiers, vec![("racial".to_string(), 2)]);
    let detail = gimli.get_detail_ability_score(Ability::Strength);
    assert_eq!(detail.ability, Ability::Strength);
    assert_eq!(detail.score, 16);
    assert!(detail.modifiers.is_empty());
}

#[test]
fn later_modifier_of_an_ability_counts() {
    let race = Race::new(
        "Shifter",
        vec![(Ability::Wisdom, 1), (Ability::Strength, 4), (Ability::Wisdom, -3)],
        vec![],
        30,
    );
    assert_eq!(race.name, "Shifter");
    assert_eq!(race.speed, 30);
    assert_eq!(race.ability_modifier(Ability::Wisdom), Some(-3));
    assert_eq!(race.ability_modifier(Ability::Strength), Some(4));
    assert_eq!(race.ability_modifier(Ability::Charisma), None);
}

fn dagger() -> Weapon {
    Weapon {
        name: "Dagger".to_string(),
        damage: 4,
        damage_type: "piercing".to_string(),
        range: 5,
        properties: vec!["finesse".to_string()],
    }
}

#[test]
fn game_data_finds_what_was_added() {
    let mut data = GameData::new();
    assert!(data.get(EntityTypes::Weapon("Dagger".to_string())).is_none());
    assert!(data.get(EntityTypes::Enemy("Goblin".to_string())).is_none());
    data.add_weapon(dagger());
    data.add_enemy(Enemy {
        name: "Goblin".to_string(),
        hit_points: 7,
        armor_class: 15,
        weapons: vec![dagger()],
    });
    match data.get(EntityTypes::Weapon("Dagger".to_string())) {
        Some(Entity::Weapon(weapon)) => {
            assert_eq!(weapon.damage, 4);
            assert_eq!(weapon.damage_type, "piercing");
        }
        _ => panic!("the dagger was not found"),
    }
    match data.get(EntityTypes::Enemy("Goblin".to_string())) {
        Some(Entity::Enemy(enemy)) => {
            assert_eq!(enemy.hit_points, 7);
            assert_eq!(enemy.weapons.len(), 1);
        }
        _ => panic!("the goblin was not found"),
    }
    // A weapon is no enemy, whatever its name.
    assert!(data.get(EntityTypes::Enemy("Dagger".to_string())).is_none());
    assert!(data.get(EntityTypes::Weapon("Goblin".to_string())).is_none());
    let mut sharper = dagger();
    sharper.damage = 6;
    data.add_weapon(sharper);
    match data.get(EntityTypes::Weapon("Dagger".to_string())) {
        Some(Entity::Weapon(weapon)) => assert_eq!(weapon.damage, 6),
        _ => panic!("the dagger was not found"),
    }
}
