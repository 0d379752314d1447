//! Weapons and enemies, looked up by name.

use vstd::hash_map::StringHashMap;
use vstd::prelude::*;

verus! {

pub struct Weapon {
    pub name: String,
    pub damage: i32,
    pub damage_type: String,
    pub range: i32,
    pub properties: Vec<String>,
}

/// The kind of an entity and the name to look it up by.
pub enum EntityTypes {
    Weapon(String),
    Enemy(String),
}

pub struct Enemy {
    pub name: String,
    pub hit_points: i32,
    pub armor_class: i32,
    pub weapons: Vec<Weapon>,
}

/// An entity that a lookup found.
pub enum Entity<'a> {
    Weapon(&'a Weapon),
    Enemy(&'a Enemy),
}

pub struct GameData {
    weapons: StringHashMap<Weapon>,
    enemies: StringHashMap<Enemy>,
}

impl GameData {
    /// The weapons by name.
    pub closed spec fn weapons(&self) -> Map<Seq<char>, Weapon> {
        self.weapons@
    }

    /// The enemies by name.
    pub closed spec fn enemies(&self) -> Map<Seq<char>, Enemy> {
        self.enemies@
    }

    /// Game data without weapons and without enemies.
    pub fn new() -> (data: Self)
        ensures
            data.weapons() == Map::<Seq<char>, Weapon>::empty(),
            data.enemies() == Map::<Seq<char>, Enemy>::empty(),
    {
        Self { weapons: StringHashMap::new(), enemies: StringHashMap::new() }
    }

    /// Puts a weapon under its name, in place of any weapon of that name.
    pub fn add_weapon(&mut self, weapon: Weapon)
        ensures
            final(self).weapons() == old(self).weapons().insert(weapon.name@, weapon),
            final(self).enemies() == old(self).enemies(),
    {
        let name = weapon.name.clone();
        self.weapons.insert(name, weapon);
    }

    /// Puts an enemy under its name, in place of any enemy of that name.
    pub fn add_enemy(&mut self, enemy: Enemy)
        ensures
            final(self).enemies() == old(self).enemies().insert(enemy.name@, enemy),
            final(self).weapons() == old(self).weapons(),
    {
        let name = enemy.name.clone();
        self.enemies.insert(name, enemy);
    }

    /// The entity of the given kind and name, if there is one.
    pub fn get(&self, entity_type: EntityTypes) -> (r: Option<Entity<'_>>)
        ensures
            match entity_type {
                EntityTypes::Weapon(name) => match r {
                    Some(Entity::Weapon(weapon)) => self.weapons().contains_key(name@)
                        && self.weapons()[name@] == *weapon,
                    Some(Entity::Enemy(_)) => false,
                    None => !self.weapons().contains_key(name@),
                },
                EntityTypes::Enemy(name) => match r {
                    Some(Entity::Enemy(enemy)) => self.enemies().contains_key(name@)
                        && self.enemies()[name@] == *enemy,
                    Some(Entity::Weapon(_)) => false,
                    None => !self.enemies().contains_key(name@),
                },
            },
    {
        match entity_type {
            EntityTypes::Weapon(name) => match self.weapons.get(name.as_str()) {
                Some(weapon) => Some(Entity::Weapon(weapon)),
                None => None,
            },
            EntityTypes::Enemy(name) => match self.enemies.get(name.as_str()) {
                Some(enemy) => Some(Entity::Enemy(enemy)),
                None => None,
            },
        }
    }
}

} // verus!
