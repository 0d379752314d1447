//! Stored worlds, character classes, features and items.
//!
//! Times are microseconds since the Unix epoch. Free-form JSON, such as the
//! proficiencies of a class and the properties of an item, is held as its text.

use crate::protocol::signature::{
    append_i32, append_i64, append_text, be_bytes_i32, be_bytes_i64, hashed, text_bytes,
    TypeSignature,
};
use vstd::prelude::*;

verus! {

/// What storing a record comes to: a record with the identifier 0 was never
/// stored and is created, any other is updated.
#[derive(Clone, Copy, Debug, PartialEq, Eq, Structural)]
pub enum SaveAction {
    Create,
    Update,
}

/// Tells whether a record with this identifier is created or updated.
pub fn save_action(id: i64) -> (action: SaveAction)
    ensures
        action == (if id == 0 {
            SaveAction::Create
        } else {
            SaveAction::Update
        }),
{
    if id == 0 {
        SaveAction::Create
    } else {
        SaveAction::Update
    }
}

#[derive(Debug, Clone)]
pub struct World {
    pub id: i64,
    pub code: String,
    pub name: String,
    pub description: String,
    pub created_at: i64,
    pub updated_at: i64,
}

#[derive(Debug, Clone)]
pub struct NewWorld {
    pub code: String,
    pub name: String,
    pub description: String,
    pub created_at: i64,
    pub updated_at: i64,
}

#[derive(Debug, Clone)]
pub struct CharacterClass {
    pub id: i64,
    pub world_id: i64,
    pub code: String,
    pub name: String,
    pub description: String,
    pub hit_points: i32,
    pub stamina_expression: String,
    pub skillpoint_expression: String,
    /// The proficiencies as JSON text.
    pub proficiencies: String,
    pub created_at: i64,
    pub updated_at: i64,
}

#[derive(Debug, Clone)]
pub struct NewCharacterClass {
    pub world_id: i64,
    pub code: String,
    pub name: String,
    pub description: String,
    pub hit_points: i32,
    pub stamina_expression: String,
    pub skillpoint_expression: String,
    /// The proficiencies as JSON text.
    pub proficiencies: String,
}

#[derive(Debug, Clone)]
pub struct CharacterClassFeature {
    pub id: i64,
    pub class_id: i64,
    pub level: i32,
    pub code: String,
    pub name: String,
    pub description: String,
    pub created_at: i64,
    pub updated_at: i64,
}

#[derive(Debug, Clone)]
pub struct NewCharacterClassFeature {
    pub class_id: i64,
    pub level: i32,
    pub code: String,
    pub name: String,
    pub description: String,
}

#[derive(Debug, Clone)]
pub struct Item {
    pub id: i64,
    pub world_id: i64,
    pub code: String,
    pub item_type: String,
    pub category_id: i64,
    pub name: String,
    pub description: String,
    /// The properties as JSON text.
    pub item_properties: String,
    pub base_price: i64,
    pub created_at: i64,
    pub updated_at: i64,
}

#[derive(Debug, Clone)]
pub struct NewItem {
    pub world_id: i64,
    pub code: String,
    pub item_type: String,
    pub category_id: i64,
    pub name: String,
    pub description: String,
    /// The properties as JSON text.
    pub item_properties: String,
    pub base_price: i64,
}

/// The bytes that identify a world: code, name, description.
pub open spec fn world_bytes(code: Seq<char>, name: Seq<char>, description: Seq<char>) -> Seq<u8> {
    text_bytes(code) + text_bytes(name) + text_bytes(description)
}

/// The bytes that identify a character class: world, code, name,
/// description, hit points, the two expressions, and the proficiencies.
pub open spec fn class_bytes(
    world_id: i64,
    code: Seq<char>,
    name: Seq<char>,
    description: Seq<char>,
    hit_points: i32,
    stamina_expression: Seq<char>,
    skillpoint_expression: Seq<char>,
    proficiencies: Seq<char>,
) -> Seq<u8> {
    be_bytes_i64(world_id) + text_bytes(code) + text_bytes(name) + text_bytes(description)
        + be_bytes_i32(hit_points) + text_bytes(stamina_expression) + text_bytes(
        skillpoint_expression,
    ) + text_bytes(proficiencies)
}

/// The bytes that identify a feature: class, level, code, name, description.
pub open spec fn feature_bytes(
    class_id: i64,
    level: i32,
    code: Seq<char>,
    name: Seq<char>,
    description: Seq<char>,
) -> Seq<u8> {
    be_bytes_i64(class_id) + be_bytes_i32(level) + text_bytes(code) + text_bytes(name)
        + text_bytes(description)
}

/// The bytes that identify an item: world, category, code, type, name,
/// description and base price.
pub open spec fn item_bytes(
    world_id: i64,
    category_id: i64,
    code: Seq<char>,
    item_type: Seq<char>,
    name: Seq<char>,
    description: Seq<char>,
    base_price: i64,
) -> Seq<u8> {
    be_bytes_i64(world_id) + be_bytes_i64(category_id) + text_bytes(code) + text_bytes(item_type)
        + text_bytes(name) + text_bytes(description) + be_bytes_i64(base_price)
}

/// Writes out the bytes that identify a world.
pub fn write_world_bytes(code: &str, name: &str, description: &str) -> (raw: Vec<u8>)
    ensures
        raw@ == world_bytes(code@, name@, description@),
{
    let mut raw: Vec<u8> = Vec::new();
    append_text(&mut raw, code);
    append_text(&mut raw, name);
    append_text(&mut raw, description);
    assert(raw@ =~= world_bytes(code@, name@, description@));
    raw
}

/// Writes out the bytes that identify a character class.
pub fn write_class_bytes(
    world_id: i64,
    code: &str,
    name: &str,
    description: &str,
    hit_points: i32,
    stamina_expression: &str,
    skillpoint_expression: &str,
    proficiencies: &str,
) -> (raw: Vec<u8>)
    ensures
        raw@ == class_bytes(
            world_id,
            code@,
            name@,
            description@,
            hit_points,
            stamina_expression@,
            skillpoint_expression@,
            proficiencies@,
        ),
{
    let mut raw: Vec<u8> = Vec::new();
    append_i64(&mut raw, world_id);
    append_text(&mut raw, code);
    append_text(&mut raw, name);
    append_text(&mut raw, description);
    append_i32(&mut raw, hit_points);
    append_text(&mut raw, stamina_expression);
    append_text(&mut raw, skillpoint_expression);
    append_text(&mut raw, proficiencies);
    assert(raw@ =~= class_bytes(
        world_id,
        code@,
        name@,
        description@,
        hit_points,
        stamina_expression@,
        skillpoint_expression@,
        proficiencies@,
    ));
    raw
}

/// Writes out the bytes that identify a feature.
pub fn write_feature_bytes(class_id: i64, level: i32, code: &str, name: &str, description: &str) -> (raw:
    Vec<u8>)
    ensures
        raw@ == feature_bytes(class_id, level, code@, name@, description@),
{
    let mut raw: Vec<u8> = Vec::new();
    append_i64(&mut raw, class_id);
    append_i32(&mut raw, level);
    append_text(&mut raw, code);
    append_text(&mut raw, name);
    append_text(&mut raw, description);
    assert(raw@ =~= feature_bytes(class_id, level, code@, name@, description@));
    raw
}

/// Writes out the bytes that identify an item.
pub fn write_item_bytes(
    world_id: i64,
    category_id: i64,
    code: &str,
    item_type: &str,
    name: &str,
    description: &str,
    base_price: i64,
) -> (raw: Vec<u8>)
    ensures
        raw@ == item_bytes(
            world_id,
            category_id,
            code@,
            item_type@,
            name@,
            description@,
            base_price,
        ),
{
    let mut raw: Vec<u8> = Vec::new();
    append_i64(&mut raw, world_id);
    append_i64(&mut raw, category_id);
    append_text(&mut raw, code);
    append_text(&mut raw, item_type);
    append_text(&mut raw, name);
    append_text(&mut raw, description);
    append_i64(&mut raw, base_price);
    assert(raw@ =~= item_bytes(
        world_id,
        category_id,
        code@,
        item_type@,
        name@,
        description@,
        base_price,
    ));
    raw
}

impl World {
    /// The world as a record that was not stored yet: all but the identifier.
    pub fn as_new_world(&self) -> (new_world: NewWorld)
        ensures
            new_world.code@ == self.code@,
            new_world.name@ == self.name@,
            new_world.description@ == self.description@,
            new_world.created_at == self.created_at,
            new_world.updated_at == self.updated_at,
    {
        NewWorld {
            code: self.code.clone(),
            name: self.name.clone(),
            description: self.description.clone(),
            created_at: self.created_at,
            updated_at: self.updated_at,
        }
    }
}

impl TypeSignature for World {
    open spec fn raw_signature(&self) -> Seq<u8> {
        world_bytes(self.code@, self.name@, self.description@)
    }

    fn signature(&self) -> (signature: Vec<u8>) {
        hashed(&write_world_bytes(self.code.as_str(), self.name.as_str(), self.description.as_str()))
    }
}

impl TypeSignature for NewWorld {
    open spec fn raw_signature(&self) -> Seq<u8> {
        world_bytes(self.code@, self.name@, self.description@)
    }

    fn signature(&self) -> (signature: Vec<u8>) {
        hashed(&write_world_bytes(self.code.as_str(), self.name.as_str(), self.description.as_str()))
    }
}

impl CharacterClass {
    /// The class as a record that was not stored yet: all but the identifier
    /// and the times.
    pub fn as_new_character_class(&self) -> (new_class: NewCharacterClass)
        ensures
            new_class.world_id == self.world_id,
            new_class.code@ == self.code@,
            new_class.name@ == self.name@,
            new_class.description@ == self.description@,
            new_class.hit_points == self.hit_points,
            new_class.stamina_expression@ == self.stamina_expression@,
            new_class.skillpoint_expression@ == self.skillpoint_expression@,
            new_class.proficiencies@ == self.proficiencies@,
            new_class.raw_signature() == self.raw_signature(),
    {
        NewCharacterClass {
            world_id: self.world_id,
            code: self.code.clone(),
            name: self.name.clone(),
            description: self.description.clone(),
            hit_points: self.hit_points,
            stamina_expression: self.stamina_expression.clone(),
            skillpoint_expression: self.skillpoint_expression.clone(),
            proficiencies: self.proficiencies.clone(),
        }
    }
}

impl TypeSignature for CharacterClass {
    open spec fn raw_signature(&self) -> Seq<u8> {
        class_bytes(
            self.world_id,
            self.code@,
            self.name@,
            self.description@,
            self.hit_points,
            self.stamina_expression@,
            self.skillpoint_expression@,
            self.proficiencies@,
        )
    }

    fn signature(&self) -> (signature: Vec<u8>) {
        hashed(
            &write_class_bytes(
                self.world_id,
                self.code.as_str(),
                self.name.as_str(),
                self.description.as_str(),
                self.hit_points,
                self.stamina_expression.as_str(),
                self.skillpoint_expression.as_str(),
                self.proficiencies.as_str(),
            ),
        )
    }
}

impl TypeSignature for NewCharacterClass {
    open spec fn raw_signature(&self) -> Seq<u8> {
        class_bytes(
            self.world_id,
            self.code@,
            self.name@,
            self.description@,
            self.hit_points,
            self.stamina_expression@,
            self.skillpoint_expression@,
            self.proficiencies@,
        )
    }

    fn signature(&self) -> (signature: Vec<u8>) {
        hashed(
            &write_class_bytes(
                self.world_id,
                self.code.as_str(),
                self.name.as_str(),
                self.description.as_str(),
                self.hit_points,
                self.stamina_expression.as_str(),
                self.skillpoint_expression.as_str(),
                self.proficiencies.as_str(),
            ),
        )
    }
}

impl CharacterClassFeature {
    /// The feature as a record that was not stored yet: all but the
    /// identifier and the times.
    pub fn as_new_character_class_feature(&self) -> (new_feature: NewCharacterClassFeature)
        ensures
            new_feature.class_id == self.class_id,
            new_feature.level == self.level,
            new_feature.code@ == self.code@,
            new_feature.name@ == self.name@,
            new_feature.description@ == self.description@,
            new_feature.raw_signature() == self.raw_signature(),
    {
        NewCharacterClassFeature {
            class_id: self.class_id,
            level: self.level,
            code: self.code.clone(),
            name: self.name.clone(),
            description: self.description.clone(),
        }
    }
}

impl TypeSignature for CharacterClassFeature {
    open spec fn raw_signature(&self) -> Seq<u8> {
        feature_bytes(self.class_id, self.level, self.code@, self.name@, self.description@)
    }

    fn signature(&self) -> (signature: Vec<u8>) {
        hashed(
            &write_feature_bytes(
                self.class_id,
                self.level,
                self.code.as_str(),
                self.name.as_str(),
                self.description.as_str(),
            ),
        )
    }
}

impl TypeSignature for NewCharacterClassFeature {
    open spec fn raw_signature(&self) -> Seq<u8> {
        feature_bytes(self.class_id, self.level, self.code@, self.name@, self.description@)
    }

    fn signature(&self) -> (signature: Vec<u8>) {
        hashed(
            &write_feature_bytes(
                self.class_id,
                self.level,
                self.code.as_str(),
                self.name.as_str(),
                self.description.as_str(),
            ),
        )
    }
}

impl Item {
    /// The item as a record that was not stored yet: all but the identifier
    /// and the times.
    pub fn as_new_item(&self) -> (new_item: NewItem)
        ensures
            new_item.world_id == self.world_id,
            new_item.code@ == self.code@,
            new_item.item_type@ == self.item_type@,
            new_item.category_id == self.category_id,
            new_item.name@ == self.name@,
            new_item.description@ == self.description@,
            new_item.item_properties@ == self.item_properties@,
            new_item.base_price == self.base_price,
    {
        NewItem {
            world_id: self.world_id,
            code: self.code.clone(),
            item_type: self.item_type.clone(),
            category_id: self.category_id,
            name: self.name.clone(),
            description: self.description.clone(),
            item_properties: self.item_properties.clone(),
            base_price: self.base_price,
        }
    }
}

impl TypeSignature for Item {
    open spec fn raw_signature(&self) -> Seq<u8> {
        item_bytes(
            self.world_id,
            self.category_id,
            self.code@,
            self.item_type@,
            self.name@,
            self.description@,
            self.base_price,
        )
    }

    fn signature(&self) -> (signature: Vec<u8>) {
        hashed(
            &write_item_bytes(
                self.world_id,
                self.category_id,
                self.code.as_str(),
                self.item_type.as_str(),
                self.name.as_str(),
                self.description.as_str(),
                self.base_price,
            ),
        )
    }
}

} // verus!
