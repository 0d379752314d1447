//! Items: what a client sends to define one, and what becomes of it.

use crate::api::responses::{ApiResponse, Payload};
use crate::api::worlds::same_bytes;
use crate::db::game::{item_bytes, Item};
use crate::protocol::signature::{
    append_i64, append_text, be_bytes_i64, hashed, sha256_digest, text_bytes, TypeSignature,
};
use crate::protocol::valid::{note_if, problem_if, verdict};
use crate::utilities::text::text_views;
use vstd::prelude::*;

verus! {

/// An item as a client defines it. The properties are JSON text, and the
/// time of creation is in microseconds since the Unix epoch.
#[derive(Debug, Clone)]
pub struct ItemDefinition {
    pub id: Option<i64>,
    pub world_id: Option<i64>,
    pub category_id: i64,
    pub code: String,
    pub item_type: String,
    pub name: String,
    pub description: String,
    pub item_properties: String,
    pub base_price: i64,
    pub created_at: Option<i64>,
}

/// What becomes of an item that a client sent.
pub enum ItemChange {
    /// The definition is turned down, for these reasons.
    Rejected(Vec<String>),
    /// The item is stored already, as it was sent.
    NotChanged,
    /// This record is to be stored.
    Save(Item),
}

/// What is wrong with an item definition, one message for each fault.
pub open spec fn item_problems(definition: ItemDefinition) -> Seq<Seq<char>> {
    problem_if(definition.category_id <= 0, "Category ID is required"@) + problem_if(
        definition.code@.len() == 0,
        "Code is required"@,
    ) + problem_if(definition.item_type@.len() == 0, "Item type is required"@) + problem_if(
        definition.name@.len() == 0,
        "Name is required"@,
    ) + problem_if(definition.description@.len() == 0, "Description is required"@) + problem_if(
        definition.base_price <= 0,
        "Base price must be greater than 0"@,
    )
}

impl TypeSignature for ItemDefinition {
    /// The world where it is set, then category, code, type, name,
    /// description and base price.
    open spec fn raw_signature(&self) -> Seq<u8> {
        (match self.world_id {
            Some(world_id) => be_bytes_i64(world_id),
            None => Seq::empty(),
        }) + be_bytes_i64(self.category_id) + text_bytes(self.code@) + text_bytes(self.item_type@)
            + text_bytes(self.name@) + text_bytes(self.description@) + be_bytes_i64(
            self.base_price,
        )
    }

    fn signature(&self) -> (signature: Vec<u8>) {
        let mut raw: Vec<u8> = Vec::new();
        match self.world_id {
            Some(world_id) => append_i64(&mut raw, world_id),
            None => {},
        }
        append_i64(&mut raw, self.category_id);
        append_text(&mut raw, self.code.as_str());
        append_text(&mut raw, self.item_type.as_str());
        append_text(&mut raw, self.name.as_str());
        append_text(&mut raw, self.description.as_str());
        append_i64(&mut raw, self.base_price);
        assert(raw@ =~= self.raw_signature());
        hashed(&raw)
    }
}

impl ItemDefinition {
    /// The record for this definition in the world `world_id`, stored at
    /// `now` under the identifier `id`: a time of creation that is not set
    /// is `now`.
    pub fn to_record(&self, id: i64, world_id: i64, now: i64) -> (item: Item)
        ensures
            item.id == id,
            item.world_id == world_id,
            item.category_id == self.category_id,
            item.code@ == self.code@,
            item.item_type@ == self.item_type@,
            item.name@ == self.name@,
            item.description@ == self.description@,
            item.item_properties@ == self.item_properties@,
            item.base_price == self.base_price,
            item.created_at == (match self.created_at {
                Some(created_at) => created_at,
                None => now,
            }),
            item.updated_at == now,
    {
        Item {
            id,
            world_id,
            category_id: self.category_id,
            code: self.code.clone(),
            item_type: self.item_type.clone(),
            name: self.name.clone(),
            description: self.description.clone(),
            item_properties: self.item_properties.clone(),
            base_price: self.base_price,
            created_at: match self.created_at {
                Some(created_at) => created_at,
                None => now,
            },
            updated_at: now,
        }
    }

    /// The record for this definition, stored at `now`: an identifier or a
    /// world that is not set counts as 0.
    pub fn to_item(&self, now: i64) -> (item: Item)
        ensures
            item.id == (match self.id {
                Some(id) => id,
                None => 0,
            }),
            item.world_id == (match self.world_id {
                Some(world_id) => world_id,
                None => 0,
            }),
            item.category_id == self.category_id,
            item.code@ == self.code@,
            item.item_type@ == self.item_type@,
            item.name@ == self.name@,
            item.description@ == self.description@,
            item.item_properties@ == self.item_properties@,
            item.base_price == self.base_price,
            item.created_at == (match self.created_at {
                Some(created_at) => created_at,
                None => now,
            }),
            item.updated_at == now,
    {
        let id: i64 = match self.id {
            Some(id) => id,
            None => 0,
        };
        let world_id: i64 = match self.world_id {
            Some(world_id) => world_id,
            None => 0,
        };
        self.to_record(id, world_id, now)
    }

    /// `Ok` for a definition without faults, and otherwise the messages:
    /// category and base price must be above 0, and code, type, name and
    /// description must be there.
    pub fn is_valid(&self) -> (r: Result<(), Vec<String>>)
        ensures
            match r {
                Ok(_) => item_problems(*self).len() == 0,
                Err(errors) => errors@.len() > 0 && text_views(errors@) == item_problems(*self),
            },
    {
        let mut errors: Vec<String> = Vec::new();
        assert(text_views(errors@) =~= Seq::<Seq<char>>::empty());
        note_if(&mut errors, self.category_id <= 0, "Category ID is required");
        note_if(&mut errors, self.code.as_str().is_empty(), "Code is required");
        note_if(&mut errors, self.item_type.as_str().is_empty(), "Item type is required");
        note_if(&mut errors, self.name.as_str().is_empty(), "Name is required");
        note_if(&mut errors, self.description.as_str().is_empty(), "Description is required");
        note_if(&mut errors, self.base_price <= 0, "Base price must be greater than 0");
        assert(text_views(errors@) =~= item_problems(*self));
        verdict(errors)
    }
}

/// The bytes that identify the record of a definition in the world
/// `world_id`.
pub open spec fn record_bytes(definition: ItemDefinition, world_id: i64) -> Seq<u8> {
    item_bytes(
        world_id,
        definition.category_id,
        definition.code@,
        definition.item_type@,
        definition.name@,
        definition.description@,
        definition.base_price,
    )
}

/// True when an item is stored and its signature is that of the record of
/// the definition in the world `world_id`.
pub open spec fn item_unchanged(
    definition: ItemDefinition,
    world_id: i64,
    found: Option<&Item>,
) -> bool {
    match found {
        Some(stored) => sha256_digest(record_bytes(definition, world_id)) == sha256_digest(
            stored.raw_signature(),
        ),
        None => false,
    }
}

/// What becomes of an item sent to the world `world_id`: `found` is the
/// stored item of its code in that world, if there is one.
///
/// A definition with faults is turned down. The record to store takes the
/// identifier of the stored item, or 0 where there is none; where its
/// signature is that of the stored item, nothing changes.
pub fn item_change(definition: &ItemDefinition, world_id: i64, found: Option<&Item>, now: i64) -> (change:
    ItemChange)
    ensures
        match change {
            ItemChange::Rejected(reasons) => reasons@.len() > 0 && text_views(reasons@)
                == item_problems(*definition),
            ItemChange::NotChanged => item_problems(*definition).len() == 0 && item_unchanged(
                *definition,
                world_id,
                found,
            ),
            ItemChange::Save(item) => {
                &&& item_problems(*definition).len() == 0
                &&& !item_unchanged(*definition, world_id, found)
                &&& item.id == (match found {
                    Some(stored) => stored.id,
                    None => 0,
                })
                &&& item.world_id == world_id
                &&& item.category_id == definition.category_id
                &&& item.code@ == definition.code@
                &&& item.item_type@ == definition.item_type@
                &&& item.name@ == definition.name@
                &&& item.description@ == definition.description@
                &&& item.item_properties@ == definition.item_properties@
                &&& item.base_price == definition.base_price
                &&& item.created_at == (match definition.created_at {
                    Some(created_at) => created_at,
                    None => now,
                })
                &&& item.updated_at == now
            },
        },
{
    match definition.is_valid() {
        Err(errors) => {
            return ItemChange::Rejected(errors);
        },
        Ok(_) => {},
    }
    let id: i64 = match found {
        Some(stored) => stored.id,
        None => 0,
    };
    let item = definition.to_record(id, world_id, now);
    match found {
        Some(stored) => {
            if same_bytes(&item.signature(), &stored.signature()) {
                return ItemChange::NotChanged;
            }
        },
        None => {},
    }
    ItemChange::Save(item)
}

/// The answer for an item that was stored: it was created where the record
/// sent to be stored had the identifier 0, and updated otherwise.
pub fn stored_answer<T>(sent_id: i64, stored: T) -> (answer: ApiResponse<T>)
    ensures
        answer == (if sent_id == 0 {
            ApiResponse::Created(Payload { data: stored })
        } else {
            ApiResponse::JsonData(Payload { data: stored })
        }),
{
    if sent_id == 0 {
        ApiResponse::Created(Payload { data: stored })
    } else {
        ApiResponse::JsonData(Payload { data: stored })
    }
}

} // verus!
