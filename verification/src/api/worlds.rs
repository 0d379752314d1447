//! Game worlds: what a client sends to define one, and what becomes of it.

use crate::db::game::{world_bytes, write_world_bytes, World};
use crate::protocol::signature::{hashed, sha256_digest, TypeSignature};
use vstd::prelude::*;

verus! {

/// A world as a client defines it. The time of creation is in microseconds
/// since the Unix epoch.
#[derive(Debug, Clone)]
pub struct WorldDefinition {
    pub id: Option<i64>,
    pub code: String,
    pub name: String,
    pub description: String,
    pub created_at: Option<i64>,
}

/// What becomes of a world that a client sent.
pub enum WorldChange {
    /// The definition is turned down, for these reasons.
    Rejected(Vec<String>),
    /// The world is stored already, as it was sent.
    NotChanged,
    /// This record is to be stored.
    Save(World),
}

impl TypeSignature for WorldDefinition {
    open spec fn raw_signature(&self) -> Seq<u8> {
        world_bytes(self.code@, self.name@, self.description@)
    }

    fn signature(&self) -> (signature: Vec<u8>) {
        hashed(&write_world_bytes(self.code.as_str(), self.name.as_str(), self.description.as_str()))
    }
}

/// Tells whether two lists of bytes are equal.
pub fn same_bytes(a: &Vec<u8>, b: &Vec<u8>) -> (same: bool)
    ensures
        same == (a@ == b@),
{
    if a.len() != b.len() {
        return false;
    }
    let mut i: usize = 0;
    while i < a.len()
        invariant
            i <= a.len(),
            a.len() == b.len(),
            forall|k: int| 0 <= k < i ==> a@[k] == b@[k],
        decreases a.len() - i,
    {
        if a[i] != b[i] {
            return false;
        }
        i += 1;
    }
    assert(a@ =~= b@);
    true
}

/// The one reason in a list.
fn one_reason(reason: &str) -> (reasons: Vec<String>)
    ensures
        reasons@.len() == 1,
        reasons@[0]@ == reason@,
{
    let mut reasons: Vec<String> = Vec::new();
    reasons.push(reason.to_owned());
    reasons
}

/// True when code, name and description are all there.
pub open spec fn world_is_complete(definition: WorldDefinition) -> bool {
    definition.code@.len() > 0 && definition.name@.len() > 0 && definition.description@.len() > 0
}

impl WorldDefinition {
    /// The record for this definition, stored at `now`: an identifier that
    /// is not set counts as 0, and a time of creation that is not set is
    /// `now`.
    pub fn to_world(&self, now: i64) -> (world: World)
        ensures
            world.id == (match self.id {
                Some(id) => id,
                None => 0,
            }),
            world.code@ == self.code@,
            world.name@ == self.name@,
            world.description@ == self.description@,
            world.created_at == (match self.created_at {
                Some(created_at) => created_at,
                None => now,
            }),
            world.updated_at == now,
    {
        World {
            id: match self.id {
                Some(id) => id,
                None => 0,
            },
            code: self.code.clone(),
            name: self.name.clone(),
            description: self.description.clone(),
            created_at: match self.created_at {
                Some(created_at) => created_at,
                None => now,
            },
            updated_at: now,
        }
    }

    /// True when code, name and description are all there.
    pub fn is_valid(&self) -> (valid: bool)
        ensures
            valid == world_is_complete(*self),
    {
        !self.code.as_str().is_empty() && !self.name.as_str().is_empty()
            && !self.description.as_str().is_empty()
    }
}

/// What becomes of a world sent to be created: `found` tells whether a world
/// of its code is stored already.
pub fn new_world_change(definition: &WorldDefinition, found: bool, now: i64) -> (change:
    WorldChange)
    ensures
        match change {
            WorldChange::Rejected(reasons) => reasons@.len() == 1 && (if !world_is_complete(
                *definition,
            ) {
                reasons@[0]@ == "Invalid world definition"@
            } else {
                found && reasons@[0]@ == "World already exists"@
            }),
            WorldChange::NotChanged => false,
            WorldChange::Save(world) => {
                &&& world_is_complete(*definition)
                &&& !found
                &&& world.id == (match definition.id {
                    Some(id) => id,
                    None => 0,
                })
                &&& world.code@ == definition.code@
                &&& world.name@ == definition.name@
                &&& world.description@ == definition.description@
                &&& world.created_at == (match definition.created_at {
                    Some(created_at) => created_at,
                    None => now,
                })
                &&& world.updated_at == now
            },
        },
{
    if !definition.is_valid() {
        return WorldChange::Rejected(one_reason("Invalid world definition"));
    }
    if found {
        return WorldChange::Rejected(one_reason("World already exists"));
    }
    WorldChange::Save(definition.to_world(now))
}

/// True when a world is stored and its signature is that of the definition.
pub open spec fn stored_unchanged(definition: WorldDefinition, found: Option<&World>) -> bool {
    match found {
        Some(stored) => sha256_digest(definition.raw_signature()) == sha256_digest(
            stored.raw_signature(),
        ),
        None => false,
    }
}

/// What becomes of a world sent under `world_code` to be created or
/// updated: `found` is the stored world of its code, if there is one.
///
/// An incomplete definition is turned down, and so is one whose code is not
/// `world_code`. A stored world with the same signature is left as it is.
/// Otherwise the record to store takes the identifier of the stored world,
/// or 0 where there is none.
pub fn world_change(
    definition: &WorldDefinition,
    world_code: &str,
    found: Option<&World>,
    now: i64,
) -> (change: WorldChange)
    ensures
        match change {
            WorldChange::Rejected(reasons) => reasons@.len() == 1 && (if !world_is_complete(
                *definition,
            ) {
                reasons@[0]@ == "Invalid world definition"@
            } else {
                definition.code@ != world_code@ && reasons@[0]@ == "World code mismatch"@
            }),
            WorldChange::NotChanged => world_is_complete(*definition) && definition.code@
                == world_code@ && stored_unchanged(*definition, found),
            WorldChange::Save(world) => {
                &&& world_is_complete(*definition)
                &&& definition.code@ == world_code@
                &&& !stored_unchanged(*definition, found)
                &&& world.id == (match found {
                    Some(stored) => stored.id,
                    None => 0,
                })
                &&& world.code@ == definition.code@
                &&& world.name@ == definition.name@
                &&& world.description@ == definition.description@
                &&& world.created_at == (match definition.created_at {
                    Some(created_at) => created_at,
                    None => now,
                })
                &&& world.updated_at == now
            },
        },
{
    if !definition.is_valid() {
        return WorldChange::Rejected(one_reason("Invalid world definition"));
    }
    let code: String = world_code.to_owned();
    if definition.code != code {
        return WorldChange::Rejected(one_reason("World code mismatch"));
    }
    let id: i64 = match found {
        Some(stored) => {
            if same_bytes(&definition.signature(), &stored.signature()) {
                return WorldChange::NotChanged;
            }
            stored.id
        },
        None => 0,
    };
    let mut world = definition.to_world(now);
    world.id = id;
    WorldChange::Save(world)
}

} // verus!
