//! Character classes: comparing what a client sent with what is stored, and
//! turning the one form into the other.

use crate::api::worlds::same_bytes;
use crate::db::game::{CharacterClass, CharacterClassFeature};
use crate::protocol::character_class::{
    CharacterClass as ProtocolCharacterClass,
    CharacterClassFeature as ProtocolCharacterClassFeature,
};
use crate::protocol::signature::{sha256_digest, TypeSignature};
use crate::utilities::text::text_views;
use vstd::prelude::*;

verus! {

/// The JSON text that `serde_json` writes for a list of texts, or for the
/// lack of one.
pub uninterp spec fn json_of_texts(texts: Option<Seq<Seq<char>>>) -> Seq<char>;

/// Writes the proficiencies as JSON: `serde_json::to_value` makes the JSON
/// value, with the default value where that fails, and the value's
/// `to_string` writes it out. The contract names the text.
#[verifier::external_body]
fn proficiencies_json(proficiencies: &Option<Vec<String>>) -> (json: String)
    ensures
        json@ == json_of_texts(
            match *proficiencies {
                Some(list) => Some(text_views(list@)),
                None => None,
            },
        ),
{
    serde_json::to_value(proficiencies).unwrap_or_default().to_string()
}

/// How what a client sent differs from what is stored.
pub struct CharacterClassDelta {
    /// The stored class, where there is one and it differs.
    pub existing_class: Option<ProtocolCharacterClass>,
    /// The class to store, where it is to be stored.
    pub class_changes: Option<ProtocolCharacterClass>,
    /// The features to store.
    pub feature_changes: Option<Vec<ProtocolCharacterClassFeature>>,
    /// The codes of the features to remove.
    pub removed_features: Option<Vec<String>>,
}

impl CharacterClassDelta {
    /// True when there is anything to store or to remove.
    pub fn has_changed(&self) -> (changed: bool)
        ensures
            changed == (self.class_changes is Some || self.feature_changes is Some
                || self.removed_features is Some),
    {
        self.class_changes.is_some() || self.feature_changes.is_some()
            || self.removed_features.is_some()
    }
}

/// True when a class is stored and its signature is that of the candidate.
pub open spec fn class_unchanged(
    existing: Option<ProtocolCharacterClass>,
    candidate: ProtocolCharacterClass,
) -> bool {
    match existing {
        Some(stored) => sha256_digest(stored.raw_signature()) == sha256_digest(
            candidate.raw_signature(),
        ),
        None => false,
    }
}

/// Compares the candidate with the stored class, if there is one.
///
/// Where the two have the same signature nothing changes. Otherwise the
/// candidate and its features are to be stored, and the stored class, if
/// there is one, is handed on. No feature is ever listed for removal.
pub fn compute_character_class_changes(
    existing_class: Option<ProtocolCharacterClass>,
    candidate: &ProtocolCharacterClass,
) -> (delta: CharacterClassDelta)
    ensures
        delta.removed_features is None,
        class_unchanged(existing_class, *candidate) ==> delta.existing_class is None
            && delta.class_changes is None && delta.feature_changes is None,
        !class_unchanged(existing_class, *candidate) ==> delta.existing_class == existing_class
            && delta.class_changes is Some && same_class(delta.class_changes->0, *candidate)
            && (delta.feature_changes is Some <==> candidate.features is Some) && (
        delta.feature_changes is Some ==> same_features(
            delta.feature_changes->0@,
            candidate.features->0@,
        )),
{
    let unchanged = match &existing_class {
        Some(stored) => same_bytes(&stored.signature(), &candidate.signature()),
        None => false,
    };
    if unchanged {
        return CharacterClassDelta {
            existing_class: None,
            class_changes: None,
            feature_changes: None,
            removed_features: None,
        };
    }
    let copy = copy_class(candidate);
    let features = copy_features(&candidate.features);
    CharacterClassDelta {
        existing_class,
        class_changes: Some(copy),
        feature_changes: features,
        removed_features: None,
    }
}

/// A copy of a feature.
fn copy_feature(feature: &ProtocolCharacterClassFeature) -> (copy: ProtocolCharacterClassFeature)
    ensures
        copy.level == feature.level,
        copy.code@ == feature.code@,
        copy.name@ == feature.name@,
        copy.description@ == feature.description@,
{
    ProtocolCharacterClassFeature {
        level: feature.level,
        code: feature.code.clone(),
        name: feature.name.clone(),
        description: feature.description.clone(),
    }
}

/// True when two lists of features hold the same values.
pub open spec fn same_features(
    a: Seq<ProtocolCharacterClassFeature>,
    b: Seq<ProtocolCharacterClassFeature>,
) -> bool {
    a.len() == b.len() && forall|i: int|
        0 <= i < a.len() ==> (#[trigger] a[i]).level == b[i].level && a[i].code@ == b[i].code@
            && a[i].name@ == b[i].name@ && a[i].description@ == b[i].description@
}

/// A copy of a list of features.
fn copy_features(features: &Option<Vec<ProtocolCharacterClassFeature>>) -> (copy: Option<
    Vec<ProtocolCharacterClassFeature>,
>)
    ensures
        copy is Some <==> *features is Some,
        copy matches Some(list) ==> same_features(list@, features->0@),
{
    match features {
        None => None,
        Some(list) => {
            let mut out: Vec<ProtocolCharacterClassFeature> = Vec::new();
            let mut i: usize = 0;
            while i < list.len()
                invariant
                    i <= list.len(),
                    same_features(out@, list@.take(i as int)),
                decreases list.len() - i,
            {
                out.push(copy_feature(&list[i]));
                i += 1;
            }
            assert(list@.take(list.len() as int) == list@);
            Some(out)
        },
    }
}

/// A copy of a list of texts.
fn copy_texts(texts: &Option<Vec<String>>) -> (copy: Option<Vec<String>>)
    ensures
        copy is Some <==> *texts is Some,
        copy matches Some(list) ==> text_views(list@) == text_views(texts->0@),
{
    match texts {
        None => None,
        Some(list) => {
            let mut out: Vec<String> = Vec::new();
            let mut i: usize = 0;
            while i < list.len()
                invariant
                    i <= list.len(),
                    text_views(out@) == text_views(list@.take(i as int)),
                decreases list.len() - i,
            {
                let ghost before = out@;
                let text = list[i].clone();
                out.push(text);
                i += 1;
                proof {
                    assert(text_views(before) == text_views(list@.take(i - 1)));
                    assert forall|k: int| 0 <= k < i implies text_views(out@)[k] == text_views(
                        list@.take(i as int),
                    )[k] by {
                        if k < i - 1 {
                            assert(text_views(before)[k] == text_views(list@.take(i - 1))[k]);
                        }
                    }
                    assert(text_views(out@) =~= text_views(list@.take(i as int)));
                }
            }
            assert(list@.take(list.len() as int) == list@);
            Some(out)
        },
    }
}

/// Lists of features with the same values add the same bytes to a signature.
proof fn lemma_same_features_bytes(
    a: Seq<ProtocolCharacterClassFeature>,
    b: Seq<ProtocolCharacterClassFeature>,
)
    requires
        same_features(a, b),
    ensures
        crate::protocol::character_class::features_bytes(a)
            == crate::protocol::character_class::features_bytes(b),
    decreases a.len(),
{
    if a.len() > 0 {
        assert(same_features(a.drop_last(), b.drop_last())) by {
            assert forall|i: int| 0 <= i < a.drop_last().len() implies (#[trigger] a.drop_last()[i]).level
                == b.drop_last()[i].level && a.drop_last()[i].code@ == b.drop_last()[i].code@
                && a.drop_last()[i].name@ == b.drop_last()[i].name@ && a.drop_last()[i].description@
                == b.drop_last()[i].description@ by {
                assert(a.drop_last()[i] == a[i]);
                assert(b.drop_last()[i] == b[i]);
            }
        }
        lemma_same_features_bytes(a.drop_last(), b.drop_last());
        assert(a.last() == a[a.len() - 1]);
        assert(b.last() == b[b.len() - 1]);
    }
}

/// True when two classes hold the same values, field by field.
pub open spec fn same_class(a: ProtocolCharacterClass, b: ProtocolCharacterClass) -> bool {
    &&& a.id == b.id
    &&& a.world_id == b.world_id
    &&& (a.code is Some <==> b.code is Some)
    &&& (a.code is Some ==> a.code->0@ == b.code->0@)
    &&& a.name@ == b.name@
    &&& a.description@ == b.description@
    &&& a.hit_points == b.hit_points
    &&& a.stamina_expression@ == b.stamina_expression@
    &&& a.skillpoint_expression@ == b.skillpoint_expression@
    &&& (a.proficiencies is Some <==> b.proficiencies is Some)
    &&& (a.proficiencies is Some ==> text_views(a.proficiencies->0@) == text_views(
        b.proficiencies->0@,
    ))
    &&& (a.features is Some <==> b.features is Some)
    &&& (a.features is Some ==> same_features(a.features->0@, b.features->0@))
}

/// Classes that hold the same values have the same signature.
pub proof fn lemma_same_class_signature(a: ProtocolCharacterClass, b: ProtocolCharacterClass)
    requires
        same_class(a, b),
    ensures
        a.raw_signature() == b.raw_signature(),
{
    if a.features is Some {
        lemma_same_features_bytes(a.features->0@, b.features->0@);
    }
}

/// A copy of a class.
fn copy_class(class: &ProtocolCharacterClass) -> (copy: ProtocolCharacterClass)
    ensures
        same_class(copy, *class),
{
    let code: Option<String> = match &class.code {
        Some(code) => Some(code.clone()),
        None => None,
    };
    let copy = ProtocolCharacterClass {
        id: class.id,
        world_id: class.world_id,
        code,
        name: class.name.clone(),
        description: class.description.clone(),
        hit_points: class.hit_points,
        stamina_expression: class.stamina_expression.clone(),
        skillpoint_expression: class.skillpoint_expression.clone(),
        proficiencies: copy_texts(&class.proficiencies),
        features: copy_features(&class.features),
    };
    copy
}

/// The sixteen digits of base sixteen, letters in lower case.
pub open spec fn hex_digit(n: int) -> char
    recommends
        0 <= n < 16,
{
    if n < 10 {
        ((48 + n) as u8) as char
    } else {
        ((87 + n) as u8) as char
    }
}

/// The bytes written in base sixteen, two digits to the byte.
pub open spec fn hex_text(bytes: Seq<u8>) -> Seq<char>
    decreases bytes.len(),
{
    if bytes.len() == 0 {
        Seq::empty()
    } else {
        hex_text(bytes.drop_last()).push(hex_digit(bytes.last() as int / 16)).push(
            hex_digit(bytes.last() as int % 16),
        )
    }
}

fn hex_char(n: u8) -> (c: char)
    requires
        n < 16,
    ensures
        c == hex_digit(n as int),
{
    if n < 10 {
        (48u8 + n) as char
    } else {
        (87u8 + n) as char
    }
}

/// Writes the bytes in base sixteen, two lower-case digits to the byte.
pub fn pretty_print_vec(vec: &Vec<u8>) -> (text: String)
    ensures
        text@ == hex_text(vec@),
{
    let mut text = String::new();
    let mut i: usize = 0;
    assert(vec@.take(0) =~= Seq::<u8>::empty());
    while i < vec.len()
        invariant
            i <= vec.len(),
            text@ == hex_text(vec@.take(i as int)),
        decreases vec.len() - i,
    {
        let byte = vec[i];
        text.push(hex_char(byte / 16));
        text.push(hex_char(byte % 16));
        i += 1;
        proof {
            assert(vec@.take(i as int).drop_last() == vec@.take(i - 1));
            assert(vec@.take(i as int).last() == byte);
        }
    }
    assert(vec@.take(vec.len() as int) == vec@);
    text
}

/// The record for a class that a client sent, stored at `now`: an
/// identifier, a world or a code that is not set counts as 0 and as the
/// empty text, and the proficiencies are written as JSON.
pub fn protocol_character_class_to_entity(character: &ProtocolCharacterClass, now: i64) -> (entity:
    CharacterClass)
    ensures
        entity.id == (match character.id {
            Some(id) => id,
            None => 0,
        }),
        entity.world_id == (match character.world_id {
            Some(world_id) => world_id,
            None => 0,
        }),
        entity.code@ == (match character.code {
            Some(code) => code@,
            None => Seq::empty(),
        }),
        entity.name@ == character.name@,
        entity.description@ == character.description@,
        entity.hit_points == character.hit_points,
        entity.stamina_expression@ == character.stamina_expression@,
        entity.skillpoint_expression@ == character.skillpoint_expression@,
        entity.proficiencies@ == json_of_texts(
            match character.proficiencies {
                Some(list) => Some(text_views(list@)),
                None => None,
            },
        ),
        entity.created_at == now,
        entity.updated_at == now,
{
    CharacterClass {
        id: match character.id {
            Some(id) => id,
            None => 0,
        },
        world_id: match character.world_id {
            Some(world_id) => world_id,
            None => 0,
        },
        code: match &character.code {
            Some(code) => code.clone(),
            None => String::new(),
        },
        name: character.name.clone(),
        description: character.description.clone(),
        hit_points: character.hit_points,
        stamina_expression: character.stamina_expression.clone(),
        skillpoint_expression: character.skillpoint_expression.clone(),
        proficiencies: proficiencies_json(&character.proficiencies),
        created_at: now,
        updated_at: now,
    }
}

/// The record for a feature that a client sent, stored at `now`, not yet
/// tied to a class.
pub fn protocol_character_class_feature_to_entity(
    feature: &ProtocolCharacterClassFeature,
    now: i64,
) -> (entity: CharacterClassFeature)
    ensures
        entity.id == 0,
        entity.class_id == 0,
        entity.level == feature.level,
        entity.code@ == feature.code@,
        entity.name@ == feature.name@,
        entity.description@ == feature.description@,
        entity.created_at == now,
        entity.updated_at == now,
{
    CharacterClassFeature {
        id: 0,
        class_id: 0,
        level: feature.level,
        code: feature.code.clone(),
        name: feature.name.clone(),
        description: feature.description.clone(),
        created_at: now,
        updated_at: now,
    }
}

/// The record to store for a class that changed: it takes the identifier of
/// the stored class, where there is one with an identifier, and belongs to
/// the world `world_id`.
pub fn entity_to_save(
    mut entity: CharacterClass,
    existing_class: &Option<ProtocolCharacterClass>,
    world_id: i64,
) -> (saved: CharacterClass)
    ensures
        saved.id == (match *existing_class {
            Some(existing) => match existing.id {
                Some(id) => id,
                None => 0,
            },
            None => entity.id,
        }),
        saved.world_id == world_id,
        saved.code == entity.code,
        saved.name == entity.name,
        saved.description == entity.description,
        saved.hit_points == entity.hit_points,
        saved.stamina_expression == entity.stamina_expression,
        saved.skillpoint_expression == entity.skillpoint_expression,
        saved.proficiencies == entity.proficiencies,
        saved.created_at == entity.created_at,
        saved.updated_at == entity.updated_at,
{
    match existing_class {
        Some(existing) => {
            entity.id = match existing.id {
                Some(id) => id,
                None => 0,
            };
        },
        None => {},
    }
    entity.world_id = world_id;
    entity
}

/// The class as a client sees it, made from the stored class, its
/// proficiencies read from their JSON, and its stored features. Without
/// stored features the class has no list of features.
pub fn character_class_from_entity(
    entity: &CharacterClass,
    proficiencies: Vec<String>,
    entity_features: &Vec<CharacterClassFeature>,
) -> (class: ProtocolCharacterClass)
    ensures
        class.id == Some(entity.id),
        class.world_id == Some(entity.world_id),
        class.code matches Some(code) && code@ == entity.code@,
        class.name@ == entity.name@,
        class.description@ == entity.description@,
        class.hit_points == entity.hit_points,
        class.stamina_expression@ == entity.stamina_expression@,
        class.skillpoint_expression@ == entity.skillpoint_expression@,
        class.proficiencies == Some(proficiencies),
        class.features is Some <==> entity_features@.len() > 0,
        class.features matches Some(features) ==> features@.len() == entity_features@.len()
            && forall|i: int|
            0 <= i < features@.len() ==> (#[trigger] features@[i]).level == entity_features@[i].level
                && features@[i].code@ == entity_features@[i].code@ && features@[i].name@
                == entity_features@[i].name@ && features@[i].description@
                == entity_features@[i].description@,
{
    let mut features: Vec<ProtocolCharacterClassFeature> = Vec::new();
    let mut i: usize = 0;
    while i < entity_features.len()
        invariant
            i <= entity_features.len(),
            features@.len() == i,
            forall|k: int|
                0 <= k < i ==> (#[trigger] features@[k]).level == entity_features@[k].level
                    && features@[k].code@ == entity_features@[k].code@ && features@[k].name@
                    == entity_features@[k].name@ && features@[k].description@
                    == entity_features@[k].description@,
        decreases entity_features.len() - i,
    {
        let feature = &entity_features[i];
        features.push(
            ProtocolCharacterClassFeature {
                level: feature.level,
                code: feature.code.clone(),
                name: feature.name.clone(),
                description: feature.description.clone(),
            },
        );
        i += 1;
    }
    ProtocolCharacterClass {
        id: Some(entity.id),
        world_id: Some(entity.world_id),
        code: Some(entity.code.clone()),
        name: entity.name.clone(),
        description: entity.description.clone(),
        hit_points: entity.hit_points,
        stamina_expression: entity.stamina_expression.clone(),
        skillpoint_expression: entity.skillpoint_expression.clone(),
        proficiencies: Some(proficiencies),
        features: if entity_features.len() == 0 {
            None
        } else {
            Some(features)
        },
    }
}

} // verus!
