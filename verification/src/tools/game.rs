//! The specifications of worlds, items, enemies and character classes, and
//! the assets that a set of files comes to.

use crate::protocol::signature::{
    append_i32, append_i64, append_text, append_texts, be_bytes_i32, be_bytes_i64, hashed,
    text_bytes, texts_bytes, TypeSignature,
};
use crate::utilities::text::text_views;
use vstd::prelude::*;

verus! {

#[derive(Debug, Clone)]
pub struct WorldSpec {
    pub id: Option<i64>,
    pub code: Option<String>,
    pub name: String,
    pub description: String,
}

/// An item; its properties are JSON text.
#[derive(Debug, Clone)]
pub struct ItemSpec {
    pub id: Option<i64>,
    pub code: Option<String>,
    pub world_id: Option<i64>,
    pub item_type: String,
    pub category_id: Option<i64>,
    pub name: String,
    pub description: String,
    pub item_properties: String,
    pub base_price: i32,
}

/// An enemy; its weapons and its armor are JSON text.
#[derive(Debug, Clone)]
pub struct EnemySpec {
    pub id: Option<i64>,
    pub code: Option<String>,
    pub name: String,
    pub class: String,
    pub level: i32,
    pub description: String,
    pub hit_points: i32,
    pub stamina: i32,
    pub strength: i32,
    pub dexterity: i32,
    pub constitution: i32,
    pub intelligence: i32,
    pub wisdom: i32,
    pub charisma: i32,
    pub weapons: Option<Vec<String>>,
    pub armor: Option<String>,
}

#[derive(Debug, Clone)]
pub struct CharacterClassSpec {
    pub id: Option<i64>,
    pub world_id: Option<i64>,
    pub code: Option<String>,
    pub name: String,
    pub description: String,
    pub hit_points: i64,
    pub stamina_expression: String,
    pub skillpoint_expression: String,
    pub proficiencies: Option<Vec<String>>,
    pub features: Option<Vec<CharacterClassFeature>>,
}

#[derive(Debug, Clone)]
pub struct CharacterClassFeature {
    pub level: i32,
    pub name: String,
    pub description: String,
}

#[derive(Debug, Clone)]
pub enum Spec {
    Item(ItemSpec),
    Enemy(EnemySpec),
    World(WorldSpec),
    CharacterClass(CharacterClassSpec),
}

#[derive(Debug, Clone)]
pub struct GameObject {
    pub kind: String,
    pub api_version: String,
    pub spec: Spec,
}

/// What a set of game objects comes to, kind by kind.
#[derive(Debug, Clone)]
pub struct GameAssets {
    pub world: Option<WorldSpec>,
    pub items: Vec<ItemSpec>,
    pub enemies: Vec<GameObject>,
    pub character_classes: Vec<GameObject>,
}

/// A feature is complete when its level is above 0 and it has a name and a
/// description.
pub open spec fn feature_is_complete(feature: CharacterClassFeature) -> bool {
    feature.level > 0 && feature.name@.len() > 0 && feature.description@.len() > 0
}

/// A class is complete when it has a world above 0, a code, a name, a
/// description, hit points above 0 and both expressions, when none of its
/// proficiencies is empty, and when each of its features is complete.
pub open spec fn class_is_complete(class: CharacterClassSpec) -> bool {
    &&& (match class.world_id {
        Some(world_id) => world_id > 0,
        None => false,
    })
    &&& (match class.code {
        Some(code) => code@.len() > 0,
        None => false,
    })
    &&& class.name@.len() > 0
    &&& class.description@.len() > 0
    &&& class.hit_points > 0
    &&& class.stamina_expression@.len() > 0
    &&& class.skillpoint_expression@.len() > 0
    &&& (match class.proficiencies {
        Some(proficiencies) => forall|i: int|
            0 <= i < proficiencies@.len() ==> (#[trigger] proficiencies@[i])@.len() > 0,
        None => true,
    })
    &&& (match class.features {
        Some(features) => forall|i: int|
            0 <= i < features@.len() ==> feature_is_complete(#[trigger] features@[i]),
        None => true,
    })
}

/// What each feature of a list adds to the signature of its class: level,
/// name and description.
pub open spec fn features_bytes(features: Seq<CharacterClassFeature>) -> Seq<u8>
    decreases features.len(),
{
    if features.len() == 0 {
        Seq::empty()
    } else {
        features_bytes(features.drop_last()) + be_bytes_i32(features.last().level) + text_bytes(
            features.last().name@,
        ) + text_bytes(features.last().description@)
    }
}

impl CharacterClassFeature {
    pub fn is_valid(&self) -> (valid: bool)
        ensures
            valid == feature_is_complete(*self),
    {
        self.level > 0 && !self.name.as_str().is_empty() && !self.description.as_str().is_empty()
    }
}

impl CharacterClassSpec {
    #[verifier::loop_isolation(false)]
    pub fn is_valid(&self) -> (valid: bool)
        ensures
            valid == class_is_complete(*self),
    {
        let world_set = match self.world_id {
            Some(world_id) => world_id > 0,
            None => false,
        };
        let code_set = match &self.code {
            Some(code) => !code.as_str().is_empty(),
            None => false,
        };
        if !(world_set && code_set && !self.name.as_str().is_empty()
            && !self.description.as_str().is_empty() && self.hit_points > 0
            && !self.stamina_expression.as_str().is_empty()
            && !self.skillpoint_expression.as_str().is_empty()) {
            return false;
        }
        match &self.proficiencies {
            Some(proficiencies) => {
                let mut i: usize = 0;
                while i < proficiencies.len()
                    invariant
                        i <= proficiencies.len(),
                        forall|k: int| 0 <= k < i ==> (#[trigger] proficiencies@[k])@.len() > 0,
                    decreases proficiencies.len() - i,
                {
                    if proficiencies[i].as_str().is_empty() {
                        assert(proficiencies@[i as int]@.len() == 0);
                        return false;
                    }
                    i += 1;
                }
            },
            None => {},
        }
        match &self.features {
            Some(features) => {
                let mut i: usize = 0;
                while i < features.len()
                    invariant
                        i <= features.len(),
                        forall|k: int| 0 <= k < i ==> feature_is_complete(#[trigger] features@[k]),
                    decreases features.len() - i,
                {
                    if !features[i].is_valid() {
                        assert(!feature_is_complete(features@[i as int]));
                        return false;
                    }
                    i += 1;
                }
            },
            None => {},
        }
        true
    }
}

impl TypeSignature for CharacterClassSpec {
    /// World, code, name, description, hit points, the two expressions, the
    /// proficiencies, and of each feature its level, name and description.
    /// A world or a code that is not set counts as 0 and as the empty text.
    open spec fn raw_signature(&self) -> Seq<u8> {
        be_bytes_i64(
            match self.world_id {
                Some(world_id) => world_id,
                None => 0,
            },
        ) + text_bytes(
            match self.code {
                Some(code) => code@,
                None => Seq::empty(),
            },
        ) + text_bytes(self.name@) + text_bytes(self.description@) + be_bytes_i64(self.hit_points)
            + text_bytes(self.stamina_expression@) + text_bytes(self.skillpoint_expression@) + (
        match self.proficiencies {
            Some(proficiencies) => texts_bytes(text_views(proficiencies@)),
            None => Seq::empty(),
        }) + (match self.features {
            Some(features) => features_bytes(features@),
            None => Seq::empty(),
        })
    }

    fn signature(&self) -> (signature: Vec<u8>) {
        let mut raw: Vec<u8> = Vec::new();
        match self.world_id {
            Some(world_id) => append_i64(&mut raw, world_id),
            None => append_i64(&mut raw, 0),
        }
        match &self.code {
            Some(code) => append_text(&mut raw, code.as_str()),
            None => {
                assert(text_bytes(Seq::empty()) =~= Seq::<u8>::empty());
            },
        }
        append_text(&mut raw, self.name.as_str());
        append_text(&mut raw, self.description.as_str());
        append_i64(&mut raw, self.hit_points);
        append_text(&mut raw, self.stamina_expression.as_str());
        append_text(&mut raw, self.skillpoint_expression.as_str());
        match &self.proficiencies {
            Some(proficiencies) => append_texts(&mut raw, proficiencies),
            None => {},
        }
        match &self.features {
            Some(features) => {
                let ghost before = raw@;
                let mut i: usize = 0;
                assert(features@.take(0) =~= Seq::<CharacterClassFeature>::empty());
                while i < features.len()
                    invariant
                        i <= features.len(),
                        raw@ == before + features_bytes(features@.take(i as int)),
                    decreases features.len() - i,
                {
                    let feature = &features[i];
                    append_i32(&mut raw, feature.level);
                    append_text(&mut raw, feature.name.as_str());
                    append_text(&mut raw, feature.description.as_str());
                    i += 1;
                    proof {
                        assert(features@.take(i as int).drop_last() == features@.take(i - 1));
                        assert(raw@ =~= before + features_bytes(features@.take(i as int)));
                    }
                }
                assert(features@.take(features.len() as int) == features@);
            },
            None => {},
        }
        assert(raw@ =~= self.raw_signature());
        hashed(&raw)
    }
}

/// The world of a list of objects: that of the last object that is a world.
pub open spec fn last_world(objects: Seq<GameObject>) -> Option<WorldSpec>
    decreases objects.len(),
{
    if objects.len() == 0 {
        None
    } else {
        match objects.last().spec {
            Spec::World(world) => Some(world),
            _ => last_world(objects.drop_last()),
        }
    }
}

/// The items of a list of objects, in order.
pub open spec fn items_of(objects: Seq<GameObject>) -> Seq<ItemSpec>
    decreases objects.len(),
{
    if objects.len() == 0 {
        Seq::empty()
    } else {
        match objects.last().spec {
            Spec::Item(item) => items_of(objects.drop_last()).push(item),
            _ => items_of(objects.drop_last()),
        }
    }
}

/// The objects of a list that are enemies, in order.
pub open spec fn enemies_of(objects: Seq<GameObject>) -> Seq<GameObject>
    decreases objects.len(),
{
    if objects.len() == 0 {
        Seq::empty()
    } else if objects.last().spec is Enemy {
        enemies_of(objects.drop_last()).push(objects.last())
    } else {
        enemies_of(objects.drop_last())
    }
}

/// The objects of a list that are character classes, in order.
pub open spec fn classes_of(objects: Seq<GameObject>) -> Seq<GameObject>
    decreases objects.len(),
{
    if objects.len() == 0 {
        Seq::empty()
    } else if objects.last().spec is CharacterClass {
        classes_of(objects.drop_last()).push(objects.last())
    } else {
        classes_of(objects.drop_last())
    }
}

impl GameAssets {
    /// Sorts the objects by kind: the world is that of the last world among
    /// them, and items, enemies and character classes keep their order.
    pub fn from_object_array(data: Vec<GameObject>) -> (assets: GameAssets)
        ensures
            assets.world == last_world(data@),
            assets.items@ == items_of(data@),
            assets.enemies@ == enemies_of(data@),
            assets.character_classes@ == classes_of(data@),
    {
        let mut data = data;
        let ghost all = data@;
        let mut reversed: Vec<GameObject> = Vec::new();
        while data.len() > 0
            invariant
                reversed@.len() + data@.len() == all.len(),
                forall|k: int| 0 <= k < data@.len() ==> data@[k] == all[k],
                forall|k: int|
                    0 <= k < reversed@.len() ==> reversed@[k] == all[all.len() - 1 - k],
            decreases data.len(),
        {
            match data.pop() {
                Some(object) => reversed.push(object),
                None => {},
            }
        }
        let mut world: Option<WorldSpec> = None;
        let mut items: Vec<ItemSpec> = Vec::new();
        let mut enemies: Vec<GameObject> = Vec::new();
        let mut character_classes: Vec<GameObject> = Vec::new();
        let ghost mut done: int = 0;
        assert(all.take(0) =~= Seq::<GameObject>::empty());
        while reversed.len() > 0
            invariant
                reversed@.len() + done == all.len(),
                0 <= done,
                forall|k: int|
                    0 <= k < reversed@.len() ==> reversed@[k] == all[all.len() - 1 - k],
                world == last_world(all.take(done)),
                items@ == items_of(all.take(done)),
                enemies@ == enemies_of(all.take(done)),
                character_classes@ == classes_of(all.take(done)),
            decreases reversed.len(),
        {
            proof {
                assert(all.take(done + 1).drop_last() == all.take(done));
                assert(all.take(done + 1).last() == all[done]);
            }
            match reversed.pop() {
                Some(object) => {
                    assert(object == all[done]);
                    match object.spec {
                        Spec::World(w) => {
                            world = Some(w);
                        },
                        Spec::Item(i) => {
                            items.push(i);
                        },
                        Spec::Enemy(e) => {
                            enemies.push(
                                GameObject {
                                    kind: object.kind,
                                    api_version: object.api_version,
                                    spec: Spec::Enemy(e),
                                },
                            );
                        },
                        Spec::CharacterClass(c) => {
                            character_classes.push(
                                GameObject {
                                    kind: object.kind,
                                    api_version: object.api_version,
                                    spec: Spec::CharacterClass(c),
                                },
                            );
                        },
                    }
                },
                None => {},
            }
            proof {
                done = done + 1;
            }
        }
        assert(all.take(all.len() as int) == all);
        GameAssets { world, items, enemies, character_classes }
    }
}

} // verus!
