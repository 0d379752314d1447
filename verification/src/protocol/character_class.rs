//! A character class and its features as client and server exchange them,
//! with the rules that make one valid.

use crate::protocol::signature::{
    append_i32, append_i64, append_text, append_texts, be_bytes_i32, be_bytes_i64, hashed,
    text_bytes, texts_bytes, TypeSignature,
};
use crate::protocol::valid::{join, joined, note_if, problem_if, verdict, Valid};
use crate::utilities::text::text_views;
use vstd::prelude::*;

verus! {

#[derive(Debug, Clone)]
pub struct CharacterClass {
    pub id: Option<i64>,
    pub world_id: Option<i64>,
    pub code: Option<String>,
    pub name: String,
    pub description: String,
    pub hit_points: i32,
    pub stamina_expression: String,
    pub skillpoint_expression: String,
    pub proficiencies: Option<Vec<String>>,
    pub features: Option<Vec<CharacterClassFeature>>,
}

#[derive(Debug, Clone)]
pub struct CharacterClassFeature {
    pub level: i32,
    pub code: String,
    pub name: String,
    pub description: String,
}

/// What each feature of a list adds to the signature of its class: level,
/// name and description.
pub open spec fn features_bytes(features: Seq<CharacterClassFeature>) -> Seq<u8>
    decreases features.len(),
{
    if features.len() == 0 {
        Seq::empty()
    } else {
        features_bytes(features.drop_last()) + be_bytes_i32(features.last().level) + text_bytes(
            features.last().name@,
        ) + text_bytes(features.last().description@)
    }
}

/// One message for each empty proficiency.
pub open spec fn proficiency_problems(proficiencies: Seq<Seq<char>>) -> Seq<Seq<char>>
    decreases proficiencies.len(),
{
    if proficiencies.len() == 0 {
        Seq::empty()
    } else {
        proficiency_problems(proficiencies.drop_last()) + problem_if(
            proficiencies.last().len() == 0,
            "Proficiency cannot be empty"@,
        )
    }
}

/// The message for a feature with faults: its code, then its messages with
/// commas between them.
pub open spec fn feature_report(feature: CharacterClassFeature) -> Seq<char> {
    "Feature "@ + feature.code@ + ": "@ + joined(feature.problems(), ", "@)
}

/// One message for each feature that has faults.
pub open spec fn features_problems(features: Seq<CharacterClassFeature>) -> Seq<Seq<char>>
    decreases features.len(),
{
    if features.len() == 0 {
        Seq::empty()
    } else {
        features_problems(features.drop_last()) + problem_if(
            features.last().problems().len() > 0,
            feature_report(features.last()),
        )
    }
}

impl TypeSignature for CharacterClass {
    /// World, code, name, description, hit points, the two expressions, the
    /// proficiencies, and of each feature its level, name and description.
    /// A world or a code that is not set counts as 0 and as the empty text.
    open spec fn raw_signature(&self) -> Seq<u8> {
        be_bytes_i64(
            match self.world_id {
                Some(world_id) => world_id,
                None => 0,
            },
        ) + text_bytes(
            match self.code {
                Some(code) => code@,
                None => Seq::empty(),
            },
        ) + text_bytes(self.name@) + text_bytes(self.description@) + be_bytes_i32(self.hit_points)
            + text_bytes(self.stamina_expression@) + text_bytes(self.skillpoint_expression@) + (
        match self.proficiencies {
            Some(proficiencies) => texts_bytes(text_views(proficiencies@)),
            None => Seq::empty(),
        }) + (match self.features {
            Some(features) => features_bytes(features@),
            None => Seq::empty(),
        })
    }

    fn signature(&self) -> (signature: Vec<u8>) {
        let mut raw: Vec<u8> = Vec::new();
        match self.world_id {
            Some(world_id) => append_i64(&mut raw, world_id),
            None => append_i64(&mut raw, 0),
        }
        match &self.code {
            Some(code) => append_text(&mut raw, code.as_str()),
            None => {
                assert(text_bytes(Seq::empty()) =~= Seq::<u8>::empty());
            },
        }
        append_text(&mut raw, self.name.as_str());
        append_text(&mut raw, self.description.as_str());
        append_i32(&mut raw, self.hit_points);
        append_text(&mut raw, self.stamina_expression.as_str());
        append_text(&mut raw, self.skillpoint_expression.as_str());
        match &self.proficiencies {
            Some(proficiencies) => append_texts(&mut raw, proficiencies),
            None => {},
        }
        match &self.features {
            Some(features) => {
                let ghost before = raw@;
                let mut i: usize = 0;
                assert(features@.take(0) =~= Seq::<CharacterClassFeature>::empty());
                while i < features.len()
                    invariant
                        i <= features.len(),
                        raw@ == before + features_bytes(features@.take(i as int)),
                    decreases features.len() - i,
                {
                    let feature = &features[i];
                    append_i32(&mut raw, feature.level);
                    append_text(&mut raw, feature.name.as_str());
                    append_text(&mut raw, feature.description.as_str());
                    i += 1;
                    proof {
                        assert(features@.take(i as int).drop_last() == features@.take(i - 1));
                        assert(raw@ =~= before + features_bytes(features@.take(i as int)));
                    }
                }
                assert(features@.take(features.len() as int) == features@);
            },
            None => {},
        }
        assert(raw@ =~= self.raw_signature());
        hashed(&raw)
    }
}

impl Valid for CharacterClass {
    /// Hit points must be above 0 and both expressions must be there; no
    /// proficiency may be empty; there must be features, and no feature may
    /// have faults.
    open spec fn problems(&self) -> Seq<Seq<char>> {
        problem_if(self.hit_points <= 0, "Hit Points must be greater than 0"@) + problem_if(
            self.stamina_expression@.len() == 0,
            "Stamina Expression is required"@,
        ) + problem_if(
            self.skillpoint_expression@.len() == 0,
            "Skillpoint Expression is required"@,
        ) + (match self.proficiencies {
            Some(proficiencies) => proficiency_problems(text_views(proficiencies@)),
            None => Seq::empty(),
        }) + (match self.features {
            Some(features) => features_problems(features@),
            None => seq!["Features are required"@],
        })
    }

    fn validate(&self) -> (r: Result<(), Vec<String>>) {
        let mut errors: Vec<String> = Vec::new();
        assert(text_views(errors@) =~= Seq::<Seq<char>>::empty());
        note_if(&mut errors, self.hit_points <= 0, "Hit Points must be greater than 0");
        note_if(
            &mut errors,
            self.stamina_expression.as_str().is_empty(),
            "Stamina Expression is required",
        );
        note_if(
            &mut errors,
            self.skillpoint_expression.as_str().is_empty(),
            "Skillpoint Expression is required",
        );
        let ghost head = text_views(errors@);
        match &self.proficiencies {
            Some(proficiencies) => {
                let ghost all = text_views(proficiencies@);
                let mut i: usize = 0;
                assert(all.take(0) =~= Seq::<Seq<char>>::empty());
                while i < proficiencies.len()
                    invariant
                        i <= proficiencies.len(),
                        all == text_views(proficiencies@),
                        text_views(errors@) == head + proficiency_problems(all.take(i as int)),
                    decreases proficiencies.len() - i,
                {
                    note_if(
                        &mut errors,
                        proficiencies[i].as_str().is_empty(),
                        "Proficiency cannot be empty",
                    );
                    i += 1;
                    proof {
                        assert(all.take(i as int).drop_last() == all.take(i - 1));
                        assert(all.take(i as int).last() == proficiencies@[i - 1]@);
                    }
                }
                assert(all.take(proficiencies.len() as int) == all);
            },
            None => {},
        }
        let ghost middle = text_views(errors@);
        match &self.features {
            None => {
                note_if(&mut errors, true, "Features are required");
            },
            Some(features) => {
                let mut i: usize = 0;
                assert(features@.take(0) =~= Seq::<CharacterClassFeature>::empty());
                while i < features.len()
                    invariant
                        i <= features.len(),
                        text_views(errors@) == middle + features_problems(features@.take(i as int)),
                    decreases features.len() - i,
                {
                    let feature = &features[i];
                    let ghost found = text_views(errors@);
                    match feature.validate() {
                        Ok(_) => {},
                        Err(feature_errors) => {
                            let mut message: String = "Feature ".to_owned();
                            message.append(feature.code.as_str());
                            message.append(": ");
                            let list = join(&feature_errors, ", ");
                            message.append(list.as_str());
                            assert(message@ =~= feature_report(*feature));
                            errors.push(message);
                        },
                    }
                    i += 1;
                    proof {
                        assert(features@.take(i as int).drop_last() == features@.take(i - 1));
                        assert(features@.take(i as int).last() == *feature);
                        assert(text_views(errors@) =~= found + problem_if(
                            feature.problems().len() > 0,
                            feature_report(*feature),
                        ));
                    }
                }
                assert(features@.take(features.len() as int) == features@);
            },
        }
        assert(text_views(errors@) =~= self.problems());
        verdict(errors)
    }
}

impl Valid for CharacterClassFeature {
    /// The level must be above 0, and name and description must be there.
    open spec fn problems(&self) -> Seq<Seq<char>> {
        problem_if(self.level <= 0, "Level must be greater than 0"@) + problem_if(
            self.name@.len() == 0,
            "Name is required"@,
        ) + problem_if(self.description@.len() == 0, "Description is required"@)
    }

    fn validate(&self) -> (r: Result<(), Vec<String>>) {
        let mut errors: Vec<String> = Vec::new();
        assert(text_views(errors@) =~= Seq::<Seq<char>>::empty());
        note_if(&mut errors, self.level <= 0, "Level must be greater than 0");
        note_if(&mut errors, self.name.as_str().is_empty(), "Name is required");
        note_if(&mut errors, self.description.as_str().is_empty(), "Description is required");
        assert(text_views(errors@) =~= self.problems());
        verdict(errors)
    }
}

} // verus!
