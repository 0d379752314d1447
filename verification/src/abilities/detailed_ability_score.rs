//! An ability score together with the modifiers that went into it.

use crate::abilities::ability::Ability;
use vstd::prelude::*;

verus! {

/// An ability score and the modifiers that it includes, each under the name
/// of its source.
#[derive(Debug, Clone)]
pub struct DetailedAbilityScore {
    pub ability: Ability,
    pub score: i32,
    pub modifiers: Vec<(String, i32)>,
}

/// A detailed ability score as mathematical values.
pub struct DetailedAbilityScoreView {
    pub ability: Ability,
    pub score: int,
    pub modifiers: Seq<(Seq<char>, int)>,
}

impl View for DetailedAbilityScore {
    type V = DetailedAbilityScoreView;

    open spec fn view(&self) -> DetailedAbilityScoreView {
        DetailedAbilityScoreView {
            ability: self.ability,
            score: self.score as int,
            modifiers: Seq::new(
                self.modifiers@.len(),
                |i: int| (self.modifiers@[i].0@, self.modifiers@[i].1 as int),
            ),
        }
    }
}

} // verus!
