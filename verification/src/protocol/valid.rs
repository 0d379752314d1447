//! Validation: a value lists what is wrong with it.

use crate::utilities::text::text_views;
use vstd::prelude::*;

verus! {

pub trait Valid {
    /// What is wrong with the value, one message for each fault, in the order
    /// in which the faults are looked for.
    spec fn problems(&self) -> Seq<Seq<char>>;

    /// `Ok` for a value without faults, and otherwise the messages.
    fn validate(&self) -> (r: Result<(), Vec<String>>)
        ensures
            match r {
                Ok(_) => self.problems().len() == 0,
                Err(errors) => errors@.len() > 0 && text_views(errors@) == self.problems(),
            },
    ;

    /// True for a value without faults.
    fn is_valid(&self) -> (valid: bool)
        ensures
            valid <==> self.problems().len() == 0,
    {
        self.validate().is_ok()
    }
}

/// The message for a fault that is there, and nothing for one that is not.
pub open spec fn problem_if(fault: bool, message: Seq<char>) -> Seq<Seq<char>> {
    if fault {
        seq![message]
    } else {
        Seq::empty()
    }
}

/// The parts with the separator between each two of them.
pub open spec fn joined(parts: Seq<Seq<char>>, separator: Seq<char>) -> Seq<char>
    decreases parts.len(),
{
    if parts.len() == 0 {
        Seq::empty()
    } else if parts.len() == 1 {
        parts[0]
    } else {
        joined(parts.drop_last(), separator) + separator + parts.last()
    }
}

/// Adds `message` to `errors` where `fault` holds.
pub fn note_if(errors: &mut Vec<String>, fault: bool, message: &str)
    ensures
        text_views(final(errors)@) == text_views(old(errors)@) + problem_if(fault, message@),
{
    if fault {
        errors.push(message.to_owned());
    }
    assert(text_views(errors@) =~= text_views(old(errors)@) + problem_if(fault, message@));
}

/// The parts with the separator between each two of them.
pub fn join(parts: &Vec<String>, separator: &str) -> (out: String)
    ensures
        out@ == joined(text_views(parts@), separator@),
{
    let mut out = String::new();
    let ghost all = text_views(parts@);
    let mut i: usize = 0;
    assert(all.take(0) =~= Seq::<Seq<char>>::empty());
    while i < parts.len()
        invariant
            i <= parts.len(),
            all == text_views(parts@),
            out@ == joined(all.take(i as int), separator@),
        decreases parts.len() - i,
    {
        if i > 0 {
            out.append(separator);
        }
        out.append(parts[i].as_str());
        i += 1;
        proof {
            assert(all.take(i as int).drop_last() == all.take(i - 1));
            assert(all.take(i as int).last() == parts@[i - 1]@);
            if i == 1 {
                assert(out@ =~= parts@[0]@);
            }
        }
    }
    assert(all.take(parts.len() as int) == all);
    out
}

/// The result of a validation that found `errors`.
pub fn verdict(errors: Vec<String>) -> (r: Result<(), Vec<String>>)
    ensures
        match r {
            Ok(_) => errors@.len() == 0,
            Err(found) => found@.len() > 0 && found == errors,
        },
{
    if errors.len() == 0 {
        Ok(())
    } else {
        Err(errors)
    }
}

} // verus!
