//! Expressions over named variables: a context binds names to text, a
//! template has its `$name` and `${name}` references replaced by that text,
//! and a calculation also rolls one embedded `roll(...)` and evaluates the
//! arithmetic that is left.

use crate::utilities::dice_roller::{is_operator, possible_total, roll_dice};
use crate::utilities::rounding::{nearest_integer, round_half_away};
use crate::utilities::text::{
    chars_of, is_digit, push_signed_decimal, signed_decimal, string_of,
};
use std::collections::HashMap;
use vstd::prelude::*;

verus! {

/// The error type of `subst`. Nothing is known of what it holds; it is
/// carried from the substitution to the caller as it is.
#[verifier::external_type_specification]
#[verifier::external_body]
pub struct ExSubstError(subst::Error);

/// The error type of `evalexpr`. Nothing is known of what it holds; it is
/// carried from the evaluation to the caller as it is.
#[verifier::external_type_specification]
#[verifier::external_body]
pub struct ExEvalexprError(evalexpr::EvalexprError);

/// What `subst::substitute` makes of a template and a map of variables: the
/// text with every reference replaced, or `None` where it reports an error.
pub uninterp spec fn substitution(template: Seq<char>, variables: Map<Seq<char>, Seq<char>>) -> Option<Seq<char>>;

/// The number that `evalexpr::eval` finds for an arithmetic text, rounded to
/// the nearest integer, or `None` where it reports an error or finds no
/// number.
pub uninterp spec fn arithmetic_value(text: Seq<char>) -> Option<int>;

/// Why an arithmetic text could not be evaluated.
#[derive(Debug)]
pub enum EvaluationError {
    /// The text holds a character that no arithmetic text holds; this is
    /// the first such character. Nothing was evaluated.
    Unsupported(char),
    /// The evaluation failed, or its value is no number.
    Failed(evalexpr::EvalexprError),
}

/// Why an expression could not be resolved.
#[derive(Debug)]
pub enum ExpressionError {
    /// The template could not be substituted: a variable without a binding,
    /// or a malformed reference.
    Substitution(subst::Error),
    /// The arithmetic could not be evaluated.
    Evaluation(EvaluationError),
}

/// Named variables and the text bound to each. No name occurs twice.
#[derive(Debug)]
pub struct ExpressionContext {
    /// The bindings in the order in which their names were first set.
    entries: Vec<(String, String)>,
}

/// True when no two entries carry the same name.
pub open spec fn distinct_names(entries: Seq<(String, String)>) -> bool {
    forall|i: int, j: int|
        0 <= i < j < entries.len() ==> (#[trigger] entries[i]).0@ != (#[trigger] entries[j]).0@
}

/// The map that a list of bindings stands for: each entry binds its name to
/// its text, a later entry replacing an earlier one of the same name.
pub open spec fn bindings(entries: Seq<(String, String)>) -> Map<Seq<char>, Seq<char>>
    decreases entries.len(),
{
    if entries.len() == 0 {
        Map::empty()
    } else {
        bindings(entries.drop_last()).insert(entries.last().0@, entries.last().1@)
    }
}

/// True when `template` holds no dollar sign and no backslash: nothing in it
/// refers to a variable and nothing is escaped.
pub open spec fn is_literal(template: Seq<char>) -> bool {
    forall|i: int| 0 <= i < template.len() ==> #[trigger] template[i] != '$' && template[i] != '\\'
}

/// The characters of an arithmetic text whose value does not depend on the
/// machine: digits, the decimal point, the four operators, round brackets and
/// the space.
pub open spec fn is_arithmetic_char(c: char) -> bool {
    is_digit(c) || c == '.' || is_operator(c) || c == '(' || c == ')' || c == ' '
}

/// True when `text` holds arithmetic characters only.
pub open spec fn plain_arithmetic(text: Seq<char>) -> bool {
    forall|i: int| 0 <= i < text.len() ==> is_arithmetic_char(#[trigger] text[i])
}

/// The first character at or after `from` that is no arithmetic character,
/// if there is one.
pub open spec fn first_unsupported(text: Seq<char>, from: int) -> Option<char>
    decreases text.len() - from,
{
    if from < 0 || from >= text.len() {
        None
    } else if !is_arithmetic_char(text[from]) {
        Some(text[from])
    } else {
        first_unsupported(text, from + 1)
    }
}

/// What a calculation comes to, as mathematical values.
pub enum CalculationView {
    /// The template could not be substituted.
    Unresolved,
    /// The arithmetic text holds this character, which is no arithmetic
    /// character, before any other such character.
    Unsupported(char),
    /// The evaluation failed, or its value is no number.
    Failed,
    /// The value, rounded to the nearest integer.
    Value(int),
}

/// What evaluating `text` comes to: a text that is not plain arithmetic is
/// turned down with its first unsupported character, and a plain arithmetic
/// text has the value that the evaluation gives it, or fails.
pub open spec fn evaluation_of(text: Seq<char>) -> CalculationView {
    match first_unsupported(text, 0) {
        Some(c) => CalculationView::Unsupported(c),
        None => match arithmetic_value(text) {
            Some(value) => CalculationView::Value(value),
            None => CalculationView::Failed,
        },
    }
}

/// A text is plain arithmetic exactly when it has no first unsupported
/// character.
pub proof fn lemma_first_unsupported(text: Seq<char>, from: int)
    requires
        0 <= from <= text.len(),
    ensures
        first_unsupported(text, from) is None <==> forall|i: int|
            from <= i < text.len() ==> is_arithmetic_char(#[trigger] text[i]),
        first_unsupported(text, from) matches Some(c) ==> !is_arithmetic_char(c),
    decreases text.len() - from,
{
    if from < text.len() {
        lemma_first_unsupported(text, from + 1);
        if is_arithmetic_char(text[from]) {
            if first_unsupported(text, from) is None {
                assert forall|i: int| from <= i < text.len() implies is_arithmetic_char(
                    #[trigger] text[i],
                ) by {
                    if i > from {
                    }
                }
            }
        }
    }
}

/// True when the five characters `roll(` stand at index `i` of `text`.
pub open spec fn opens_roll_at(text: Seq<char>, i: int) -> bool {
    &&& 0 <= i
    &&& i + 5 <= text.len()
    &&& text[i] == 'r'
    &&& text[i + 1] == 'o'
    &&& text[i + 2] == 'l'
    &&& text[i + 3] == 'l'
    &&& text[i + 4] == '('
}

/// True when the embedded roll of `text` starts at `start` and closes at
/// `close`: `start` is the first place where `roll(` stands, and `close` is
/// the first `)` after it.
pub open spec fn is_embedded_roll(text: Seq<char>, start: int, close: int) -> bool {
    &&& opens_roll_at(text, start)
    &&& forall|i: int| 0 <= i < start ==> !opens_roll_at(text, i)
    &&& start + 5 <= close < text.len()
    &&& text[close] == ')'
    &&& forall|j: int| start + 5 <= j < close ==> text[j] != ')'
}

/// True when `text` holds an embedded roll.
pub open spec fn has_embedded_roll(text: Seq<char>) -> bool {
    exists|start: int, close: int| is_embedded_roll(text, start, close)
}

/// Where the embedded roll of `text` starts and where it closes.
pub open spec fn embedded_roll(text: Seq<char>) -> (int, int)
    recommends
        has_embedded_roll(text),
{
    choose|span: (int, int)| is_embedded_roll(text, span.0, span.1)
}

/// The dice notation inside the embedded roll: what stands between `roll(`
/// and the closing bracket.
pub open spec fn roll_notation(text: Seq<char>) -> Seq<char>
    recommends
        has_embedded_roll(text),
{
    text.subrange(embedded_roll(text).0 + 5, embedded_roll(text).1)
}

/// `text` with its embedded roll, from `roll(` to the closing bracket,
/// replaced by the numeral of `total`; `text` itself where it holds none.
pub open spec fn with_roll_total(text: Seq<char>, total: int) -> Seq<char> {
    if has_embedded_roll(text) {
        let (start, close) = embedded_roll(text);
        text.subrange(0, start) + signed_decimal(total) + text.subrange(
            close + 1,
            text.len() as int,
        )
    } else {
        text
    }
}

/// The totals that the embedded roll of `text` can come to; every total is
/// admitted where there is no roll, since none is used.
pub open spec fn possible_roll_total(text: Seq<char>, total: int) -> bool {
    has_embedded_roll(text) ==> possible_total(roll_notation(text), total)
}

/// True when `result` is something that calculating the resolved `text` can
/// come to: for one of the totals that its embedded roll can come to, what
/// evaluating the text with that total in the place of the roll comes to.
pub open spec fn possible_calculation(text: Seq<char>, result: CalculationView) -> bool {
    exists|total: int| #[trigger]
        possible_roll_total(text, total) && result == evaluation_of(with_roll_total(text, total))
}

/// The view of the result of a calculation.
pub open spec fn calculation_view(result: Result<i64, ExpressionError>) -> CalculationView {
    match result {
        Ok(value) => CalculationView::Value(value as int),
        Err(ExpressionError::Substitution(_)) => CalculationView::Unresolved,
        Err(ExpressionError::Evaluation(EvaluationError::Unsupported(c))) => {
            CalculationView::Unsupported(c)
        },
        Err(ExpressionError::Evaluation(EvaluationError::Failed(_))) => CalculationView::Failed,
    }
}

/// A text has at most one embedded roll.
pub proof fn lemma_embedded_roll_is_unique(
    text: Seq<char>,
    start: int,
    close: int,
    other_start: int,
    other_close: int,
)
    requires
        is_embedded_roll(text, start, close),
        is_embedded_roll(text, other_start, other_close),
    ensures
        start == other_start,
        close == other_close,
{
}

/// The embedded roll of a text is the one found in it.
pub proof fn lemma_embedded_roll_found(text: Seq<char>, start: int, close: int)
    requires
        is_embedded_roll(text, start, close),
    ensures
        has_embedded_roll(text),
        embedded_roll(text) == (start, close),
{
    let span = embedded_roll(text);
    assert(is_embedded_roll(text, (start, close).0, (start, close).1));
    lemma_embedded_roll_is_unique(text, start, close, span.0, span.1);
}

/// A name that the last entry does not carry is bound as in the entries
/// before it.
proof fn lemma_bindings_found(entries: Seq<(String, String)>, key: Seq<char>, i: int)
    requires
        0 <= i < entries.len(),
        entries[i].0@ == key,
        forall|j: int| i < j < entries.len() ==> entries[j].0@ != key,
    ensures
        bindings(entries).contains_key(key),
        bindings(entries)[key] == entries[i].1@,
    decreases entries.len(),
{
    if i < entries.len() - 1 {
        lemma_bindings_found(entries.drop_last(), key, i);
    }
}

/// A name that no entry carries is not bound.
proof fn lemma_bindings_missing(entries: Seq<(String, String)>, key: Seq<char>)
    requires
        forall|j: int| 0 <= j < entries.len() ==> entries[j].0@ != key,
    ensures
        !bindings(entries).contains_key(key),
    decreases entries.len(),
{
    if entries.len() > 0 {
        lemma_bindings_missing(entries.drop_last(), key);
    }
}

/// Replacing the last entry of a name rebinds that name and nothing else.
proof fn lemma_bindings_update(entries: Seq<(String, String)>, i: int, entry: (String, String))
    requires
        0 <= i < entries.len(),
        entries[i].0@ == entry.0@,
        forall|j: int| i < j < entries.len() ==> entries[j].0@ != entry.0@,
    ensures
        bindings(entries.update(i, entry)) == bindings(entries).insert(entry.0@, entry.1@),
    decreases entries.len(),
{
    let updated = entries.update(i, entry);
    if i == entries.len() - 1 {
        assert(updated.drop_last() == entries.drop_last());
        assert(bindings(updated) =~= bindings(entries).insert(entry.0@, entry.1@));
    } else {
        lemma_bindings_update(entries.drop_last(), i, entry);
        assert(updated.drop_last() == entries.drop_last().update(i, entry));
        assert(bindings(updated) =~= bindings(entries).insert(entry.0@, entry.1@));
    }
}

/// Substitutes the variables of `template` with `subst::substitute`, which
/// is handed the entries as a map from name to text. No name occurs twice, so
/// the map holds each entry as it is. The contract names the outcome: the
/// text on success, and `None` for every error. It adds what the parser of
/// `subst` shows of a template without a dollar sign and without a
/// backslash: it is one literal and comes back as it is.
#[verifier::external_body]
fn substitute_entries(template: &str, entries: &Vec<(String, String)>) -> (r: Result<
    String,
    subst::Error,
>)
    requires
        distinct_names(entries@),
    ensures
        match r {
            Ok(text) => substitution(template@, bindings(entries@)) == Some(text@),
            Err(_) => substitution(template@, bindings(entries@)) is None,
        },
        is_literal(template@) ==> r is Ok && r->Ok_0@ == template@,
{
    let variables: HashMap<&str, &str> = entries.iter().map(
        |entry| (entry.0.as_str(), entry.1.as_str()),
    ).collect();
    subst::substitute(template, &variables)
}

/// Evaluates `text` with `evalexpr::eval` and takes the result as a number
/// with `Value::as_number`; the number is returned as the 64 bits of its
/// binary floating-point form. An error of either call is returned as it is.
/// Only plain arithmetic is admitted: there the evaluation uses nothing but
/// numbers, brackets and the four basic operations, none of which panics,
/// and the contract names the rounded value.
#[verifier::external_body]
fn evaluate_to_bits(text: &str) -> (r: Result<u64, evalexpr::EvalexprError>)
    requires
        plain_arithmetic(text@),
    ensures
        match r {
            Ok(bits) => arithmetic_value(text@) == Some(nearest_integer(bits)),
            Err(_) => arithmetic_value(text@) is None,
        },
{
    let value = evalexpr::eval(text)?;
    Ok(value.as_number()?.to_bits())
}

/// Tells whether `c` is an arithmetic character.
pub fn char_is_arithmetic(c: char) -> (r: bool)
    ensures
        r == is_arithmetic_char(c),
{
    ('0' <= c && c <= '9') || c == '.' || c == '+' || c == '-' || c == '*' || c == '/' || c == '('
        || c == ')' || c == ' '
}

/// The first character of `text` that is no arithmetic character, if there
/// is one; `None` exactly for a plain arithmetic text.
pub fn unsupported_character(text: &str) -> (r: Option<char>)
    ensures
        r == first_unsupported(text@, 0),
        r is None <==> plain_arithmetic(text@),
{
    let chars = chars_of(text);
    let mut i: usize = 0;
    while i < chars.len()
        invariant
            i <= chars.len(),
            chars@ == text@,
            first_unsupported(chars@, 0) == first_unsupported(chars@, i as int),
        decreases chars.len() - i,
    {
        if !char_is_arithmetic(chars[i]) {
            proof {
                lemma_first_unsupported(text@, 0);
            }
            return Some(chars[i]);
        }
        i += 1;
    }
    proof {
        lemma_first_unsupported(text@, 0);
    }
    None
}

/// Tells whether `roll(` stands at index `i`.
fn opens_roll(chars: &Vec<char>, i: usize) -> (r: bool)
    requires
        i + 5 <= chars.len(),
    ensures
        r == opens_roll_at(chars@, i as int),
{
    chars[i] == 'r' && chars[i + 1] == 'o' && chars[i + 2] == 'l' && chars[i + 3] == 'l' && chars[i
        + 4] == '('
}

/// Finds the embedded roll: the index where the first `roll(` starts and the
/// index of the first closing bracket after it.
pub fn find_embedded_roll(chars: &Vec<char>) -> (r: Option<(usize, usize)>)
    ensures
        r is Some <==> has_embedded_roll(chars@),
        r matches Some(span) ==> embedded_roll(chars@) == (span.0 as int, span.1 as int)
            && is_embedded_roll(chars@, span.0 as int, span.1 as int),
{
    let n = chars.len();
    if n < 5 {
        return None;
    }
    let mut start: usize = 0;
    while start <= n - 5 && !opens_roll(chars, start)
        invariant
            n == chars.len(),
            n >= 5,
            start <= n - 4,
            forall|i: int| 0 <= i < start ==> !opens_roll_at(chars@, i),
        decreases n - start,
    {
        start += 1;
    }
    if start > n - 5 {
        return None;
    }
    let mut close: usize = start + 5;
    while close < n && chars[close] != ')'
        invariant
            n == chars.len(),
            start + 5 <= close <= n,
            forall|j: int| start + 5 <= j < close ==> chars@[j] != ')',
        decreases n - close,
    {
        close += 1;
    }
    if close >= n {
        return None;
    }
    proof {
        lemma_embedded_roll_found(chars@, start as int, close as int);
    }
    Some((start, close))
}

/// Appends `chars[from..to]` to `out`.
fn push_chars(out: &mut String, chars: &Vec<char>, from: usize, to: usize)
    requires
        from <= to <= chars.len(),
    ensures
        final(out)@ == old(out)@ + chars@.subrange(from as int, to as int),
{
    let mut i: usize = from;
    while i < to
        invariant
            from <= i <= to <= chars.len(),
            out@ == old(out)@ + chars@.subrange(from as int, i as int),
        decreases to - i,
    {
        out.push(chars[i]);
        i += 1;
        assert(out@ =~= old(out)@ + chars@.subrange(from as int, i as int));
    }
}

/// Puts `total` in the place of the embedded roll of `text`. A text without
/// an embedded roll comes back as it is.
pub fn replace_roll(text: &str, total: i32) -> (out: String)
    ensures
        out@ == with_roll_total(text@, total as int),
{
    let chars = chars_of(text);
    match find_embedded_roll(&chars) {
        None => string_of(&chars, 0, chars.len()),
        Some((start, close)) => {
            let mut out = String::new();
            push_chars(&mut out, &chars, 0, start);
            push_signed_decimal(&mut out, total as i64);
            push_chars(&mut out, &chars, close + 1, chars.len());
            out
        },
    }
}

/// The dice notation of the embedded roll of `text`, if it holds one.
pub fn embedded_notation(text: &str) -> (r: Option<String>)
    ensures
        r is Some <==> has_embedded_roll(text@),
        r matches Some(notation) ==> notation@ == roll_notation(text@),
{
    let chars = chars_of(text);
    match find_embedded_roll(&chars) {
        None => None,
        Some((start, close)) => Some(string_of(&chars, start + 5, close)),
    }
}

/// Turns what the evaluation gave into the result of a calculation: the
/// number rounded to the nearest integer, halves away from zero, or the
/// evaluation error.
pub fn rounded_result(evaluated: Result<u64, evalexpr::EvalexprError>) -> (r: Result<
    i64,
    ExpressionError,
>)
    ensures
        match evaluated {
            Ok(bits) => r == Ok::<i64, ExpressionError>(nearest_integer(bits) as i64),
            Err(error) => r == Err::<i64, ExpressionError>(
                ExpressionError::Evaluation(EvaluationError::Failed(error)),
            ),
        },
{
    match evaluated {
        Ok(bits) => Ok(round_half_away(bits)),
        Err(error) => Err(ExpressionError::Evaluation(EvaluationError::Failed(error))),
    }
}

/// Evaluates a text as arithmetic over numbers, round brackets and the
/// operators `+ - * /`, and rounds the value to the nearest integer, halves
/// away from zero. A text that holds any other character than these, the
/// decimal point and the space is turned down without being evaluated.
pub fn evaluate(text: &str) -> (r: Result<i64, ExpressionError>)
    ensures
        calculation_view(r) == evaluation_of(text@),
{
    match unsupported_character(text) {
        Some(c) => Err(ExpressionError::Evaluation(EvaluationError::Unsupported(c))),
        None => rounded_result(evaluate_to_bits(text)),
    }
}

/// Evaluates `text` after `total` has taken the place of its embedded roll.
pub fn evaluate_with_roll(text: &str, total: i32) -> (r: Result<i64, ExpressionError>)
    ensures
        calculation_view(r) == evaluation_of(with_roll_total(text@, total as int)),
{
    let arithmetic = replace_roll(text, total);
    evaluate(arithmetic.as_str())
}

impl View for ExpressionContext {
    type V = Map<Seq<char>, Seq<char>>;

    closed spec fn view(&self) -> Map<Seq<char>, Seq<char>> {
        bindings(self.entries@)
    }
}

impl ExpressionContext {
    #[verifier::type_invariant]
    spec fn names_are_distinct(self) -> bool {
        distinct_names(self.entries@)
    }

    /// A context without bindings.
    pub fn new() -> (context: Self)
        ensures
            context@ == Map::<Seq<char>, Seq<char>>::empty(),
    {
        Self { entries: Vec::new() }
    }

    /// The index of the last entry that carries `key`.
    fn position(&self, key: &String) -> (r: Option<usize>)
        ensures
            match r {
                Some(i) => i < self.entries.len() && self.entries[i as int].0@ == key@ && forall|
                    j: int,
                | i < j < self.entries.len() ==> self.entries[j].0@ != key@,
                None => forall|j: int| 0 <= j < self.entries.len() ==> self.entries[j].0@ != key@,
            },
    {
        let mut i: usize = self.entries.len();
        while i > 0
            invariant
                i <= self.entries.len(),
                forall|j: int| i <= j < self.entries.len() ==> self.entries[j].0@ != key@,
            decreases i,
        {
            i -= 1;
            if self.entries[i].0 == *key {
                return Some(i);
            }
        }
        None
    }

    /// Binds `key` to `value`, in place of what `key` was bound to before.
    pub fn set(&mut self, key: &str, value: &str)
        ensures
            final(self)@ == old(self)@.insert(key@, value@),
    {
        let name: String = key.to_owned();
        let text: String = value.to_owned();
        proof {
            use_type_invariant(&*self);
        }
        let found = self.position(&name);
        // The list is taken out, changed, and put back.
        let mut entries: Vec<(String, String)> = Vec::new();
        std::mem::swap(&mut self.entries, &mut entries);
        match found {
            Some(i) => {
                proof {
                    lemma_bindings_update(entries@, i as int, (name, text));
                }
                entries.set(i, (name, text));
            },
            None => {
                entries.push((name, text));
                assert(entries@.drop_last() == old(self).entries@);
            },
        }
        self.entries = entries;
    }

    /// What `key` is bound to, if it is bound.
    pub fn get(&self, key: &str) -> (r: Option<&String>)
        ensures
            match r {
                Some(value) => self@.contains_key(key@) && self@[key@] == value@,
                None => !self@.contains_key(key@),
            },
    {
        let name: String = key.to_owned();
        match self.position(&name) {
            Some(i) => {
                proof {
                    lemma_bindings_found(self.entries@, key@, i as int);
                }
                Some(&self.entries[i].1)
            },
            None => {
                proof {
                    lemma_bindings_missing(self.entries@, key@);
                }
                None
            },
        }
    }

    /// Replaces the references of `expression` by the text that their names
    /// are bound to. The text is put in as it is: references inside it stay.
    pub fn resolve(&self, expression: &str) -> (r: Result<String, ExpressionError>)
        ensures
            match r {
                Ok(text) => substitution(expression@, self@) == Some(text@),
                Err(error) => error is Substitution && substitution(expression@, self@) is None,
            },
            is_literal(expression@) ==> r is Ok && r->Ok_0@ == expression@,
    {
        proof {
            use_type_invariant(self);
        }
        match substitute_entries(expression, &self.entries) {
            Ok(text) => Ok(text),
            Err(error) => Err(ExpressionError::Substitution(error)),
        }
    }

    /// Resolves `expression`, rolls the dice of its embedded roll, if it
    /// holds one, puts the total in the place of the roll, and evaluates the
    /// arithmetic that is left, rounding halves away from zero.
    ///
    /// A roll whose notation is no dice expression counts as 0. Arithmetic
    /// that holds anything but numbers, round brackets, spaces and the
    /// operators `+ - * /` is an evaluation error.
    pub fn resolve_calculate(&self, expression: &str) -> (r: Result<i64, ExpressionError>)
        ensures
            match substitution(expression@, self@) {
                None => calculation_view(r) == CalculationView::Unresolved,
                Some(text) => possible_calculation(text, calculation_view(r)),
            },
            is_literal(expression@) ==> substitution(expression@, self@) == Some(expression@),
    {
        let text = match self.resolve(expression) {
            Ok(text) => text,
            Err(error) => {
                return Err(error);
            },
        };
        let total: i32 = match embedded_notation(text.as_str()) {
            Some(notation) => roll_dice(notation),
            None => 0,
        };
        let r = evaluate_with_roll(text.as_str(), total);
        proof {
            let rolled = total as int;
            assert(possible_roll_total(text@, rolled) && calculation_view(r) == evaluation_of(
                with_roll_total(text@, rolled),
            ));
        }
        r
    }
}

impl Default for ExpressionContext {
    fn default() -> (context: Self)
        ensures
            context@ == Map::<Seq<char>, Seq<char>>::empty(),
    {
        ExpressionContext::new()
    }
}

} // verus!
