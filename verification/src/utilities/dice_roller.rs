//! Dice notation: parsing an expression such as `2d6+5`, rolling it, and
//! judging the total against a difficulty check.
//!
//! After whitespace is removed an expression reads
//! `[count] 'd' die_size [operator value]`: `count` and `value` are runs of
//! decimal digits, `die_size` is a run of at least one digit, and the operator
//! is one of `+ - * /`. Nothing may follow.

use crate::utilities::text::{
    all_digits, digits_end, digits_to_number, digits_value, lemma_digits_end, scan_digits,
    string_of, strip_whitespace, without_whitespace,
};
use rand::Rng;
use vstd::prelude::*;

verus! {

/// The arithmetic that a modifier applies to the sum of the dice.
#[derive(Clone, Copy, Debug, PartialEq, Eq, Structural)]
pub enum ModifierOp {
    /// The expression has no modifier clause; the sum stays as it is.
    Absent,
    Add,
    Subtract,
    Multiply,
    Divide,
}

/// A dice expression after parsing.
#[derive(Clone, Debug)]
pub struct DiceExpression {
    /// How many dice are rolled.
    pub count: u32,
    /// How many faces each die has.
    pub die_size: u32,
    pub modifier_op: ModifierOp,
    pub modifier_value: u64,
    /// The modifier clause as it was written, or `+0` where there was none.
    pub modifier_text: String,
}

/// What a dice expression says, as mathematical values.
pub struct DiceTerms {
    pub count: nat,
    pub die_size: nat,
    pub modifier_op: ModifierOp,
    pub modifier_value: nat,
    pub modifier_text: Seq<char>,
}

impl View for DiceExpression {
    type V = DiceTerms;

    open spec fn view(&self) -> DiceTerms {
        DiceTerms {
            count: self.count as nat,
            die_size: self.die_size as nat,
            modifier_op: self.modifier_op,
            modifier_value: self.modifier_value as nat,
            modifier_text: self.modifier_text@,
        }
    }
}

/// The result of a roll judged against a difficulty check: the total, the
/// difficulty check and the modifier text, under `Success` when the total
/// reached the difficulty check and under `Failure` when it did not.
#[derive(Clone, Debug)]
pub enum DiceRoll {
    Success(i32, i32, String),
    Failure(i32, i32, String),
}

/// A judged roll as mathematical values.
pub struct RollView {
    pub success: bool,
    pub total: int,
    pub difficulty_check: int,
    pub modifier_text: Seq<char>,
}

impl View for DiceRoll {
    type V = RollView;

    open spec fn view(&self) -> RollView {
        match *self {
            DiceRoll::Success(total, difficulty_check, modifier) => RollView {
                success: true,
                total: total as int,
                difficulty_check: difficulty_check as int,
                modifier_text: modifier@,
            },
            DiceRoll::Failure(total, difficulty_check, modifier) => RollView {
                success: false,
                total: total as int,
                difficulty_check: difficulty_check as int,
                modifier_text: modifier@,
            },
        }
    }
}

/// Why a dice expression was turned down.
#[derive(Clone, Debug)]
pub struct DiceRollError {
    message: String,
}

impl View for DiceRollError {
    type V = Seq<char>;

    closed spec fn view(&self) -> Seq<char> {
        self.message@
    }
}

pub type DiceRollResult = Result<DiceRoll, DiceRollError>;

/// The modifier text of an expression without a modifier clause.
pub open spec fn no_modifier_text() -> Seq<char> {
    seq!['+', '0']
}

/// The message of the error for text that is no dice expression.
pub open spec fn grammar_message() -> Seq<char> {
    "invalid dice expression"@
}

/// The message of the error for a division by a modifier of zero.
pub open spec fn zero_divisor_message() -> Seq<char> {
    "division by zero"@
}

/// The prefix that `DiceRollError::describe` puts before the message.
pub open spec fn error_prefix() -> Seq<char> {
    "invalid dice expression: "@
}

pub open spec fn is_operator(c: char) -> bool {
    c == '+' || c == '-' || c == '*' || c == '/'
}

pub open spec fn operator_of(c: char) -> ModifierOp
    recommends
        is_operator(c),
{
    if c == '+' {
        ModifierOp::Add
    } else if c == '-' {
        ModifierOp::Subtract
    } else if c == '*' {
        ModifierOp::Multiply
    } else {
        ModifierOp::Divide
    }
}

/// Where the letter `d` must stand: just past the digits of the count.
pub open spec fn count_end(text: Seq<char>) -> int {
    digits_end(text, 0)
}

/// Where the die size ends: just past the digits that follow the `d`.
pub open spec fn size_end(text: Seq<char>) -> int {
    digits_end(text, count_end(text) + 1)
}

/// True when `text`, which holds no whitespace, is a dice expression from its
/// first character to its last.
pub open spec fn matches_grammar(text: Seq<char>) -> bool {
    let d = count_end(text);
    let s = size_end(text);
    &&& d < text.len()
    &&& text[d] == 'd'
    &&& s > d + 1
    &&& (s == text.len() || (is_operator(text[s]) && s + 1 < text.len() && digits_end(text, s + 1)
        == text.len()))
}

/// The number that `digits` denotes, or `bound` where the number lies beyond
/// it; `default` where there are no digits.
pub open spec fn number_or(digits: Seq<char>, default: nat, bound: nat) -> nat {
    if digits.len() == 0 {
        default
    } else if digits_value(digits) <= bound {
        digits_value(digits)
    } else {
        bound
    }
}

/// The largest count and the largest die size: what 31 bits hold. A larger
/// number in an expression counts as this one.
pub open spec fn dice_bound() -> nat {
    0x7fff_ffff
}

/// The largest modifier value: what 64 bits hold. A larger number in an
/// expression counts as this one, which changes no total.
pub open spec fn modifier_bound() -> nat {
    0xffff_ffff_ffff_ffff
}

/// What a text that matches the grammar says: an omitted count is 1, an
/// omitted modifier is `+0`, and the modifier text is the clause as written.
/// A count or a die size beyond 31 bits counts as the largest that 31 bits
/// hold, and a modifier value beyond 64 bits as the largest that 64 bits hold.
pub open spec fn terms_of(text: Seq<char>) -> DiceTerms
    recommends
        matches_grammar(text),
{
    let d = count_end(text);
    let s = size_end(text);
    let n = text.len() as int;
    DiceTerms {
        count: number_or(text.subrange(0, d), 1, dice_bound()),
        die_size: number_or(text.subrange(d + 1, s), 1, dice_bound()),
        modifier_op: if s == n {
            ModifierOp::Absent
        } else {
            operator_of(text[s])
        },
        modifier_value: if s == n {
            0
        } else {
            number_or(text.subrange(s + 1, n), 0, modifier_bound())
        },
        modifier_text: if s == n {
            no_modifier_text()
        } else {
            text.subrange(s, n)
        },
    }
}

/// What `expression` says once its whitespace is removed, or `None` where
/// what is left is no dice expression.
pub open spec fn parsed(expression: Seq<char>) -> Option<DiceTerms> {
    let text = without_whitespace(expression);
    if matches_grammar(text) {
        Some(terms_of(text))
    } else {
        None
    }
}

/// Zero dice, or dice with zero faces: nothing is rolled.
pub open spec fn has_no_dice(terms: DiceTerms) -> bool {
    terms.count == 0 || terms.die_size == 0
}

/// The sums that the dice of `terms` can show: each die shows at least 1 and
/// at most `die_size`. Where nothing is rolled the sum is 0.
pub open spec fn possible_sum(terms: DiceTerms, sum: int) -> bool {
    if has_no_dice(terms) {
        sum == 0
    } else {
        terms.count <= sum <= terms.count * terms.die_size
    }
}

/// The sum after the modifier, before any clamping. Division truncates.
pub open spec fn modified(sum: int, op: ModifierOp, value: int) -> int
    recommends
        sum >= 0,
        value >= 0,
        op == ModifierOp::Divide ==> value > 0,
{
    match op {
        ModifierOp::Absent => sum,
        ModifierOp::Add => sum + value,
        ModifierOp::Subtract => sum - value,
        ModifierOp::Multiply => sum * value,
        ModifierOp::Divide => sum / value,
    }
}

/// A total is never reported below 0, nor above what 31 bits hold.
pub open spec fn clamped(total: int) -> int {
    if total < 0 {
        0
    } else if total > i32::MAX {
        i32::MAX as int
    } else {
        total
    }
}

/// The result for dice that showed `sum`: a fixed failure where nothing is
/// rolled, `None` for a division by zero, and otherwise the clamped total
/// judged against the difficulty check.
pub open spec fn outcome(terms: DiceTerms, sum: int, difficulty_check: int) -> Option<RollView> {
    if has_no_dice(terms) {
        Some(
            RollView {
                success: false,
                total: 0,
                difficulty_check,
                modifier_text: no_modifier_text(),
            },
        )
    } else if terms.modifier_op == ModifierOp::Divide && terms.modifier_value == 0 {
        None
    } else {
        let total = clamped(modified(sum, terms.modifier_op, terms.modifier_value as int));
        Some(
            RollView {
                success: total >= difficulty_check,
                total,
                difficulty_check,
                modifier_text: terms.modifier_text,
            },
        )
    }
}

/// The message of the error that `outcome` stands for where it is `None`.
pub open spec fn rejection_message(expression: Seq<char>) -> Seq<char> {
    if parsed(expression) is None {
        grammar_message()
    } else {
        zero_divisor_message()
    }
}

/// True when `result` is something that rolling `expression` against
/// `difficulty_check` can give: `None` for text that is no dice expression,
/// otherwise the outcome for one of the sums that the dice can show.
pub open spec fn possible_result(
    expression: Seq<char>,
    difficulty_check: int,
    result: Option<RollView>,
) -> bool {
    match parsed(expression) {
        None => result is None,
        Some(terms) => exists|sum: int| #[trigger]
            possible_sum(terms, sum) && result == outcome(terms, sum, difficulty_check),
    }
}

/// The view of a result: the judged roll, or `None` for an error.
pub open spec fn result_view(result: DiceRollResult) -> Option<RollView> {
    match result {
        Ok(roll) => Some(roll@),
        Err(_) => None,
    }
}

impl DiceRollError {
    /// The message, without the prefix.
    pub fn message(&self) -> (m: &String)
        ensures
            m@ == self@,
    {
        &self.message
    }

    /// The text of the error: a fixed prefix, then the message.
    pub fn describe(&self) -> (text: String)
        ensures
            text@ == error_prefix() + self@,
    {
        let mut text: String = "invalid dice expression: ".to_owned();
        text.append(self.message.as_str());
        text
    }
}

impl DiceRoll {
    /// The total of the roll.
    pub fn total(&self) -> (t: i32)
        ensures
            t == self@.total,
    {
        match self {
            DiceRoll::Success(total, _, _) => *total,
            DiceRoll::Failure(total, _, _) => *total,
        }
    }
}

/// Draws one face of a die with `die_size` faces from the thread's random
/// generator: `rand::thread_rng()` and `Rng::gen_range` over `1..=die_size`.
/// The range holds at least the value 1, so `gen_range` does not panic, and
/// it returns a value of the range.
#[verifier::external_body]
fn roll_die(die_size: u32) -> (face: u32)
    requires
        die_size >= 1,
    ensures
        1 <= face <= die_size,
{
    rand::thread_rng().gen_range(1..=die_size)
}

/// Rolls `count` dice of `die_size` faces and adds them up.
fn roll_sum(count: u32, die_size: u32) -> (sum: u64)
    requires
        die_size >= 1,
    ensures
        count <= sum <= count * die_size,
{
    let mut sum: u64 = 0;
    let mut rolled: u32 = 0;
    while rolled < count
        invariant
            rolled <= count,
            die_size >= 1,
            rolled <= sum <= rolled * die_size,
        decreases count - rolled,
    {
        let face = roll_die(die_size);
        proof {
            assert((rolled + 1) * die_size == rolled * die_size + die_size) by (nonlinear_arith);
            assert((rolled + 1) * die_size <= count * die_size) by (nonlinear_arith)
                requires
                    rolled + 1 <= count,
                    die_size >= 0,
            ;
            assert(count * die_size <= 0xffff_ffff * 0xffff_ffff) by (nonlinear_arith)
                requires
                    0 <= count <= 0xffff_ffff,
                    0 <= die_size <= 0xffff_ffff,
            ;
        }
        sum = sum + face as u64;
        rolled = rolled + 1;
    }
    sum
}

/// The modifier text `+0`.
fn plus_zero() -> (text: String)
    ensures
        text@ == no_modifier_text(),
{
    let mut text = String::new();
    text.push('+');
    text.push('0');
    assert(text@ =~= no_modifier_text());
    text
}

/// The number written in `chars[from..to]`, or `bound` where the number lies
/// beyond it; `default` where there are no digits.
fn number_or_default(chars: &Vec<char>, from: usize, to: usize, default: u64, bound: u64) -> (n: u64)
    requires
        from <= to <= chars.len(),
        all_digits(chars@.subrange(from as int, to as int)),
    ensures
        n == number_or(chars@.subrange(from as int, to as int), default as nat, bound as nat),
{
    if from == to {
        default
    } else {
        match digits_to_number(chars, from, to, bound) {
            Some(n) => n,
            None => bound,
        }
    }
}

/// Reads a dice expression. Whitespace anywhere in it is ignored.
pub fn parse_dice_expression(expression: &str) -> (r: Option<DiceExpression>)
    ensures
        r is Some <==> parsed(expression@) is Some,
        r matches Some(e) ==> e@ == parsed(expression@)->0,
{
    let text = strip_whitespace(expression);
    let n = text.len();
    let d = scan_digits(&text, 0);
    if d >= n || text[d] != 'd' {
        return None;
    }
    let s = scan_digits(&text, d + 1);
    if s == d + 1 {
        return None;
    }
    proof {
        lemma_digits_end(text@, 0);
        lemma_digits_end(text@, d + 1);
    }
    let count = number_or_default(&text, 0, d, 1, 0x7fff_ffff) as u32;
    let die_size = number_or_default(&text, d + 1, s, 1, 0x7fff_ffff) as u32;
    if s == n {
        let modifier_text = plus_zero();
        return Some(
            DiceExpression {
                count,
                die_size,
                modifier_op: ModifierOp::Absent,
                modifier_value: 0,
                modifier_text,
            },
        );
    }
    let c = text[s];
    let modifier_op = if c == '+' {
        ModifierOp::Add
    } else if c == '-' {
        ModifierOp::Subtract
    } else if c == '*' {
        ModifierOp::Multiply
    } else if c == '/' {
        ModifierOp::Divide
    } else {
        return None;
    };
    if s + 1 >= n {
        return None;
    }
    let e = scan_digits(&text, s + 1);
    if e != n {
        return None;
    }
    proof {
        lemma_digits_end(text@, s + 1);
    }
    let modifier_value = number_or_default(&text, s + 1, n, 0, 0xffff_ffff_ffff_ffff);
    let modifier_text = string_of(&text, s, n);
    Some(DiceExpression { count, die_size, modifier_op, modifier_value, modifier_text })
}

/// Judges dice that showed `sum` against `difficulty_check`.
///
/// Zero dice or zero faces give `Failure(0, difficulty_check, "+0")` whatever
/// the sum and the modifier. A division by zero is an error. Otherwise the
/// modifier is applied to the sum and the total is clamped to `0..=i32::MAX`.
pub fn outcome_for_sum(expression: &DiceExpression, sum: u64, difficulty_check: i32) -> (r:
    DiceRollResult)
    ensures
        result_view(r) == outcome(expression@, sum as int, difficulty_check as int),
        r matches Err(e) ==> e@ == zero_divisor_message(),
{
    if expression.count == 0 || expression.die_size == 0 {
        let modifier_text = plus_zero();
        return Ok(DiceRoll::Failure(0, difficulty_check, modifier_text));
    }
    let value: u128 = expression.modifier_value as u128;
    let sum: u128 = sum as u128;
    let raw: u128 = match expression.modifier_op {
        ModifierOp::Absent => sum,
        ModifierOp::Add => sum + value,
        ModifierOp::Subtract => if sum >= value {
            sum - value
        } else {
            0
        },
        ModifierOp::Multiply => {
            proof {
                assert(sum * value <= 0xffff_ffff_ffff_ffff * 0xffff_ffff_ffff_ffff)
                    by (nonlinear_arith)
                    requires
                        0 <= sum <= 0xffff_ffff_ffff_ffff,
                        0 <= value <= 0xffff_ffff_ffff_ffff,
                ;
            }
            sum * value
        },
        ModifierOp::Divide => {
            if value == 0 {
                return Err(DiceRollError { message: "division by zero".to_owned() });
            }
            sum / value
        },
    };
    let total: i32 = if raw > 0x7fff_ffff {
        0x7fff_ffff
    } else {
        raw as i32
    };
    let modifier_text = expression.modifier_text.clone();
    if total >= difficulty_check {
        Ok(DiceRoll::Success(total, difficulty_check, modifier_text))
    } else {
        Ok(DiceRoll::Failure(total, difficulty_check, modifier_text))
    }
}

/// Rolls `dice_expression` and judges the total against `difficulty_check`.
///
/// Text that is no dice expression is an error, and so is a division by a
/// modifier of zero. Otherwise each die is drawn at random, so the contract
/// speaks of the sums that the dice can show.
pub fn roll_dice_check(dice_expression: String, difficulty_check: i32) -> (r: DiceRollResult)
    ensures
        possible_result(dice_expression@, difficulty_check as int, result_view(r)),
        r matches Err(e) ==> e@ == rejection_message(dice_expression@),
{
    let expression = match parse_dice_expression(dice_expression.as_str()) {
        Some(expression) => expression,
        None => {
            return Err(DiceRollError { message: "invalid dice expression".to_owned() });
        },
    };
    let sum: u64 = if expression.count == 0 || expression.die_size == 0 {
        0
    } else {
        roll_sum(expression.count, expression.die_size)
    };
    let r = outcome_for_sum(&expression, sum, difficulty_check);
    proof {
        assert(possible_sum(expression@, sum as int));
    }
    r
}

/// True when `total` is something that `roll_dice` can return for
/// `expression`: the total of a possible result against a difficulty check of
/// 0, or 0 where the expression is turned down.
pub open spec fn possible_total(expression: Seq<char>, total: int) -> bool {
    exists|result: Option<RollView>| #[trigger]
        possible_result(expression, 0, result) && total == (match result {
            Some(roll) => roll.total,
            None => 0,
        })
}

/// Rolls `dice_expression` and returns the total alone: that of
/// `roll_dice_check` against a difficulty check of 0, and 0 where that fails.
/// A caller cannot tell a total of 0 from an expression that was turned down.
pub fn roll_dice(dice_expression: String) -> (total: i32)
    ensures
        possible_total(dice_expression@, total as int),
        total >= 0,
{
    let r = roll_dice_check(dice_expression, 0);
    proof {
        assert(possible_result(dice_expression@, 0, result_view(r)));
    }
    match r {
        Ok(roll) => roll.total(),
        Err(_) => 0,
    }
}

} // verus!
