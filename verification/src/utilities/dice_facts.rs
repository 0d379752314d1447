//! What holds of every dice expression and of every roll: the grammar is
//! exactly the texts put together from well-formed parts, and the total of a
//! roll stays within the bounds that count, die size and modifier set.

use crate::utilities::dice_roller::{
    clamped, count_end, has_no_dice, is_operator, matches_grammar, modified, no_modifier_text,
    dice_bound, modifier_bound, number_or, operator_of, outcome, parsed, possible_result, possible_sum, size_end, terms_of,
    DiceTerms, ModifierOp, RollView,
};
use crate::utilities::text::{
    all_digits, digits_value, is_digit, lemma_digits_end, lemma_digits_end_of_run,
    without_whitespace,
};
use vstd::prelude::*;

verus! {

/// A modifier clause: an operator, then at least one digit.
pub open spec fn is_modifier_clause(clause: Seq<char>) -> bool {
    clause.len() >= 2 && is_operator(clause[0]) && all_digits(clause.skip(1))
}

/// The parts of a dice expression: the digits of the count, which may be
/// none, the digits of the die size, and a modifier clause or nothing.
pub open spec fn well_formed_parts(count: Seq<char>, size: Seq<char>, modifier: Seq<char>) -> bool {
    &&& all_digits(count)
    &&& all_digits(size)
    &&& size.len() >= 1
    &&& (modifier.len() == 0 || is_modifier_clause(modifier))
}

/// The parts written out one after the other, with the letter `d` between
/// count and die size.
pub open spec fn dice_text(count: Seq<char>, size: Seq<char>, modifier: Seq<char>) -> Seq<char> {
    count + seq!['d'] + size + modifier
}

/// Every text put together from well-formed parts matches the grammar, and
/// its terms are those of the parts.
pub proof fn lemma_grammar_accepts(count: Seq<char>, size: Seq<char>, modifier: Seq<char>)
    requires
        well_formed_parts(count, size, modifier),
    ensures
        matches_grammar(dice_text(count, size, modifier)),
        terms_of(dice_text(count, size, modifier)) == (DiceTerms {
            count: number_or(count, 1, dice_bound()),
            die_size: number_or(size, 1, dice_bound()),
            modifier_op: if modifier.len() == 0 {
                ModifierOp::Absent
            } else {
                operator_of(modifier[0])
            },
            modifier_value: if modifier.len() == 0 {
                0
            } else {
                number_or(modifier.skip(1), 0, modifier_bound())
            },
            modifier_text: if modifier.len() == 0 {
                no_modifier_text()
            } else {
                modifier
            },
        }),
{
    let text = dice_text(count, size, modifier);
    let d = count.len() as int;
    let s = d + 1 + size.len();
    let n = text.len() as int;
    assert(text[d] == 'd');
    assert forall|i: int| 0 <= i < d implies is_digit(#[trigger] text[i]) by {
        assert(text[i] == count[i]);
    }
    lemma_digits_end_of_run(text, 0, d);
    assert forall|i: int| d + 1 <= i < s implies is_digit(#[trigger] text[i]) by {
        assert(text[i] == size[i - d - 1]);
    }
    if modifier.len() > 0 {
        assert(text[s] == modifier[0]);
        assert forall|i: int| s + 1 <= i < n implies is_digit(#[trigger] text[i]) by {
            assert(text[i] == modifier.skip(1)[i - s - 1]);
        }
        lemma_digits_end_of_run(text, s + 1, n);
        assert(text.subrange(s + 1, n) =~= modifier.skip(1));
        assert(text.subrange(s, n) =~= modifier);
    }
    lemma_digits_end_of_run(text, d + 1, s);
    assert(text.subrange(0, d) =~= count);
    assert(text.subrange(d + 1, s) =~= size);
}

/// Every text that matches the grammar is put together from well-formed
/// parts: the grammar accepts nothing else.
pub proof fn lemma_grammar_parts(text: Seq<char>)
    requires
        matches_grammar(text),
    ensures
        well_formed_parts(
            text.subrange(0, count_end(text)),
            text.subrange(count_end(text) + 1, size_end(text)),
            text.subrange(size_end(text), text.len() as int),
        ),
        text == dice_text(
            text.subrange(0, count_end(text)),
            text.subrange(count_end(text) + 1, size_end(text)),
            text.subrange(size_end(text), text.len() as int),
        ),
{
    let d = count_end(text);
    let s = size_end(text);
    let n = text.len() as int;
    lemma_digits_end(text, 0);
    lemma_digits_end(text, d + 1);
    let modifier = text.subrange(s, n);
    if s < n {
        lemma_digits_end(text, s + 1);
        assert(modifier.skip(1) =~= text.subrange(s + 1, n));
    }
    assert(text =~= dice_text(text.subrange(0, d), text.subrange(d + 1, s), modifier));
}

/// Nothing may follow a dice expression: a text put together from
/// well-formed parts and followed by more is turned down, unless what
/// follows makes the last number longer or is itself the one modifier
/// clause. A second modifier clause is always turned down.
pub proof fn lemma_trailing_content_rejected(
    count: Seq<char>,
    size: Seq<char>,
    modifier: Seq<char>,
    extra: Seq<char>,
)
    requires
        well_formed_parts(count, size, modifier),
        extra.len() > 0,
        !is_digit(extra[0]),
        modifier.len() > 0 || !is_operator(extra[0]),
    ensures
        !matches_grammar(dice_text(count, size, modifier) + extra),
{
    let text = dice_text(count, size, modifier) + extra;
    let d = count.len() as int;
    let s = d + 1 + size.len();
    let m = s + modifier.len();
    assert(text[d] == 'd');
    assert forall|i: int| 0 <= i < d implies is_digit(#[trigger] text[i]) by {
        assert(text[i] == count[i]);
    }
    lemma_digits_end_of_run(text, 0, d);
    assert forall|i: int| d + 1 <= i < s implies is_digit(#[trigger] text[i]) by {
        assert(text[i] == size[i - d - 1]);
    }
    assert(text[m] == extra[0]);
    if modifier.len() > 0 {
        assert(text[s] == modifier[0]);
        lemma_digits_end_of_run(text, d + 1, s);
        assert forall|i: int| s + 1 <= i < m implies is_digit(#[trigger] text[i]) by {
            assert(text[i] == modifier.skip(1)[i - s - 1]);
        }
        lemma_digits_end_of_run(text, s + 1, m);
    } else {
        lemma_digits_end_of_run(text, d + 1, s);
    }
}

/// The operator that a modifier clause names; none where there is no clause.
pub open spec fn written_operator(modifier: Seq<char>) -> ModifierOp {
    if modifier.len() == 0 {
        ModifierOp::Absent
    } else {
        operator_of(modifier[0])
    }
}

/// The number that a modifier clause names, however large; 0 where there is
/// no clause.
pub open spec fn written_value(modifier: Seq<char>) -> nat {
    if modifier.len() == 0 {
        0
    } else {
        digits_value(modifier.skip(1))
    }
}

/// The count that the digits of a count name, capped at 31 bits; 1 where
/// there are none.
pub open spec fn written_count(count: Seq<char>) -> nat {
    number_or(count, 1, dice_bound())
}

/// The die size that the digits of a die size name, capped at 31 bits.
pub open spec fn written_size(size: Seq<char>) -> nat {
    number_or(size, 1, dice_bound())
}

/// True when `count` dice of `die_size` faces can show `sum`.
pub open spec fn is_roll_sum(count: nat, die_size: nat, sum: int) -> bool {
    count <= sum <= count * die_size
}

/// Capping a modifier value at 64 bits changes no total of a sum that is at
/// least 1 and lies below that cap.
pub proof fn lemma_wide_modifier_is_exact(sum: int, op: ModifierOp, value: int)
    requires
        1 <= sum < modifier_bound(),
        value > modifier_bound(),
    ensures
        clamped(modified(sum, op, value)) == clamped(modified(sum, op, modifier_bound() as int)),
{
    let bound = modifier_bound() as int;
    match op {
        ModifierOp::Multiply => {
            assert(sum * value >= value) by (nonlinear_arith)
                requires
                    sum >= 1,
                    value >= 0,
            ;
            assert(sum * bound >= bound) by (nonlinear_arith)
                requires
                    sum >= 1,
                    bound >= 0,
            ;
        },
        ModifierOp::Divide => {
            vstd::arithmetic::div_mod::lemma_basic_div(sum, value);
            vstd::arithmetic::div_mod::lemma_basic_div(sum, bound);
        },
        _ => {},
    }
}

/// The roll of an expression put together from well-formed parts, in the
/// numbers as they are written: for one of the sums that the dice can show,
/// the total is that sum after the modifier, the modifier value taken in
/// full however large it is, clamped as totals are. The roll carries the
/// difficulty check as given and the modifier clause as written, and it is a
/// success exactly when the total reaches the difficulty check.
pub proof fn lemma_roll_of_parts(
    expression: Seq<char>,
    count: Seq<char>,
    size: Seq<char>,
    modifier: Seq<char>,
    difficulty_check: int,
    roll: RollView,
)
    requires
        without_whitespace(expression) == dice_text(count, size, modifier),
        well_formed_parts(count, size, modifier),
        written_count(count) >= 1,
        written_size(size) >= 1,
        possible_result(expression, difficulty_check, Some(roll)),
    ensures
        exists|sum: int| #[trigger]
            is_roll_sum(written_count(count), written_size(size), sum) && roll.total == clamped(
                modified(sum, written_operator(modifier), written_value(modifier) as int),
            ),
        roll.modifier_text == (if modifier.len() == 0 {
            no_modifier_text()
        } else {
            modifier
        }),
        roll.difficulty_check == difficulty_check,
        roll.success <==> roll.total >= difficulty_check,
{
    lemma_grammar_accepts(count, size, modifier);
    let terms = parsed(expression)->0;
    let n = written_count(count);
    let m = written_size(size);
    let sum = choose|sum: int| #[trigger]
        possible_sum(terms, sum) && Some(roll) == outcome(terms, sum, difficulty_check);
    assert(n * m <= 0x7fff_ffff * 0x7fff_ffff) by (nonlinear_arith)
        requires
            0 <= n <= 0x7fff_ffff,
            0 <= m <= 0x7fff_ffff,
    ;
    if written_value(modifier) > modifier_bound() {
        lemma_wide_modifier_is_exact(
            sum,
            written_operator(modifier),
            written_value(modifier) as int,
        );
    }
    assert(is_roll_sum(n, m, sum));
}

/// A roll with a division: where the text without whitespace is `NdM/K` with
/// `N`, `M` and `K` at least 1 and `N*M` within 31 bits, the roll is there,
/// its total is one of the sums that the dice can show divided by `K`, the
/// division made once on the sum and rounded down, so the total lies between
/// `N/K` and `N*M/K`; and the modifier text is `/K` as written.
pub proof fn lemma_division_roll(
    expression: Seq<char>,
    count: Seq<char>,
    size: Seq<char>,
    divisor: Seq<char>,
    difficulty_check: int,
    result: Option<RollView>,
)
    requires
        without_whitespace(expression) == dice_text(count, size, seq!['/'] + divisor),
        all_digits(count),
        all_digits(size),
        all_digits(divisor),
        count.len() >= 1,
        size.len() >= 1,
        divisor.len() >= 1,
        digits_value(count) >= 1,
        digits_value(size) >= 1,
        digits_value(divisor) >= 1,
        digits_value(count) * digits_value(size) <= i32::MAX,
        possible_result(expression, difficulty_check, result),
    ensures
        result is Some,
        exists|sum: int| #[trigger]
            is_roll_sum(digits_value(count), digits_value(size), sum) && result->0.total == sum
                / (digits_value(divisor) as int),
        digits_value(count) / digits_value(divisor) <= result->0.total <= (digits_value(count)
            * digits_value(size)) / digits_value(divisor),
        result->0.modifier_text == seq!['/'] + divisor,
        result->0.difficulty_check == difficulty_check,
{
    let modifier = seq!['/'] + divisor;
    let n = digits_value(count);
    let m = digits_value(size);
    let k = digits_value(divisor) as int;
    assert(modifier.skip(1) =~= divisor);
    assert(modifier[0] == '/');
    assert(n <= n * m && m <= n * m) by (nonlinear_arith)
        requires
            n >= 1,
            m >= 1,
    ;
    lemma_grammar_accepts(count, size, modifier);
    let terms = parsed(expression)->0;
    assert(terms.count == n && terms.die_size == m);
    assert(terms.modifier_op == ModifierOp::Divide);
    assert(terms.modifier_value >= 1);
    let roll = result->0;
    lemma_roll_of_parts(expression, count, size, modifier, difficulty_check, roll);
    let sum = choose|sum: int| #[trigger]
        is_roll_sum(written_count(count), written_size(size), sum) && roll.total == clamped(
            modified(sum, written_operator(modifier), written_value(modifier) as int),
        );
    vstd::arithmetic::div_mod::lemma_div_is_ordered(n as int, sum, k);
    vstd::arithmetic::div_mod::lemma_div_is_ordered(sum, (n * m) as int, k);
    vstd::arithmetic::div_mod::lemma_div_nonincreasing(sum, k);
    vstd::arithmetic::div_mod::lemma_div_pos_is_pos(sum, k);
    assert(is_roll_sum(n, m, sum) && roll.total == sum / k);
}

/// Without a modifier and with at least one die of at least one face, the
/// total lies between the count and the count times the die size, and the
/// modifier text is `+0`.
pub proof fn lemma_unmodified_total_bounds(
    expression: Seq<char>,
    difficulty_check: int,
    roll: RollView,
)
    requires
        possible_result(expression, difficulty_check, Some(roll)),
        parsed(expression) matches Some(terms) && terms.modifier_op == ModifierOp::Absent
            && terms.count >= 1 && terms.die_size >= 1,
    ensures
        parsed(expression)->0.count <= roll.total <= parsed(expression)->0.count * parsed(
            expression,
        )->0.die_size,
        roll.modifier_text == no_modifier_text(),
{
    let text = without_whitespace(expression);
    lemma_number_or_bound(text.subrange(0, count_end(text)), 1, dice_bound());
}

/// A number read from digits stays within its bound, given that the default
/// does.
pub proof fn lemma_number_or_bound(digits: Seq<char>, default: nat, bound: nat)
    requires
        default <= bound,
    ensures
        number_or(digits, default, bound) <= bound,
{
}

/// The modifier never turns a larger sum into a smaller total.
pub proof fn lemma_modified_is_monotonic(low: int, high: int, op: ModifierOp, value: int)
    requires
        0 <= low <= high,
        value >= 0,
        op == ModifierOp::Divide ==> value > 0,
    ensures
        modified(low, op, value) <= modified(high, op, value),
        clamped(modified(low, op, value)) <= clamped(modified(high, op, value)),
{
    match op {
        ModifierOp::Multiply => {
            assert(low * value <= high * value) by (nonlinear_arith)
                requires
                    0 <= low <= high,
                    value >= 0,
            ;
        },
        ModifierOp::Divide => {
            vstd::arithmetic::div_mod::lemma_div_is_ordered(low, high, value);
        },
        _ => {},
    }
}

/// With a count of `N`, a die size of `M` and a modifier `op K`, the total of
/// every roll lies between `N op K` and `N*M op K`, both clamped as totals
/// are: for `+` between `N+K` and `N*M+K`, for `-` between `N-K` and `N*M-K`
/// and never below 0, for `*` between `N*K` and `N*M*K`, and for `/` between
/// `N/K` and `N*M/K`, the sum being divided after the dice are added up.
pub proof fn lemma_modified_total_bounds(
    expression: Seq<char>,
    difficulty_check: int,
    roll: RollView,
)
    requires
        possible_result(expression, difficulty_check, Some(roll)),
        parsed(expression) matches Some(terms) && terms.count >= 1 && terms.die_size >= 1,
    ensures
        ({
            let terms = parsed(expression)->0;
            let low = modified(terms.count as int, terms.modifier_op, terms.modifier_value as int);
            let high = modified(
                (terms.count * terms.die_size) as int,
                terms.modifier_op,
                terms.modifier_value as int,
            );
            &&& clamped(low) <= roll.total <= clamped(high)
            &&& high <= i32::MAX ==> (if low < 0 {
                0
            } else {
                low
            }) <= roll.total <= (if high < 0 {
                0
            } else {
                high
            })
        }),
{
    let terms = parsed(expression)->0;
    let sum = choose|sum: int| #[trigger]
        possible_sum(terms, sum) && Some(roll) == outcome(terms, sum, difficulty_check);
    let high_sum = (terms.count * terms.die_size) as int;
    assert(terms.count as int <= high_sum) by (nonlinear_arith)
        requires
            terms.count >= 1,
            terms.die_size >= 1,
            high_sum == terms.count * terms.die_size,
    ;
    lemma_modified_is_monotonic(
        terms.count as int,
        sum,
        terms.modifier_op,
        terms.modifier_value as int,
    );
    lemma_modified_is_monotonic(sum, high_sum, terms.modifier_op, terms.modifier_value as int);
    lemma_modified_is_monotonic(
        terms.count as int,
        high_sum,
        terms.modifier_op,
        terms.modifier_value as int,
    );
}

/// Zero dice, or dice of zero faces, always give the same failure: a total of
/// 0, the difficulty check as given, and the modifier text `+0`.
pub proof fn lemma_no_dice_fails(
    expression: Seq<char>,
    difficulty_check: int,
    result: Option<RollView>,
)
    requires
        possible_result(expression, difficulty_check, result),
        parsed(expression) matches Some(terms) && has_no_dice(terms),
    ensures
        result == Some(
            RollView {
                success: false,
                total: 0,
                difficulty_check,
                modifier_text: no_modifier_text(),
            },
        ),
{
}

/// Two rolls of one expression against one difficulty check both fail or
/// both succeed in being rolled, and then carry the same difficulty check and
/// the same modifier text; their totals may differ. Where nothing is rolled
/// the two results are equal.
pub proof fn lemma_rolls_agree(
    expression: Seq<char>,
    difficulty_check: int,
    first: Option<RollView>,
    second: Option<RollView>,
)
    requires
        possible_result(expression, difficulty_check, first),
        possible_result(expression, difficulty_check, second),
    ensures
        first is Some <==> second is Some,
        first is Some ==> first->0.difficulty_check == difficulty_check && first->0.difficulty_check
            == second->0.difficulty_check && first->0.modifier_text == second->0.modifier_text,
        parsed(expression) matches Some(terms) && has_no_dice(terms) ==> first == second,
{
}

/// Every total is at least 0 and fits in 31 bits. Where dice are rolled, the
/// roll is a success exactly when the total reaches the difficulty check.
pub proof fn lemma_total_in_range(expression: Seq<char>, difficulty_check: int, roll: RollView)
    requires
        possible_result(expression, difficulty_check, Some(roll)),
    ensures
        0 <= roll.total <= i32::MAX,
        roll.difficulty_check == difficulty_check,
        !has_no_dice(parsed(expression)->0) ==> (roll.success <==> roll.total >= difficulty_check),
{
}

} // verus!
