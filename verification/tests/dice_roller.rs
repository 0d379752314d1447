use logic::utilities::dice_roller::{
    outcome_for_sum, parse_dice_expression, roll_dice, roll_dice_check, DiceExpression, DiceRoll,
    ModifierOp,
};

#[test]
fn test_roll_dice() {
    let result = roll_dice_check("2d6".to_string(), 10);
    match result {
        Err(_) => assert!(false),
        Ok(roll) => match roll {
            DiceRoll::Success(_, _, _) => assert!(true),
            DiceRoll::Failure(_, _, _) => assert!(true),
        },
    }
}

#[test]
fn test_roll_dice_with_addition_modifier() {
    let result = roll_dice_check("2d6+5".to_string(), 10);
    match result {
        Ok(DiceRoll::Success(total, dc, modifier))
        | Ok(DiceRoll::Failure(total, dc, modifier)) => {
            // a minimum of 7 is expected
            assert!(7 <= total);
            // a maximum of 17 is expected
            assert!(17 >= total);
            // the difficulty check is 10
            assert_eq!(dc, 10);
            // the modifier is +5
            assert_eq!(modifier, "+5");
        }
        Err(_) => assert!(false, "Expected a valid dice roll result"),
    }
}

#[test]
fn test_roll_dice_with_multiplication_modifier() {
    let result = roll_dice_check("2d6*5".to_string(), 10);
    match result {
        Ok(DiceRoll::Success(total, dc, modifier))
        | Ok(DiceRoll::Failure(total, dc, modifier)) => {
            // a minimum of 10 is expected
            assert!(10 <= total);
            // a maximum of 60 is expected
            assert!(60 >= total);
            // the difficulty check is 10
            assert_eq!(dc, 10);
            // the modifier is *5
            assert_eq!(modifier, "*5");
        }
        Err(_) => assert!(false, "Expected a valid dice roll result"),
    }
}

#[test]
fn test_roll_dice_with_subtraction_modifier() {
    let result = roll_dice_check("2d6-5".to_string(), 10);
    match result {
        Ok(DiceRoll::Success(total, dc, modifier))
        | Ok(DiceRoll::Failure(total, dc, modifier)) => {
            // a minimum of 0 is expected
            assert!(0 <= total);
            // a maximum of 7 is expected
            assert!(12 >= total);
            // the difficulty check is 10
            assert_eq!(dc, 10);
            // the modifier is -5
            assert_eq!(modifier, "-5");
        }
        Err(_) => assert!(false, "Expected a valid dice roll result"),
    }
}

#[test]
fn test_roll_dice_with_division_modifier() {
    let result = roll_dice_check("2d20/5".to_string(), 10);
    match result {
        Ok(DiceRoll::Success(total, dc, modifier))
        | Ok(DiceRoll::Failure(total, dc, modifier)) => {
            // a minimum of 0 is expected
            assert!(0 <= total);
            // a maximum of 8 is expected
            assert!(8 >= total);
            // the difficulty check is 10
            assert_eq!(dc, 10);
            // the modifier is /5
            assert_eq!(modifier, "/5");
        }
        Err(_) => assert!(false, "Expected a valid dice roll result"),
    }
}

#[test]
fn test_roll_dice_with_invalid_dice_expression() {
    let result = roll_dice_check("2d6+5+5".to_string(), 10);
    match result {
        Err(_) => assert!(true),
        Ok(_) => assert!(false, "Expected an invalid dice roll result"),
    }
}

#[test]
fn test_roll_dice_with_invalid_dice_expression_2() {
    let result = roll_dice_check("2d6+5-".to_string(), 10);
    match result {
        Err(_) => assert!(true),
        Ok(_) => assert!(false, "Expected an invalid dice roll result"),
    }
}

#[test]
fn test_roll_dice_with_single_die() {
    let result = roll_dice_check("1d6".to_string(), 4);
    match result {
        Ok(DiceRoll::Success(total, dc, modifier))
        | Ok(DiceRoll::Failure(total, dc, modifier)) => {
            // a minimum of 1 is expected
            assert!(1 <= total);
            // a maximum of 6 is expected
            assert!(6 >= total);
            // the difficulty check is 4
            assert_eq!(dc, 4);
            // the modifier is +0
            assert_eq!(modifier, "+0");
        }
        Err(_) => assert!(false, "Expected a valid dice roll result"),
    }
}

#[test]
fn test_roll_dice_with_large_number_of_dice() {
    let result = roll_dice_check("100d6".to_string(), 300);
    match result {
        Ok(DiceRoll::Success(total, dc, modifier))
        | Ok(DiceRoll::Failure(total, dc, modifier)) => {
            // a minimum of 100 is expected
            assert!(100 <= total);
            // a maximum of 600 is expected
            assert!(600 >= total);
            // the difficulty check is 300
            assert_eq!(dc, 300);
            // the modifier is +0
            assert_eq!(modifier, "+0");
        }
        Err(_) => assert!(false, "Expected a valid dice roll result"),
    }
}

#[test]
fn test_roll_dice_with_zero_dice() {
    let result = roll_dice_check("0d6".to_string(), 1);
    match result {
        Ok(DiceRoll::Failure(total, dc, modifier)) => {
            // the total should be 0
            assert_eq!(total, 0);
            // the difficulty check is 1
            assert_eq!(dc, 1);
            // the modifier is +0
            assert_eq!(modifier, "+0");
        }
        _ => assert!(false, "Expected a valid dice roll result"),
    }
}

#[test]
fn test_roll_dice_with_zero_sided_die() {
    let result = roll_dice_check("1d0".to_string(), 1);
    match result {
        Ok(DiceRoll::Failure(total, dc, modifier)) => {
            // the total should be 0
            assert_eq!(total, 0);
            // the difficulty check is 1
            assert_eq!(dc, 1);
            // the modifier is +0
            assert_eq!(modifier, "+0");
        }
        _ => assert!(false, "Expected a valid dice roll result"),
    }
}

fn parts(roll: DiceRoll) -> (bool, i32, i32, String) {
    match roll {
        DiceRoll::Success(total, dc, modifier) => (true, total, dc, modifier),
        DiceRoll::Failure(total, dc, modifier) => (false, total, dc, modifier),
    }
}

fn expression(count: u32, die_size: u32, op: ModifierOp, value: u64, text: &str) -> DiceExpression {
    DiceExpression {
        count,
        die_size,
        modifier_op: op,
        modifier_value: value,
        modifier_text: text.to_string(),
    }
}

#[test]
fn parse_reads_every_part() {
    let e = parse_dice_expression("2d6+5").unwrap();
    assert_eq!(e.count, 2);
    assert_eq!(e.die_size, 6);
    assert_eq!(e.modifier_op, ModifierOp::Add);
    assert_eq!(e.modifier_value, 5);
    assert_eq!(e.modifier_text, "+5");

    let e = parse_dice_expression("10d20-8").unwrap();
    assert_eq!((e.count, e.die_size, e.modifier_op, e.modifier_value), (10, 20, ModifierOp::Subtract, 8));
    assert_eq!(e.modifier_text, "-8");

    let e = parse_dice_expression("2d4*8").unwrap();
    assert_eq!((e.count, e.die_size, e.modifier_op, e.modifier_value), (2, 4, ModifierOp::Multiply, 8));

    let e = parse_dice_expression("3d12/04").unwrap();
    assert_eq!((e.count, e.die_size, e.modifier_op, e.modifier_value), (3, 12, ModifierOp::Divide, 4));
    assert_eq!(e.modifier_text, "/04");
}

#[test]
fn parse_defaults() {
    let e = parse_dice_expression("d20").unwrap();
    assert_eq!(e.count, 1);
    assert_eq!(e.die_size, 20);
    assert_eq!(e.modifier_op, ModifierOp::Absent);
    assert_eq!(e.modifier_value, 0);
    assert_eq!(e.modifier_text, "+0");
}

#[test]
fn parse_ignores_whitespace() {
    let e = parse_dice_expression(" 10 d 20 -\t8\n").unwrap();
    assert_eq!((e.count, e.die_size, e.modifier_op, e.modifier_value), (10, 20, ModifierOp::Subtract, 8));
    assert_eq!(e.modifier_text, "-8");
    let e = parse_dice_expression("2\u{00A0}d\u{2003}6").unwrap();
    assert_eq!((e.count, e.die_size), (2, 6));
}

#[test]
fn parse_rejects_what_is_no_dice_expression() {
    for text in [
        "", " ", "d", "2d", "2", "6+5", "2d6+", "2d6+5+5", "2d6+5-", "2D6", "2d6%5", "2d-6", "-2d6",
        "2d6 + x", "2dd6", "2d6d", "a2d6", "2d6+5a", "2.5d6", "+5", "2d6++5", "\u{0662}d6",
    ] {
        assert!(parse_dice_expression(text).is_none(), "{:?} was accepted", text);
        assert!(roll_dice_check(text.to_string(), 0).is_err(), "{:?} was rolled", text);
        assert_eq!(roll_dice(text.to_string()), 0);
    }
}

#[test]
fn parse_numbers_are_capped() {
    let e = parse_dice_expression("2147483647d2147483647+2147483647").unwrap();
    assert_eq!((e.count, e.die_size, e.modifier_value), (2147483647, 2147483647, 2147483647));
    let e = parse_dice_expression("2147483648d2147483648+2147483648").unwrap();
    assert_eq!((e.count, e.die_size, e.modifier_value), (2147483647, 2147483647, 2147483648));
    assert_eq!(e.modifier_text, "+2147483648");
    let e = parse_dice_expression("2d6*18446744073709551615").unwrap();
    assert_eq!(e.modifier_value, u64::MAX);
    let e = parse_dice_expression("2d6*18446744073709551616").unwrap();
    assert_eq!(e.modifier_value, u64::MAX);
    assert_eq!(e.modifier_text, "*18446744073709551616");
    let e = parse_dice_expression(
        "99999999999999999999999d99999999999999999999999*99999999999999999999999",
    )
    .unwrap();
    assert_eq!((e.count, e.die_size, e.modifier_value), (2147483647, 2147483647, u64::MAX));
    let e = parse_dice_expression("0000000000000000000002d0000000000000000006").unwrap();
    assert_eq!((e.count, e.die_size), (2, 6));
}

#[test]
fn large_modifiers_act_in_full() {
    for _ in 0..20 {
        // A divisor above every sum gives 0 and is no division by zero.
        for text in ["2d6/2147483648", "2d6/99999999999999999999999", "3d4/18446744073709551615"] {
            let (success, total, dc, _) = parts(roll_dice_check(text.to_string(), 0).unwrap());
            assert_eq!((success, total, dc), (true, 0, 0), "{:?}", text);
        }
        assert_eq!(roll_dice("2d6-99999999999999999999999".to_string()), 0);
        assert_eq!(roll_dice("2d6+99999999999999999999999".to_string()), 2147483647);
        assert_eq!(roll_dice("2d6*99999999999999999999999".to_string()), 2147483647);
        let total = roll_dice("1d99999999999999999999999".to_string());
        assert!(total >= 1);
    }
    let e = parse_dice_expression("2d6/2147483648").unwrap();
    assert_eq!(e.modifier_text, "/2147483648");
    assert_eq!(parts(outcome_for_sum(&e, 2147483647, 0).unwrap()).1, 0);
    assert_eq!(parts(outcome_for_sum(&e, 2147483648, 0).unwrap()).1, 1);
}

#[test]
fn division_is_made_once_on_the_sum() {
    let e = parse_dice_expression("3d6/2").unwrap();
    for sum in 3..=18u64 {
        let (_, total, _, modifier) = parts(outcome_for_sum(&e, sum, 0).unwrap());
        assert_eq!(total as u64, sum / 2);
        assert_eq!(modifier, "/2");
    }
    for _ in 0..200 {
        let (_, total, _, modifier) = parts(roll_dice_check("3d5/2".to_string(), 4).unwrap());
        assert!((1..=7).contains(&total));
        assert_eq!(modifier, "/2");
    }
}

#[test]
fn outcome_applies_each_operator() {
    let add = expression(2, 6, ModifierOp::Add, 5, "+5");
    assert_eq!(parts(outcome_for_sum(&add, 7, 12).unwrap()), (true, 12, 12, "+5".to_string()));
    assert_eq!(parts(outcome_for_sum(&add, 7, 13).unwrap()), (false, 12, 13, "+5".to_string()));
    let sub = expression(2, 6, ModifierOp::Subtract, 5, "-5");
    assert_eq!(parts(outcome_for_sum(&sub, 7, 2).unwrap()), (true, 2, 2, "-5".to_string()));
    let mul = expression(2, 6, ModifierOp::Multiply, 5, "*5");
    assert_eq!(parts(outcome_for_sum(&mul, 7, 36).unwrap()), (false, 35, 36, "*5".to_string()));
    let div = expression(2, 20, ModifierOp::Divide, 5, "/5");
    assert_eq!(parts(outcome_for_sum(&div, 39, 7).unwrap()), (true, 7, 7, "/5".to_string()));
    assert_eq!(parts(outcome_for_sum(&div, 4, 0).unwrap()), (true, 0, 0, "/5".to_string()));
    let plain = expression(2, 6, ModifierOp::Absent, 0, "+0");
    assert_eq!(parts(outcome_for_sum(&plain, 9, 9).unwrap()), (true, 9, 9, "+0".to_string()));
}

#[test]
fn outcome_never_goes_below_zero() {
    let sub = expression(1, 4, ModifierOp::Subtract, 5, "-5");
    assert_eq!(parts(outcome_for_sum(&sub, 3, 1).unwrap()), (false, 0, 1, "-5".to_string()));
    // The clamped total is what is judged.
    assert_eq!(parts(outcome_for_sum(&sub, 3, 0).unwrap()), (true, 0, 0, "-5".to_string()));
    assert_eq!(parts(outcome_for_sum(&sub, 3, -1).unwrap()), (true, 0, -1, "-5".to_string()));
    for _ in 0..50 {
        let (_, total, _, _) = parts(roll_dice_check("1d4-5".to_string(), 0).unwrap());
        assert_eq!(total, 0);
    }
}

#[test]
fn outcome_stops_at_31_bits() {
    let mul = expression(2147483647, 2147483647, ModifierOp::Multiply, 2147483647, "*2147483647");
    let sum: u64 = 2147483647 * 2147483647;
    assert_eq!(
        parts(outcome_for_sum(&mul, sum, 2147483647).unwrap()),
        (true, 2147483647, 2147483647, "*2147483647".to_string())
    );
    let add = expression(2, 6, ModifierOp::Add, 2147483647, "+2147483647");
    assert_eq!(parts(outcome_for_sum(&add, 2, 0).unwrap()).1, 2147483647);
    assert_eq!(parts(outcome_for_sum(&add, u64::MAX, 0).unwrap()).1, 2147483647);
    let wide = expression(u32::MAX, u32::MAX, ModifierOp::Multiply, u64::MAX, "*4294967295");
    assert_eq!(parts(outcome_for_sum(&wide, u64::MAX, 0).unwrap()).1, 2147483647);
}

#[test]
fn outcome_without_dice_is_a_fixed_failure() {
    for (count, size) in [(0, 6), (1, 0), (0, 0)] {
        for op in [ModifierOp::Absent, ModifierOp::Add, ModifierOp::Divide] {
            let e = expression(count, size, op, 0, "/0");
            for dc in [-5, 0, 1] {
                assert_eq!(parts(outcome_for_sum(&e, 17, dc).unwrap()), (false, 0, dc, "+0".to_string()));
            }
        }
    }
    for text in ["0d6", "1d0", "0d0", "0d6+5", "1d0*3", "0d6/0", "00d6", "5d000-1"] {
        for dc in [-1, 0, 1] {
            assert_eq!(
                parts(roll_dice_check(text.to_string(), dc).unwrap()),
                (false, 0, dc, "+0".to_string()),
                "{:?}",
                text
            );
        }
        assert_eq!(roll_dice(text.to_string()), 0);
    }
}

#[test]
fn division_by_zero_is_an_error() {
    let div = expression(2, 6, ModifierOp::Divide, 0, "/0");
    let error = outcome_for_sum(&div, 7, 0).unwrap_err();
    assert_eq!(error.message(), "division by zero");
    assert_eq!(error.describe(), "invalid dice expression: division by zero");
    let error = roll_dice_check("2d6/0".to_string(), 0).unwrap_err();
    assert_eq!(error.message(), "division by zero");
    assert!(roll_dice_check("2d6/000".to_string(), 0).is_err());
    assert_eq!(roll_dice("2d6/0".to_string()), 0);
}

#[test]
fn grammar_error_has_its_message() {
    let error = roll_dice_check("two dice".to_string(), 0).unwrap_err();
    assert_eq!(error.message(), "invalid dice expression");
    assert_eq!(error.describe(), "invalid dice expression: invalid dice expression");
}

#[test]
fn rolls_stay_within_their_bounds() {
    for _ in 0..200 {
        let (success, total, dc, modifier) = parts(roll_dice_check("3d6".to_string(), 10).unwrap());
        assert!((3..=18).contains(&total));
        assert_eq!(success, total >= 10);
        assert_eq!(dc, 10);
        assert_eq!(modifier, "+0");
        let (_, total, _, _) = parts(roll_dice_check("3d6+4".to_string(), 10).unwrap());
        assert!((7..=22).contains(&total));
        let (_, total, _, _) = parts(roll_dice_check("3d6-4".to_string(), 10).unwrap());
        assert!((0..=14).contains(&total));
        let (_, total, _, _) = parts(roll_dice_check("3d6*4".to_string(), 10).unwrap());
        assert!((12..=72).contains(&total));
        let (_, total, _, _) = parts(roll_dice_check("3d6/4".to_string(), 10).unwrap());
        assert!((0..=4).contains(&total));
        let total = roll_dice("4d1".to_string());
        assert_eq!(total, 4);
        let total = roll_dice("d8".to_string());
        assert!((1..=8).contains(&total));
    }
}

#[test]
fn rolls_use_every_face() {
    let mut seen = [false; 6];
    for _ in 0..2000 {
        let total = roll_dice("1d6".to_string());
        seen[(total - 1) as usize] = true;
    }
    assert_eq!(seen, [true; 6]);
}

#[test]
fn two_rolls_agree_on_all_but_the_total() {
    for text in ["2d6+5", "d20", "0d6", "4d4*2"] {
        let (_, _, dc_a, modifier_a) = parts(roll_dice_check(text.to_string(), 9).unwrap());
        let (_, _, dc_b, modifier_b) = parts(roll_dice_check(text.to_string(), 9).unwrap());
        assert_eq!(dc_a, 9);
        assert_eq!(dc_a, dc_b);
        assert_eq!(modifier_a, modifier_b);
    }
    assert!(roll_dice_check("2d6+5+5".to_string(), 9).is_err());
    assert!(roll_dice_check("2d6+5+5".to_string(), 9).is_err());
}

#[test]
fn total_accessor_reads_both_variants() {
    assert_eq!(DiceRoll::Success(7, 5, "+0".to_string()).total(), 7);
    assert_eq!(DiceRoll::Failure(3, 5, "+0".to_string()).total(), 3);
}
