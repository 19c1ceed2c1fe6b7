use dice_roller::dice::{die_label, roll_url, standard_sides, DiceExpression};
use dice_roller::roll::{RollRecord, RollResult};

fn expression(count: i32, sides: i32, modifier: i32) -> DiceExpression {
    DiceExpression { count, sides, modifier }
}

#[test]
fn renders_without_modifier() {
    assert_eq!(expression(2, 6, 0).to_text(), "2d6");
}

#[test]
fn renders_negative_modifier() {
    assert_eq!(expression(1, 20, -3).to_text(), "1d20-3");
}

#[test]
fn renders_positive_modifier() {
    assert_eq!(expression(1, 20, 5).to_text(), "1d20+5");
}

#[test]
fn renders_the_largest_modifiers() {
    assert_eq!(expression(99, 100, i32::MAX).to_text(), "99d100+2147483647");
    assert_eq!(expression(99, 100, i32::MIN).to_text(), "99d100-2147483648");
}

#[test]
fn renders_fields_outside_their_usual_range() {
    assert_eq!(expression(0, 7, 0).to_text(), "0d7");
    assert_eq!(expression(-2, -6, 1).to_text(), "-2d-6+1");
}

#[test]
fn default_expression_is_one_d20() {
    let form = DiceExpression::default();
    assert_eq!(form, expression(1, 20, 0));
    assert_eq!(form.to_text(), "1d20");
}

#[test]
fn query_text_escapes_the_plus_sign() {
    assert_eq!(expression(1, 20, 5).to_query_text(), "1d20%2B5");
    assert_eq!(expression(1, 20, -3).to_query_text(), "1d20-3");
    assert_eq!(expression(2, 6, 0).to_query_text(), "2d6");
}

#[test]
fn roll_url_joins_base_path_and_query() {
    assert_eq!(
        roll_url("http://localhost:3000", &expression(3, 20, 0)),
        "http://localhost:3000/roll/?roll=3d20"
    );
    assert_eq!(
        roll_url("https://dice.example", &expression(1, 8, 2)),
        "https://dice.example/roll/?roll=1d8%2B2"
    );
    assert_eq!(roll_url("", &expression(1, 4, -1)), "/roll/?roll=1d4-1");
}

#[test]
fn standard_sides_are_the_seven_usual_dice() {
    assert_eq!(standard_sides(), vec![4, 6, 8, 10, 12, 20, 100]);
}

#[test]
fn die_label_names_the_die() {
    assert_eq!(die_label(20), "d20");
    assert_eq!(die_label(100), "d100");
    assert_eq!(die_label(-4), "d-4");
}

#[test]
fn rolls_text_lists_the_outcomes() {
    let result = RollResult { instruction: "3d20".to_string(), rolls: vec![4, 17, 9], total: 30 };
    assert_eq!(result.rolls_text(), "4, 17, 9");
}

#[test]
fn rolls_text_of_one_and_of_none() {
    let one = RollResult { instruction: "1d6".to_string(), rolls: vec![6], total: 6 };
    assert_eq!(one.rolls_text(), "6");
    let none = RollResult { instruction: "0d6".to_string(), rolls: vec![], total: 0 };
    assert_eq!(none.rolls_text(), "");
}

#[test]
fn rolls_text_keeps_signs() {
    let result = RollResult { instruction: "x".to_string(), rolls: vec![-1, 0, i32::MIN], total: 0 };
    assert_eq!(result.rolls_text(), "-1, 0, -2147483648");
}

#[test]
fn record_keeps_result_and_time() {
    let result = RollResult { instruction: "2d6".to_string(), rolls: vec![1, 2], total: 3 };
    let record = RollRecord::new(result.clone(), 1_700_000_000_000);
    assert_eq!(record.result, result);
    assert_eq!(record.observed_at, 1_700_000_000_000);
}
