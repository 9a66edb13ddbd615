use calculator::{Action, Calculator, Evaluation, Message, Operator};

/// Parses an operand's digit text the way the program does: empty is zero.
fn operand(text: &str) -> f64 {
    if text.is_empty() {
        0.0
    } else {
        text.parse::<f64>().unwrap()
    }
}

fn evaluate(e: &Evaluation) -> f64 {
    let l = operand(&e.left);
    let r = operand(&e.right);
    match e.op {
        Operator::Plus => l + r,
        Operator::Minus => l - r,
        Operator::Multiply => l * r,
        Operator::Divide => l / r,
    }
}

/// Presses the keys with the given labels; on an evaluation, shows its result.
fn press_all(calc: &mut Calculator, labels: &[&str]) -> Vec<Action> {
    let mut actions = Vec::new();
    for label in labels {
        let m = Message::from_label(label).unwrap();
        let a = calc.handle(m);
        if let Action::Evaluate(e) = &a {
            calc.show_result(&evaluate(e).to_string());
        }
        actions.push(a);
    }
    actions
}

#[test]
fn digits_only_show_what_was_typed() {
    let mut calc = Calculator::new();
    press_all(&mut calc, &["4", "0", "7"]);
    assert_eq!(calc.display(), "407");
    assert_eq!(calc.left_text(), "407");
    assert_eq!(calc.right_text(), "");
    assert_eq!(calc.operator(), None);
    assert_eq!(operand(calc.left_text()), 407.0);
}

#[test]
fn leading_zero_is_kept_in_the_text() {
    let mut calc = Calculator::new();
    press_all(&mut calc, &["0", "0", "5"]);
    assert_eq!(calc.display(), "005");
    assert_eq!(operand(calc.left_text()), 5.0);
}

#[test]
fn fresh_calculator_shows_nothing() {
    let calc = Calculator::new();
    assert_eq!(calc.display(), "");
    assert_eq!(calc.left_text(), "");
    assert_eq!(calc.operator(), None);
}

#[test]
fn twelve_plus_three_is_fifteen() {
    let mut calc = Calculator::new();
    press_all(&mut calc, &["1", "2", "+", "3", "="]);
    assert_eq!(calc.display(), "Result: 15");
}

#[test]
fn seven_divided_by_zero_is_inf() {
    let mut calc = Calculator::new();
    press_all(&mut calc, &["7", "/", "0", "="]);
    assert_eq!(calc.display(), "Result: inf");
}

#[test]
fn equals_with_no_input_changes_nothing() {
    let mut calc = Calculator::new();
    let actions = press_all(&mut calc, &["="]);
    assert!(matches!(actions[0], Action::NoOperator));
    assert_eq!(calc.display(), "");
    assert_eq!(calc.left_text(), "");
    assert_eq!(calc.right_text(), "");
    assert_eq!(calc.operator(), None);
}

#[test]
fn equals_after_digits_only_changes_nothing() {
    let mut calc = Calculator::new();
    press_all(&mut calc, &["4", "2"]);
    let a = calc.press_equals();
    assert!(matches!(a, Action::NoOperator));
    assert_eq!(calc.display(), "42");
    assert_eq!(calc.left_text(), "42");
}

#[test]
fn equals_hands_out_the_typed_operands() {
    let mut calc = Calculator::new();
    press_all(&mut calc, &["9", "*", "1", "1"]);
    assert_eq!(calc.display(), "9 * 11");
    match calc.press_equals() {
        Action::Evaluate(e) => {
            assert_eq!(e.left, "9");
            assert_eq!(e.op, Operator::Multiply);
            assert_eq!(e.right, "11");
            assert_eq!(evaluate(&e), 99.0);
        }
        _ => panic!("expected an evaluation"),
    }
    assert_eq!(calc.left_text(), "");
    assert_eq!(calc.right_text(), "");
    assert_eq!(calc.operator(), None);
    assert_eq!(calc.display(), "9 * 11");
}

#[test]
fn each_operator_in_double_precision() {
    let mut calc = Calculator::new();
    press_all(&mut calc, &["8", "5", "-", "7", "8", "="]);
    assert_eq!(calc.display(), "Result: 7");
    press_all(&mut calc, &["1", "7", "*", "3", "="]);
    assert_eq!(calc.display(), "Result: 51");
    press_all(&mut calc, &["1", "/", "4", "="]);
    assert_eq!(calc.display(), "Result: 0.25");
    press_all(&mut calc, &["1", "/", "3", "="]);
    assert_eq!(calc.display(), format!("Result: {}", 1.0f64 / 3.0));
    press_all(&mut calc, &["3", "-", "5", "="]);
    assert_eq!(calc.display(), "Result: -2");
}

#[test]
fn operator_with_empty_left_operand_uses_zero() {
    let mut calc = Calculator::new();
    press_all(&mut calc, &["-", "4", "="]);
    assert_eq!(calc.display(), "Result: -4");
}

#[test]
fn zero_divided_by_zero_is_nan() {
    let mut calc = Calculator::new();
    press_all(&mut calc, &["0", "/", "0", "="]);
    assert_eq!(calc.display(), "Result: NaN");
}

#[test]
fn digit_after_result_starts_afresh() {
    let mut calc = Calculator::new();
    press_all(&mut calc, &["1", "2", "+", "3", "="]);
    press_all(&mut calc, &["4"]);
    assert_eq!(calc.display(), "4");
    assert_eq!(calc.left_text(), "4");
    assert_eq!(calc.right_text(), "");
    assert_eq!(calc.operator(), None);
    press_all(&mut calc, &["*", "2", "="]);
    assert_eq!(calc.display(), "Result: 8");
}

#[test]
fn second_operator_replaces_the_first() {
    let mut calc = Calculator::new();
    press_all(&mut calc, &["5", "+", "-"]);
    assert_eq!(calc.display(), "5 - ");
    assert_eq!(calc.operator(), Some(Operator::Minus));
    press_all(&mut calc, &["3", "="]);
    assert_eq!(calc.display(), "Result: 2");
}

#[test]
fn operator_change_keeps_right_digits() {
    let mut calc = Calculator::new();
    press_all(&mut calc, &["5", "+", "3", "-", "4"]);
    assert_eq!(calc.display(), "5 - 34");
    press_all(&mut calc, &["="]);
    assert_eq!(calc.display(), "Result: -29");
}

#[test]
fn operator_symbols_are_padded() {
    assert_eq!(Operator::Plus.symbol(), " + ");
    assert_eq!(Operator::Minus.symbol(), " - ");
    assert_eq!(Operator::Multiply.symbol(), " * ");
    assert_eq!(Operator::Divide.symbol(), " / ");
}

#[test]
fn labels_name_their_keys() {
    for d in 0u8..10 {
        let label = d.to_string();
        assert_eq!(Message::from_label(&label), Some(Message::Number(d)));
    }
    assert_eq!(Message::from_label("+"), Some(Message::Op(Operator::Plus)));
    assert_eq!(Message::from_label("-"), Some(Message::Op(Operator::Minus)));
    assert_eq!(Message::from_label("*"), Some(Message::Op(Operator::Multiply)));
    assert_eq!(Message::from_label("/"), Some(Message::Op(Operator::Divide)));
    assert_eq!(Message::from_label("="), Some(Message::Equal));
}

#[test]
fn other_labels_name_no_key() {
    assert_eq!(Message::from_label(""), None);
    assert_eq!(Message::from_label("10"), None);
    assert_eq!(Message::from_label("x"), None);
    assert_eq!(Message::from_label("=="), None);
    assert_eq!(Message::from_label("é"), None);
}

#[test]
fn show_result_sets_the_display() {
    let mut calc = Calculator::new();
    press_all(&mut calc, &["6"]);
    calc.show_result("3.5");
    assert_eq!(calc.display(), "Result: 3.5");
    assert_eq!(calc.left_text(), "6");
}

#[test]
fn handle_redraws_on_digits_and_operators() {
    let mut calc = Calculator::new();
    assert!(matches!(calc.handle(Message::Number(2)), Action::Redraw));
    assert!(matches!(calc.handle(Message::Op(Operator::Divide)), Action::Redraw));
    assert_eq!(calc.display(), "2 / ");
}
