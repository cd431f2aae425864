use calculator::action::press;

/// The external evaluator as the shell runs it: floating-point evaluation
/// in calc, the answer formatted with `{}`.
fn evaluate(expr: &str) -> Option<String> {
    calc::Context::<f64>::default()
        .evaluate(expr)
        .ok()
        .map(|v| format!("{}", v))
}

/// One keypress as the shell delivers it: the evaluator runs only for `=`.
fn key(label: &str, display: &str) -> String {
    let eval = if label == "=" { evaluate(display) } else { None };
    press(label, display, eval)
}

#[test]
fn press_clear_empties_display() {
    assert_eq!(key("C", "12+3"), "");
}

#[test]
fn press_evaluate_success() {
    assert_eq!(key("=", "2+2"), "4");
}

#[test]
fn press_evaluate_failure_shows_error() {
    assert_eq!(key("=", "2+"), "Error");
}

#[test]
fn press_digit_clears_error_first() {
    assert_eq!(key("5", "Error"), "5");
}

#[test]
fn press_plain_append() {
    assert_eq!(key("5", "1"), "15");
}

#[test]
fn press_evaluate_bare_number_returns_itself() {
    assert_eq!(key("=", "12"), "12");
}

#[test]
fn press_append_operator() {
    assert_eq!(key("+", "12"), "12+");
}

#[test]
fn press_append_onto_empty() {
    assert_eq!(key("7", ""), "7");
}

#[test]
fn press_evaluate_division() {
    assert_eq!(key("=", "9/3"), "3");
}

#[test]
fn press_evaluate_fractional_division() {
    assert_eq!(key("=", "1/2"), "0.5");
}

#[test]
fn press_evaluate_decimal_expression() {
    assert_eq!(key("=", "1.5+1"), "2.5");
}

#[test]
fn press_evaluate_division_by_zero_shows_error() {
    assert_eq!(key("=", "1/0"), "Error");
}

#[test]
fn press_evaluate_empty_display_shows_error() {
    assert_eq!(key("=", ""), "Error");
}

#[test]
fn press_clear_on_empty_stays_empty() {
    assert_eq!(key("C", ""), "");
}

#[test]
fn press_shows_the_supplied_answer_verbatim() {
    assert_eq!(press("=", "2+2", Some("4".to_string())), "4");
}

#[test]
fn press_without_an_answer_shows_error() {
    assert_eq!(press("=", "2+2", None), "Error");
}
