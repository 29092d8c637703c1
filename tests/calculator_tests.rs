use calculator::accumulator::Accumulator;
use calculator::command::{parse_basic_command, parse_menu_choice, BasicCommand, MenuChoice, Operator};
use calculator::error::CalcError;
use calculator::rpn::evaluate;
use calculator::session::{basic_step, menu_step, next_mode, BasicOutcome, Mode};
use calculator::text::split_words;

fn parse(s: String) -> Option<f64> {
    s.parse::<f64>().ok()
}

fn is_zero(x: f64) -> bool {
    x == 0.0
}

fn compute(op: Operator, a: f64, b: f64) -> f64 {
    match op {
        Operator::Add => a + b,
        Operator::Sub => a - b,
        Operator::Mul => a * b,
        Operator::Div => a / b,
    }
}

fn eval(expr: &str) -> Result<f64, CalcError> {
    evaluate(expr, parse, is_zero, compute)
}

fn step(acc: &mut Accumulator<f64>, line: &str) -> BasicOutcome<f64> {
    basic_step(acc, line, parse, is_zero, compute)
}

#[test]
fn division_updates_current() {
    for (c, x) in [(9.0, 3.0), (1.0, 4.0), (-7.5, 2.5), (10.0, -0.5)] {
        let mut acc = Accumulator::new(0.0);
        acc.set(c);
        let r = acc.apply('/', x, is_zero, compute);
        assert_eq!(r, Ok(c / x));
        assert_eq!(acc.current, c / x);
    }
}

#[test]
fn division_by_zero_leaves_current() {
    let mut acc = Accumulator::new(0.0);
    acc.set(42.0);
    assert_eq!(acc.apply('/', 0.0, is_zero, compute), Err(CalcError::DivisionByZero));
    assert_eq!(acc.current, 42.0);
    assert_eq!(acc.apply('/', -0.0, is_zero, compute), Err(CalcError::DivisionByZero));
    assert_eq!(acc.current, 42.0);
}

#[test]
fn apply_uses_current_on_the_left() {
    let mut acc = Accumulator::new(0.0);
    acc.set(10.0);
    assert_eq!(acc.apply('-', 3.0, is_zero, compute), Ok(7.0));
    assert_eq!(acc.apply('+', 1.5, is_zero, compute), Ok(8.5));
    assert_eq!(acc.apply('*', 2.0, is_zero, compute), Ok(17.0));
    assert_eq!(acc.memory, 0.0);
}

#[test]
fn unknown_operator_is_rejected() {
    let mut acc = Accumulator::new(0.0);
    acc.set(5.0);
    assert_eq!(acc.apply('x', 5.0, is_zero, compute), Err(CalcError::InvalidOperator));
    assert_eq!(acc.current, 5.0);
    assert_eq!(Operator::from_char('%'), Err(CalcError::InvalidOperator));
    assert_eq!(Operator::from_char('/'), Ok(Operator::Div));
    assert_eq!(Operator::Mul.symbol(), '*');
}

#[test]
fn store_then_recall_keeps_current() {
    for v in [0.0, 3.25, -1e10] {
        let mut acc = Accumulator::new(0.0);
        acc.set(v);
        assert_eq!(acc.store(), v);
        assert_eq!(acc.recall(), v);
        assert_eq!(acc.current, v);
        assert_eq!(acc.memory, v);
    }
}

#[test]
fn rpn_examples() {
    assert_eq!(eval("3 4 +"), Ok(7.0));
    assert_eq!(eval("3 4 + 5 *"), Ok(35.0));
    assert_eq!(eval("10 0 /"), Err(CalcError::DivisionByZero));
    assert_eq!(eval("1 2"), Err(CalcError::InvalidExpression));
    assert_eq!(eval("+"), Err(CalcError::InvalidExpression));
    assert_eq!(eval("abc"), Err(CalcError::InvalidNumber));
}

#[test]
fn rpn_operand_order_and_errors() {
    assert_eq!(eval("10 3 -"), Ok(7.0));
    assert_eq!(eval("12 4 /"), Ok(3.0));
    assert_eq!(eval("  2.5   1e1 *  "), Ok(25.0));
    assert_eq!(eval(""), Err(CalcError::InvalidExpression));
    assert_eq!(eval("1 2 3 +"), Err(CalcError::InvalidExpression));
    assert_eq!(eval("abc +"), Err(CalcError::InvalidNumber));
    assert_eq!(eval("+ abc"), Err(CalcError::InvalidExpression));
    assert_eq!(eval("1 0 / abc"), Err(CalcError::DivisionByZero));
    assert_eq!(eval("-5"), Ok(-5.0));
}

#[test]
fn menu_dispatch() {
    assert_eq!(next_mode(Mode::MainMenu, "3"), Mode::Terminated);
    assert_eq!(next_mode(Mode::MainMenu, " 3 \n"), Mode::Terminated);
    assert_eq!(next_mode(Mode::MainMenu, "1"), Mode::Basic);
    assert_eq!(next_mode(Mode::MainMenu, "2\n"), Mode::Rpn);
    for line in ["4", "", "abc", "1 2", "33"] {
        assert_eq!(next_mode(Mode::MainMenu, line), Mode::MainMenu);
        assert_eq!(menu_step(line), Err(CalcError::InvalidChoice));
    }
    assert_eq!(parse_menu_choice("\t2 "), MenuChoice::Rpn);
    assert_eq!(next_mode(Mode::Basic, " q "), Mode::MainMenu);
    assert_eq!(next_mode(Mode::Rpn, "q\n"), Mode::MainMenu);
    assert_eq!(next_mode(Mode::Rpn, "3 4 +"), Mode::Rpn);
    assert_eq!(next_mode(Mode::Basic, "qq"), Mode::Basic);
}

#[test]
fn basic_unknown_operator_with_number() {
    let mut acc = Accumulator::new(0.0);
    assert_eq!(step(&mut acc, "x 5"), BasicOutcome::Failed(CalcError::InvalidOperator));
    assert_eq!(acc.current, 0.0);
}

#[test]
fn basic_session_scenario() {
    let mut acc = Accumulator::new(0.0);
    assert_eq!(step(&mut acc, "10"), BasicOutcome::Current(10.0));
    assert_eq!(step(&mut acc, "- 3"), BasicOutcome::Computed(7.0));
    assert_eq!(step(&mut acc, "m"), BasicOutcome::Stored(7.0));
    assert_eq!(acc.memory, 7.0);
    assert_eq!(step(&mut acc, "100"), BasicOutcome::Current(100.0));
    assert_eq!(step(&mut acc, "r"), BasicOutcome::Recalled(7.0));
    assert_eq!(acc.current, 7.0);
}

#[test]
fn basic_line_errors() {
    let mut acc = Accumulator::new(0.0);
    acc.set(2.0);
    assert_eq!(step(&mut acc, "1 2 3"), BasicOutcome::Failed(CalcError::InvalidInput));
    assert_eq!(step(&mut acc, "+ abc"), BasicOutcome::Failed(CalcError::InvalidNumber));
    assert_eq!(step(&mut acc, "x abc"), BasicOutcome::Failed(CalcError::InvalidNumber));
    assert_eq!(step(&mut acc, "abc"), BasicOutcome::Failed(CalcError::InvalidNumber));
    assert_eq!(step(&mut acc, "/ 0"), BasicOutcome::Failed(CalcError::DivisionByZero));
    assert_eq!(step(&mut acc, "q"), BasicOutcome::Quit);
    assert_eq!(acc.current, 2.0);
    assert_eq!(step(&mut acc, "** 4"), BasicOutcome::Computed(8.0));
}

#[test]
fn basic_command_shapes() {
    assert_eq!(parse_basic_command("  q "), BasicCommand::Quit);
    assert_eq!(parse_basic_command("m"), BasicCommand::Store);
    assert_eq!(parse_basic_command("r\n"), BasicCommand::Recall);
    assert_eq!(parse_basic_command("1.5"), BasicCommand::SetValue("1.5".to_string()));
    assert_eq!(parse_basic_command("+ 10"), BasicCommand::Apply('+', "10".to_string()));
    assert_eq!(parse_basic_command(""), BasicCommand::Invalid);
    assert_eq!(parse_basic_command("a b c"), BasicCommand::Invalid);
}

#[test]
fn words_split_on_whitespace() {
    let ws = split_words(" ab\tc \u{3000}d\n");
    assert_eq!(ws, vec![vec!['a', 'b'], vec!['c'], vec!['d']]);
    assert!(split_words("   ").is_empty());
}

#[test]
fn error_messages() {
    assert_eq!(CalcError::DivisionByZero.message(), "Division by zero");
    assert_eq!(CalcError::InvalidOperator.message(), "Invalid operator");
    assert_eq!(CalcError::InvalidNumber.message(), "Invalid number");
    assert_eq!(CalcError::InvalidExpression.message(), "Invalid expression");
    assert_eq!(CalcError::InvalidInput.message(), "Invalid input");
    assert_eq!(CalcError::InvalidChoice.message(), "Invalid choice");
}
