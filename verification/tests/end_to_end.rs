//! Whole runs: source text in, printed values out.
use lox::error::Error;
use lox::lox::Lox;
use lox::program::BinaryOp;
use lox::value::ExprEval;

fn read(text: &str) -> Option<u64> {
    text.parse::<f64>().ok().map(f64::to_bits)
}

fn arith(op: BinaryOp, a: u64, b: u64) -> u64 {
    let (x, y) = (f64::from_bits(a), f64::from_bits(b));
    let r = match op {
        BinaryOp::Plus => x + y,
        BinaryOp::Minus => x - y,
        BinaryOp::Times => x * y,
        BinaryOp::Div => x / y,
        _ => unreachable!(),
    };
    r.to_bits()
}

fn run(source: &str) -> Vec<ExprEval> {
    let mut lox = Lox::new_from_input(source.to_string(), &read).unwrap();
    lox.eval(&arith).unwrap();
    lox.output().clone()
}

fn number(x: f64) -> ExprEval {
    ExprEval::Number(x.to_bits())
}

#[test]
fn multiplication_binds_tighter_than_addition() {
    assert_eq!(run("print 1 + 2 * 3;"), vec![number(7.0)]);
}

#[test]
fn subtraction_associates_to_the_left() {
    assert_eq!(run("print 8 - 3 - 2;"), vec![number(3.0)]);
}

#[test]
fn assignment_associates_to_the_right() {
    assert_eq!(
        run("var a; var b; a = b = 3; print a; print b;"),
        vec![number(3.0), number(3.0)]
    );
}

#[test]
fn assignment_to_a_number_is_a_parse_error() {
    assert!(Lox::new_from_input("1 = 2;".to_string(), &read).is_err());
}

#[test]
fn inner_declaration_shadows_outer() {
    assert_eq!(
        run("var a = 1; { var a = 2; print a; } print a;"),
        vec![number(2.0), number(1.0)]
    );
}

#[test]
fn false_and_skips_the_right_operand() {
    assert_eq!(run("print false and (1/0 == 1);"), vec![ExprEval::Bool(false)]);
}

#[test]
fn if_else_prints_big() {
    assert_eq!(
        run("var x = 10; if (x > 5) { print \"big\"; } else { print \"small\"; }"),
        vec![ExprEval::String("big".to_string())]
    );
}

#[test]
fn one_plus_two_times_three_is_not_nine() {
    assert_ne!(run("print 1 + 2 * 3;"), vec![number(9.0)]);
    assert_eq!(run("print (1 + 2) * 3;"), vec![number(9.0)]);
}

#[test]
fn eight_minus_three_minus_two_is_not_seven() {
    assert_ne!(run("print 8 - 3 - 2;"), vec![number(7.0)]);
}

#[test]
fn one_by_zero_prints_infinity() {
    assert_eq!(run("print 1 / 0;"), vec![number(f64::INFINITY)]);
}

#[test]
fn number_plus_truth_value_prints_a_type_error() {
    assert_eq!(
        run("print 1 + true;"),
        vec![ExprEval::RuntimeTypeError("Can't add Number and Bool".to_string())]
    );
}

#[test]
fn strings_add_up() {
    assert_eq!(run("print \"a\" + \"b\";"), vec![ExprEval::String("ab".to_string())]);
}

#[test]
fn undeclared_variable_prints_a_runtime_error() {
    assert_eq!(
        run("print a;"),
        vec![ExprEval::RuntimeError("Unknown variable \"a\"".to_string())]
    );
}

#[test]
fn if_else_prints_exactly_once() {
    let printed = run("var x = 10; if (x > 5) { print \"big\"; } else { print \"small\"; }");
    assert_eq!(printed.len(), 1);
    let printed = run("var x = 1; if (x > 5) { print \"big\"; } else { print \"small\"; }");
    assert_eq!(printed, vec![ExprEval::String("small".to_string())]);
}

#[test]
fn comparison_of_a_number_and_a_string_is_false() {
    assert_eq!(
        run("print 1 < \"a\"; print \"a\" >= 1;"),
        vec![ExprEval::Bool(false), ExprEval::Bool(false)]
    );
}

#[test]
fn a_fatal_lexical_condition_fails_the_load() {
    match Lox::new_from_input("print \"abc".to_string(), &read) {
        Err(e) => match *e {
            Error::ParseError(ref m) => assert_eq!(m, "Unterminated string"),
            ref other => panic!("{:?}", other),
        },
        Ok(_) => panic!("loaded"),
    }
    match Lox::new_from_input("print 1.2.3;".to_string(), &read) {
        Err(e) => match *e {
            Error::ParseError(ref m) => assert_eq!(m, "Malformed number"),
            ref other => panic!("{:?}", other),
        },
        Ok(_) => panic!("loaded"),
    }
}

#[test]
fn a_parse_error_fails_the_load_with_its_message() {
    match Lox::new_from_input("print 1".to_string(), &read) {
        Err(e) => match *e {
            Error::ParseError(ref m) => assert_eq!(m, "Missing semicolon"),
            ref other => panic!("{:?}", other),
        },
        Ok(_) => panic!("loaded"),
    }
}

#[test]
fn a_program_with_a_parse_error_is_not_run() {
    assert!(Lox::new_from_input("print 1; print ;".to_string(), &read).is_err());
}

#[test]
fn state_lasts_across_runs_of_one_environment() {
    let mut lox = Lox::new_from_input("var a = 1; print a;".to_string(), &read).unwrap();
    lox.eval(&arith).unwrap();
    lox.eval(&arith).unwrap();
    assert_eq!(lox.output(), &vec![number(1.0), number(1.0)]);
}
