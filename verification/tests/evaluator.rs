//! The evaluator, on trees built by hand.
use lox::environment::Environment;
use lox::eval::{eval_program, Eval};
use lox::program::{binop, BinaryOp, Declaration, Expr, Literal, LogicalOp, Statement, UnaryOp};
use lox::value::ExprEval;

fn arith(op: BinaryOp, a: u64, b: u64) -> u64 {
    let (x, y) = (f64::from_bits(a), f64::from_bits(b));
    let r = match op {
        BinaryOp::Plus => x + y,
        BinaryOp::Minus => x - y,
        BinaryOp::Times => x * y,
        BinaryOp::Div => x / y,
        _ => unreachable!(),
    };
    r.to_bits()
}

fn never(_: BinaryOp, _: u64, _: u64) -> u64 {
    panic!("no arithmetic is to be done")
}

fn number(x: f64) -> ExprEval {
    ExprEval::Number(x.to_bits())
}

fn num(x: f64) -> Expr {
    Expr::Literal(Literal::Number(x.to_bits()))
}

fn truth(b: bool) -> Expr {
    Expr::Literal(if b { Literal::True } else { Literal::False })
}

fn text(s: &str) -> Expr {
    Expr::Literal(Literal::String(s.to_string()))
}

fn var(name: &str) -> Expr {
    Expr::Literal(Literal::Identifier(name.to_string()))
}

fn logical(l: Expr, op: LogicalOp, r: Expr) -> Expr {
    Expr::Logical(Box::new(l), op, Box::new(r))
}

fn assign(name: &str, e: Expr) -> Expr {
    Expr::Assignment(name.to_string(), Box::new(e))
}

fn declare(name: &str, e: Option<Expr>) -> Declaration {
    Declaration::Variable { identifier: name.to_string(), value: e }
}

fn print(e: Expr) -> Declaration {
    Declaration::Statement(Statement::Print(e))
}

fn type_error(message: &str) -> ExprEval {
    ExprEval::RuntimeTypeError(message.to_string())
}

fn runtime_error(message: &str) -> ExprEval {
    ExprEval::RuntimeError(message.to_string())
}

#[test]
fn literals_evaluate_to_themselves() {
    let env = Environment::new();
    assert_eq!(Literal::Number(1.5f64.to_bits()).eval(&env), number(1.5));
    assert_eq!(Literal::String("s".to_string()).eval(&env), ExprEval::String("s".to_string()));
    assert_eq!(Literal::True.eval(&env), ExprEval::Bool(true));
    assert_eq!(Literal::False.eval(&env), ExprEval::Bool(false));
    assert_eq!(Literal::Nil.eval(&env), ExprEval::Nil);
}

#[test]
fn reading_an_undeclared_name_is_a_runtime_error() {
    let mut env = Environment::new();
    assert_eq!(var("ghost").eval(&mut env, &never), runtime_error("Unknown variable \"ghost\""));
    env.enter_scope();
    assert_eq!(var("ghost").eval(&mut env, &never), runtime_error("Unknown variable \"ghost\""));
}

#[test]
fn reading_a_name_without_value_is_a_runtime_error() {
    let mut env = Environment::new();
    env.define("a".to_string(), None);
    assert_eq!(
        var("a").eval(&mut env, &never),
        runtime_error("Variable \"a\" accessed before definition")
    );
}

#[test]
fn reading_gives_the_nearest_binding() {
    let mut env = Environment::new();
    env.define("a".to_string(), Some(number(1.0)));
    env.enter_scope();
    env.define("a".to_string(), Some(number(2.0)));
    assert_eq!(var("a").eval(&mut env, &never), number(2.0));
}

#[test]
fn operands_are_evaluated_left_first() {
    // a = 1, then a + (a = 5): the left operand is read before the assignment
    let mut env = Environment::new();
    env.define("a".to_string(), Some(number(1.0)));
    let e = binop(var("a"), BinaryOp::Plus, assign("a", num(5.0)));
    assert_eq!(e.eval(&mut env, &arith), number(6.0));
    let e = binop(assign("a", num(2.0)), BinaryOp::Plus, var("a"));
    assert_eq!(e.eval(&mut env, &arith), number(4.0));
}

#[test]
fn grouping_gives_its_inner_value() {
    let mut env = Environment::new();
    let e = binop(
        Expr::Grouping(Box::new(binop(num(1.0), BinaryOp::Plus, num(2.0)))),
        BinaryOp::Times,
        num(3.0),
    );
    assert_eq!(e.eval(&mut env, &arith), number(9.0));
}

#[test]
fn unary_operators() {
    let mut env = Environment::new();
    assert_eq!(Expr::Unary(UnaryOp::Negate, Box::new(num(2.0))).eval(&mut env, &never), number(-2.0));
    assert_eq!(Expr::Unary(UnaryOp::Not, Box::new(truth(true))).eval(&mut env, &never), ExprEval::Bool(false));
    assert_eq!(
        Expr::Unary(UnaryOp::Not, Box::new(num(1.0))).eval(&mut env, &never),
        type_error("Can't apply ! to Number")
    );
}

#[test]
fn a_type_error_poisons_what_is_built_on_it() {
    let mut env = Environment::new();
    let bad = binop(num(1.0), BinaryOp::Plus, truth(true));
    let e = Expr::Unary(UnaryOp::Negate, Box::new(bad));
    assert_eq!(e.eval(&mut env, &arith), type_error("Can't add Number and Bool"));
    let bad = binop(num(1.0), BinaryOp::Plus, truth(true));
    let e = binop(bad, BinaryOp::Times, num(2.0));
    assert_eq!(e.eval(&mut env, &arith), type_error("Can't multiply RuntimeTypeError and Number"));
}

#[test]
fn false_and_does_not_evaluate_its_right_operand() {
    let mut env = Environment::new();
    env.define("a".to_string(), Some(number(1.0)));
    let right = binop(assign("a", num(2.0)), BinaryOp::Div, num(0.0));
    let e = logical(truth(false), LogicalOp::And, right);
    assert_eq!(e.eval(&mut env, &never), ExprEval::Bool(false));
    assert_eq!(env.get("a").unwrap(), &Some(number(1.0)));
}

#[test]
fn true_or_does_not_evaluate_its_right_operand() {
    let mut env = Environment::new();
    env.define("a".to_string(), Some(number(1.0)));
    let e = logical(truth(true), LogicalOp::Or, assign("a", num(2.0)));
    assert_eq!(e.eval(&mut env, &never), ExprEval::Bool(true));
    assert_eq!(env.get("a").unwrap(), &Some(number(1.0)));
}

#[test]
fn logical_operators_give_the_right_operand_where_the_left_does_not_decide() {
    let mut env = Environment::new();
    assert_eq!(logical(truth(true), LogicalOp::And, truth(false)).eval(&mut env, &never), ExprEval::Bool(false));
    assert_eq!(logical(truth(true), LogicalOp::And, truth(true)).eval(&mut env, &never), ExprEval::Bool(true));
    assert_eq!(logical(truth(false), LogicalOp::Or, truth(true)).eval(&mut env, &never), ExprEval::Bool(true));
    assert_eq!(logical(truth(false), LogicalOp::Or, truth(false)).eval(&mut env, &never), ExprEval::Bool(false));
}

#[test]
fn logical_operators_need_truth_values() {
    let mut env = Environment::new();
    let message = "Logical operator applied to non-boolean value";
    assert_eq!(logical(num(1.0), LogicalOp::And, truth(true)).eval(&mut env, &never), type_error(message));
    assert_eq!(logical(truth(true), LogicalOp::And, num(1.0)).eval(&mut env, &never), type_error(message));
    assert_eq!(logical(truth(false), LogicalOp::Or, Expr::Literal(Literal::Nil)).eval(&mut env, &never), type_error(message));
    assert_eq!(logical(text("a"), LogicalOp::Or, truth(true)).eval(&mut env, &never), type_error(message));
}

#[test]
fn a_left_operand_that_is_no_truth_value_skips_the_right_one() {
    let mut env = Environment::new();
    env.define("a".to_string(), Some(number(1.0)));
    let e = logical(num(1.0), LogicalOp::And, assign("a", num(2.0)));
    assert!(matches!(e.eval(&mut env, &never), ExprEval::RuntimeTypeError(_)));
    assert_eq!(env.get("a").unwrap(), &Some(number(1.0)));
}

#[test]
fn assignment_gives_the_value_and_updates_the_variable() {
    let mut env = Environment::new();
    env.define("a".to_string(), None);
    assert_eq!(assign("a", num(3.0)).eval(&mut env, &never), number(3.0));
    assert_eq!(env.get("a").unwrap(), &Some(number(3.0)));
}

#[test]
fn assignment_to_an_undeclared_name_is_a_runtime_error() {
    let mut env = Environment::new();
    assert_eq!(
        assign("a", num(3.0)).eval(&mut env, &never),
        runtime_error("Assigned to unknown variable \"a\"")
    );
    assert!(env.get("a").is_err());
}

#[test]
fn declaration_defines_in_the_current_scope() {
    let mut env = Environment::new();
    assert_eq!(declare("a", Some(num(1.0))).eval(&mut env, &never), ExprEval::Nil);
    assert_eq!(declare("b", None).eval(&mut env, &never), ExprEval::Nil);
    assert_eq!(env.get("a").unwrap(), &Some(number(1.0)));
    assert_eq!(env.get("b").unwrap(), &None);
}

#[test]
fn print_records_and_gives_its_value() {
    let mut env = Environment::new();
    let s = Statement::Print(binop(num(1.0), BinaryOp::Plus, num(2.0)));
    assert_eq!(s.eval(&mut env, &arith), number(3.0));
    assert_eq!(env.output(), &vec![number(3.0)]);
}

#[test]
fn print_of_an_error_prints_the_error() {
    let mut env = Environment::new();
    let s = Statement::Print(var("ghost"));
    assert_eq!(s.eval(&mut env, &never), runtime_error("Unknown variable \"ghost\""));
    assert_eq!(env.output(), &vec![runtime_error("Unknown variable \"ghost\"")]);
}

#[test]
fn expression_statement_gives_its_value_and_prints_nothing() {
    let mut env = Environment::new();
    assert_eq!(Statement::Expr(num(1.0)).eval(&mut env, &never), number(1.0));
    assert!(env.output().is_empty());
}

#[test]
fn block_brackets_its_body_with_a_scope() {
    let mut env = Environment::new();
    env.define("a".to_string(), Some(number(1.0)));
    let block = Statement::Block(vec![
        declare("a", Some(num(2.0))),
        declare("b", Some(num(3.0))),
        print(var("a")),
    ]);
    assert_eq!(block.eval(&mut env, &never), ExprEval::Nil);
    assert_eq!(env.output(), &vec![number(2.0)]);
    assert_eq!(env.depth(), 1);
    assert_eq!(env.get("a").unwrap(), &Some(number(1.0)));
    assert!(env.get("b").is_err());
}

#[test]
fn if_runs_the_branch_its_condition_picks() {
    let mut env = Environment::new();
    let pick = |c: Expr| Statement::IfElse(
        c,
        Box::new(Statement::Print(text("then"))),
        Box::new(Some(Statement::Print(text("else")))),
    );
    assert_eq!(pick(truth(true)).eval(&mut env, &never), ExprEval::String("then".to_string()));
    assert_eq!(pick(truth(false)).eval(&mut env, &never), ExprEval::String("else".to_string()));
    assert_eq!(
        env.output(),
        &vec![ExprEval::String("then".to_string()), ExprEval::String("else".to_string())]
    );
}

#[test]
fn if_without_else_gives_nil_where_the_condition_is_false() {
    let mut env = Environment::new();
    let s = Statement::IfElse(truth(false), Box::new(Statement::Print(num(1.0))), Box::new(None));
    assert_eq!(s.eval(&mut env, &never), ExprEval::Nil);
    assert!(env.output().is_empty());
}

#[test]
fn if_needs_a_truth_value_and_runs_no_branch_without() {
    let mut env = Environment::new();
    let s = Statement::IfElse(
        num(1.0),
        Box::new(Statement::Print(text("then"))),
        Box::new(Some(Statement::Print(text("else")))),
    );
    assert_eq!(
        s.eval(&mut env, &never),
        type_error("Expression in conditional didn't evaluate to a bool")
    );
    assert!(env.output().is_empty());
}

#[test]
fn program_runs_in_order_and_gives_nil() {
    let mut env = Environment::new();
    let program = vec![
        declare("a", Some(num(1.0))),
        print(var("a")),
        Declaration::Statement(Statement::Expr(assign("a", num(2.0)))),
        print(var("a")),
    ];
    assert_eq!(eval_program(&program, &mut env, &never), ExprEval::Nil);
    assert_eq!(env.output(), &vec![number(1.0), number(2.0)]);
}

#[test]
fn every_node_can_be_evaluated_through_the_trait() {
    fn run<T: Eval>(node: &T, env: &mut Environment) -> ExprEval {
        Eval::eval(node, env, &arith)
    }
    let mut env = Environment::new();
    assert_eq!(run(&Literal::Nil, &mut env), ExprEval::Nil);
    assert_eq!(run(&binop(num(1.0), BinaryOp::Plus, num(2.0)), &mut env), number(3.0));
    assert_eq!(run(&Statement::Print(num(1.0)), &mut env), number(1.0));
    assert_eq!(run(&declare("a", None), &mut env), ExprEval::Nil);
    assert_eq!(run(&vec![print(num(2.0))], &mut env), ExprEval::Nil);
    assert_eq!(env.output(), &vec![number(1.0), number(2.0)]);
}
