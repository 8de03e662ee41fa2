//! The environment: scopes, shadowing and assignment.
use lox::environment::Environment;
use lox::error::Error;
use lox::value::ExprEval;

fn number(x: f64) -> ExprEval {
    ExprEval::Number(x.to_bits())
}

#[test]
fn a_fresh_environment_has_the_global_scope() {
    let env = Environment::new();
    assert_eq!(env.depth(), 1);
    assert!(env.output().is_empty());
    assert!(env.get("a").is_err());
}

#[test]
fn define_then_get() {
    let mut env = Environment::new();
    env.define("a".to_string(), Some(number(1.0)));
    env.define("b".to_string(), None);
    assert_eq!(env.get("a").unwrap(), &Some(number(1.0)));
    assert_eq!(env.get("b").unwrap(), &None);
}

#[test]
fn get_of_an_undeclared_name_fails() {
    let env = Environment::new();
    match env.get("nope") {
        Err(e) => match *e {
            Error::ParseError(ref m) => assert_eq!(m, "Undefined variable access \"nope\""),
            ref other => panic!("{:?}", other),
        },
        Ok(v) => panic!("{:?}", v),
    }
}

#[test]
fn define_again_overwrites_in_the_same_scope() {
    let mut env = Environment::new();
    env.define("a".to_string(), Some(number(1.0)));
    env.define("a".to_string(), Some(number(2.0)));
    assert_eq!(env.get("a").unwrap(), &Some(number(2.0)));
    env.define("a".to_string(), None);
    assert_eq!(env.get("a").unwrap(), &None);
}

#[test]
fn inner_scope_shadows_and_exit_restores() {
    let mut env = Environment::new();
    env.define("a".to_string(), Some(number(1.0)));
    env.enter_scope();
    assert_eq!(env.depth(), 2);
    assert_eq!(env.get("a").unwrap(), &Some(number(1.0)));
    env.define("a".to_string(), Some(number(2.0)));
    assert_eq!(env.get("a").unwrap(), &Some(number(2.0)));
    env.exit_scope();
    assert_eq!(env.depth(), 1);
    assert_eq!(env.get("a").unwrap(), &Some(number(1.0)));
}

#[test]
fn what_an_inner_scope_declares_is_gone_after_exit() {
    let mut env = Environment::new();
    env.enter_scope();
    env.define("x".to_string(), Some(number(1.0)));
    env.exit_scope();
    assert!(env.get("x").is_err());
}

#[test]
fn assign_updates_the_nearest_declaration() {
    let mut env = Environment::new();
    env.define("a".to_string(), Some(number(1.0)));
    env.define("b".to_string(), Some(number(10.0)));
    env.enter_scope();
    env.define("a".to_string(), Some(number(2.0)));
    env.enter_scope();
    assert!(env.assign("a".to_string(), Some(number(3.0))));
    assert!(env.assign("b".to_string(), Some(number(30.0))));
    assert_eq!(env.get("a").unwrap(), &Some(number(3.0)));
    env.exit_scope();
    assert_eq!(env.get("a").unwrap(), &Some(number(3.0)));
    env.exit_scope();
    assert_eq!(env.get("a").unwrap(), &Some(number(1.0)));
    assert_eq!(env.get("b").unwrap(), &Some(number(30.0)));
}

#[test]
fn assign_never_declares() {
    let mut env = Environment::new();
    env.enter_scope();
    assert!(!env.assign("a".to_string(), Some(number(1.0))));
    assert!(env.get("a").is_err());
    env.exit_scope();
    assert!(env.get("a").is_err());
}

#[test]
fn assign_gives_a_value_to_a_declared_name() {
    let mut env = Environment::new();
    env.define("a".to_string(), None);
    assert!(env.assign("a".to_string(), Some(ExprEval::Nil)));
    assert_eq!(env.get("a").unwrap(), &Some(ExprEval::Nil));
}

#[test]
fn the_global_scope_stays() {
    let mut env = Environment::new();
    env.define("a".to_string(), Some(number(1.0)));
    env.exit_scope();
    env.exit_scope();
    assert_eq!(env.depth(), 1);
    assert_eq!(env.get("a").unwrap(), &Some(number(1.0)));
    env.define("b".to_string(), None);
    assert_eq!(env.get("b").unwrap(), &None);
}

#[test]
fn printed_values_are_kept_in_order() {
    let mut env = Environment::new();
    env.print(number(1.0));
    env.print(ExprEval::String("two".to_string()));
    assert_eq!(env.output(), &vec![number(1.0), ExprEval::String("two".to_string())]);
}
