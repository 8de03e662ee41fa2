//! What programs mean.
//!
//! The meaning of an expression, a statement or a declaration is a function
//! of the tree and the environment it runs in: the value it gives and the
//! environment it leaves. The four operations of arithmetic on numbers are
//! a parameter, `arith`; everything else is laid down here.
use vstd::prelude::*;
use crate::environment::EnvironmentView;
use crate::program::{BinaryOp, DeclarationView, ExprView, LiteralView, LogicalOp, StatementView};
use crate::value::{binary, prefixed, Value};

verus! {

/// A value, and the environment left by computing it.
pub struct Evaluated {
    pub value: Value,
    pub env: EnvironmentView,
}

/// The message of the error for reading a name that no scope declares.
pub open spec fn unknown_variable(name: Seq<char>) -> Seq<char> {
    "Unknown variable \""@ + name + "\""@
}

/// The message of the error for reading a name that has no value yet.
pub open spec fn unset_variable(name: Seq<char>) -> Seq<char> {
    "Variable \""@ + name + "\" accessed before definition"@
}

/// The message of the error for assigning to a name that no scope declares.
pub open spec fn unknown_target(name: Seq<char>) -> Seq<char> {
    "Assigned to unknown variable \""@ + name + "\""@
}

/// The message of the error for `and` or `or` on a value that is no truth
/// value.
pub open spec fn not_boolean() -> Seq<char> {
    "Logical operator applied to non-boolean value"@
}

/// The message of the error for a condition that is no truth value.
pub open spec fn not_a_condition() -> Seq<char> {
    "Expression in conditional didn't evaluate to a bool"@
}

/// The value of a literal. An identifier gives what the innermost scope
/// that declares it binds it to, and a runtime error if no scope declares
/// it or it has no value yet.
pub open spec fn literal(l: LiteralView, env: EnvironmentView) -> Value {
    match l {
        LiteralView::Number(bits) => Value::Number(bits),
        LiteralView::String(s) => Value::String(s),
        LiteralView::True => Value::Bool(true),
        LiteralView::False => Value::Bool(false),
        LiteralView::Nil => Value::Nil,
        LiteralView::Identifier(name) => match env.lookup(name) {
            Some(Some(v)) => v,
            Some(None) => Value::RuntimeError(unset_variable(name)),
            None => Value::RuntimeError(unknown_variable(name)),
        },
    }
}

/// Whether the left operand alone decides `left op ..`: `true or ..` and
/// `false and ..` do not look at the right operand, and neither does a left
/// operand that is no truth value.
pub open spec fn decided(op: LogicalOp, left: Value) -> bool {
    match left {
        Value::Bool(b) => (op == LogicalOp::Or) == b,
        _ => true,
    }
}

/// The value of `left op ..` where the left operand decides it.
pub open spec fn short_circuit(left: Value) -> Value {
    match left {
        Value::Bool(b) => Value::Bool(b),
        _ => Value::RuntimeTypeError(not_boolean()),
    }
}

/// The value of `left op right` where the left operand does not decide it:
/// the right operand, which has to be a truth value.
pub open spec fn concluded(right: Value) -> Value {
    match right {
        Value::Bool(b) => Value::Bool(b),
        _ => Value::RuntimeTypeError(not_boolean()),
    }
}

/// The meaning of an expression. Operands are evaluated from left to
/// right; `and` and `or` evaluate their right operand only where the left
/// one does not decide.
pub open spec fn expression(
    arith: spec_fn(BinaryOp, u64, u64) -> u64,
    e: ExprView,
    env: EnvironmentView,
) -> Evaluated
    decreases e,
{
    match e {
        ExprView::Literal(l) => Evaluated { value: literal(l, env), env },
        ExprView::Grouping(inner) => expression(arith, *inner, env),
        ExprView::Unary(op, operand) => {
            let inner = expression(arith, *operand, env);
            Evaluated { value: prefixed(op, inner.value), env: inner.env }
        },
        ExprView::Binary(lhs, op, rhs) => {
            let left = expression(arith, *lhs, env);
            let right = expression(arith, *rhs, left.env);
            Evaluated { value: binary(arith, op, left.value, right.value), env: right.env }
        },
        ExprView::Logical(lhs, op, rhs) => {
            let left = expression(arith, *lhs, env);
            if decided(op, left.value) {
                Evaluated { value: short_circuit(left.value), env: left.env }
            } else {
                let right = expression(arith, *rhs, left.env);
                Evaluated { value: concluded(right.value), env: right.env }
            }
        },
        ExprView::Assignment(name, value) => {
            let right = expression(arith, *value, env);
            if right.env.declares(name) {
                Evaluated {
                    value: right.value,
                    env: right.env.assign(name, Some(right.value)),
                }
            } else {
                Evaluated { value: Value::RuntimeError(unknown_target(name)), env: right.env }
            }
        },
    }
}

/// The meaning of a statement.
pub open spec fn statement(
    arith: spec_fn(BinaryOp, u64, u64) -> u64,
    s: StatementView,
    env: EnvironmentView,
) -> Evaluated
    decreases s, 0nat,
{
    match s {
        StatementView::Expr(e) => expression(arith, e, env),
        StatementView::Print(e) => {
            let shown = expression(arith, e, env);
            Evaluated { value: shown.value, env: shown.env.print(shown.value) }
        },
        StatementView::Block(body) => Evaluated {
            value: Value::Nil,
            env: declarations(arith, body, 0, env.enter()).exit(),
        },
        StatementView::IfElse(condition, then_branch, else_branch) => {
            let tested = expression(arith, condition, env);
            match tested.value {
                Value::Bool(true) => statement(arith, *then_branch, tested.env),
                Value::Bool(false) => match else_branch {
                    Some(otherwise) => statement(arith, *otherwise, tested.env),
                    None => Evaluated { value: Value::Nil, env: tested.env },
                },
                _ => Evaluated {
                    value: Value::RuntimeTypeError(not_a_condition()),
                    env: tested.env,
                },
            }
        },
    }
}

/// The meaning of a declaration.
pub open spec fn declaration(
    arith: spec_fn(BinaryOp, u64, u64) -> u64,
    d: DeclarationView,
    env: EnvironmentView,
) -> Evaluated
    decreases d, 0nat,
{
    match d {
        DeclarationView::Variable { identifier, value: Some(initializer) } => {
            let initial = expression(arith, initializer, env);
            Evaluated {
                value: Value::Nil,
                env: initial.env.define(identifier, Some(initial.value)),
            }
        },
        DeclarationView::Variable { identifier, value: None } => Evaluated {
            value: Value::Nil,
            env: env.define(identifier, None),
        },
        DeclarationView::Statement(s) => statement(arith, s, env),
    }
}

/// The environment left by the declarations `body[from..]`, run in order.
pub open spec fn declarations(
    arith: spec_fn(BinaryOp, u64, u64) -> u64,
    body: Seq<DeclarationView>,
    from: int,
    env: EnvironmentView,
) -> EnvironmentView
    decreases body, body.len() - from,
{
    if 0 <= from < body.len() {
        declarations(arith, body, from + 1, declaration(arith, body[from], env).env)
    } else {
        env
    }
}

/// The meaning of a program: its declarations run in order; its value is
/// nil.
pub open spec fn program(
    arith: spec_fn(BinaryOp, u64, u64) -> u64,
    body: Seq<DeclarationView>,
    env: EnvironmentView,
) -> Evaluated {
    Evaluated { value: Value::Nil, env: declarations(arith, body, 0, env) }
}

/// Reading a name that no scope declares gives a runtime error, and
/// leaves the environment as it was.
pub proof fn undeclared_read_is_an_error(
    arith: spec_fn(BinaryOp, u64, u64) -> u64,
    name: Seq<char>,
    env: EnvironmentView,
)
    requires
        !env.declares(name),
    ensures
        expression(arith, ExprView::Literal(LiteralView::Identifier(name)), env) == (Evaluated {
            value: Value::RuntimeError(unknown_variable(name)),
            env,
        }),
{
}

/// Reading a name gives a runtime error exactly when no scope declares it
/// or the innermost scope that does has no value for it; otherwise it gives
/// the value bound there.
pub proof fn read_gives_the_nearest_binding(
    arith: spec_fn(BinaryOp, u64, u64) -> u64,
    name: Seq<char>,
    env: EnvironmentView,
)
    ensures
        ({
            let read = expression(arith, ExprView::Literal(LiteralView::Identifier(name)), env);
            &&& read.env == env
            &&& env.lookup(name) matches Some(Some(v)) ==> read.value == v
            &&& !(env.lookup(name) matches Some(Some(_))) ==> read.value is RuntimeError
        }),
{
}

/// `and` with a left operand that is false does not look at its right
/// operand: the value is false and the environment is the one the left
/// operand leaves, whatever the right operand is.
pub proof fn false_and_skips_the_right_operand(
    arith: spec_fn(BinaryOp, u64, u64) -> u64,
    lhs: ExprView,
    rhs: ExprView,
    env: EnvironmentView,
)
    requires
        expression(arith, lhs, env).value == Value::Bool(false),
    ensures
        expression(arith, ExprView::Logical(Box::new(lhs), LogicalOp::And, Box::new(rhs)), env) == (
        Evaluated { value: Value::Bool(false), env: expression(arith, lhs, env).env }),
{
}

/// `or` with a left operand that is true does not look at its right
/// operand: the value is true and the environment is the one the left
/// operand leaves, whatever the right operand is.
pub proof fn true_or_skips_the_right_operand(
    arith: spec_fn(BinaryOp, u64, u64) -> u64,
    lhs: ExprView,
    rhs: ExprView,
    env: EnvironmentView,
)
    requires
        expression(arith, lhs, env).value == Value::Bool(true),
    ensures
        expression(arith, ExprView::Logical(Box::new(lhs), LogicalOp::Or, Box::new(rhs)), env) == (
        Evaluated { value: Value::Bool(true), env: expression(arith, lhs, env).env }),
{
}

/// A condition that is no truth value runs neither branch: the value is a
/// type error and the environment is the one the condition leaves.
pub proof fn bad_condition_runs_no_branch(
    arith: spec_fn(BinaryOp, u64, u64) -> u64,
    condition: ExprView,
    then_branch: StatementView,
    else_branch: Option<Box<StatementView>>,
    env: EnvironmentView,
)
    requires
        !(expression(arith, condition, env).value is Bool),
    ensures
        statement(arith, StatementView::IfElse(condition, Box::new(then_branch), else_branch), env)
            == (Evaluated {
            value: Value::RuntimeTypeError(not_a_condition()),
            env: expression(arith, condition, env).env,
        }),
{
}

/// A block leaves as many scopes as it found: what it declares is gone
/// when it ends.
pub proof fn block_restores_the_depth(
    arith: spec_fn(BinaryOp, u64, u64) -> u64,
    body: Seq<DeclarationView>,
    env: EnvironmentView,
)
    requires
        env.well_formed(),
    ensures
        statement(arith, StatementView::Block(body), env).env.scopes.len() == env.scopes.len(),
{
    declarations_keep_the_depth(arith, body, 0, env.enter());
}

/// Evaluating an expression leaves as many scopes as it found.
pub proof fn expression_keeps_the_depth(
    arith: spec_fn(BinaryOp, u64, u64) -> u64,
    e: ExprView,
    env: EnvironmentView,
)
    requires
        env.well_formed(),
    ensures
        expression(arith, e, env).env.scopes.len() == env.scopes.len(),
    decreases e,
{
    match e {
        ExprView::Literal(_) => {},
        ExprView::Grouping(inner) => {
            expression_keeps_the_depth(arith, *inner, env);
        },
        ExprView::Unary(_, operand) => {
            expression_keeps_the_depth(arith, *operand, env);
        },
        ExprView::Binary(lhs, _, rhs) => {
            expression_keeps_the_depth(arith, *lhs, env);
            expression_keeps_the_depth(arith, *rhs, expression(arith, *lhs, env).env);
        },
        ExprView::Logical(lhs, _, rhs) => {
            expression_keeps_the_depth(arith, *lhs, env);
            expression_keeps_the_depth(arith, *rhs, expression(arith, *lhs, env).env);
        },
        ExprView::Assignment(name, value) => {
            expression_keeps_the_depth(arith, *value, env);
            let right = expression(arith, *value, env).env;
            crate::environment::holder_holds(right.scopes, name, right.scopes.len() - 1);
        },
    }
}

/// Running a statement leaves as many scopes as it found.
pub proof fn statement_keeps_the_depth(
    arith: spec_fn(BinaryOp, u64, u64) -> u64,
    s: StatementView,
    env: EnvironmentView,
)
    requires
        env.well_formed(),
    ensures
        statement(arith, s, env).env.scopes.len() == env.scopes.len(),
    decreases s, 0nat,
{
    match s {
        StatementView::Expr(e) => {
            expression_keeps_the_depth(arith, e, env);
        },
        StatementView::Print(e) => {
            expression_keeps_the_depth(arith, e, env);
        },
        StatementView::Block(body) => {
            declarations_keep_the_depth(arith, body, 0, env.enter());
        },
        StatementView::IfElse(condition, then_branch, else_branch) => {
            expression_keeps_the_depth(arith, condition, env);
            let tested = expression(arith, condition, env);
            match tested.value {
                Value::Bool(true) => {
                    statement_keeps_the_depth(arith, *then_branch, tested.env);
                },
                Value::Bool(false) => match else_branch {
                    Some(otherwise) => {
                        statement_keeps_the_depth(arith, *otherwise, tested.env);
                    },
                    None => {},
                },
                _ => {},
            }
        },
    }
}

/// Running a declaration leaves as many scopes as it found.
pub proof fn declaration_keeps_the_depth(
    arith: spec_fn(BinaryOp, u64, u64) -> u64,
    d: DeclarationView,
    env: EnvironmentView,
)
    requires
        env.well_formed(),
    ensures
        declaration(arith, d, env).env.scopes.len() == env.scopes.len(),
    decreases d, 0nat,
{
    match d {
        DeclarationView::Variable { identifier, value: Some(initializer) } => {
            expression_keeps_the_depth(arith, initializer, env);
        },
        DeclarationView::Variable { identifier, value: None } => {},
        DeclarationView::Statement(s) => {
            statement_keeps_the_depth(arith, s, env);
        },
    }
}

/// Running declarations in order leaves as many scopes as it found.
pub proof fn declarations_keep_the_depth(
    arith: spec_fn(BinaryOp, u64, u64) -> u64,
    body: Seq<DeclarationView>,
    from: int,
    env: EnvironmentView,
)
    requires
        env.well_formed(),
    ensures
        declarations(arith, body, from, env).scopes.len() == env.scopes.len(),
    decreases body, body.len() - from,
{
    if 0 <= from < body.len() {
        declaration_keeps_the_depth(arith, body[from], env);
        declarations_keep_the_depth(arith, body, from + 1, declaration(arith, body[from], env).env);
    }
}

} // verus!
