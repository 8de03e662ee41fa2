//! The evaluator: walks the tree against an environment.
//!
//! Each `eval` computes exactly the meaning that [`crate::semantics`] gives
//! its node. It never fails: what goes wrong comes back as an error value.
//! The arithmetic on two numbers is done by the function the caller hands
//! in, on bit patterns.
use vstd::prelude::*;
use vstd::string::StringExecFns;
use crate::environment::{holder_holds, Environment};
use crate::program::{block_view, declaration_views, BinaryOp, Declaration, Expr, Literal, LogicalOp, Program, Statement};
use crate::semantics;
use crate::semantics::Evaluated;
use crate::text::append;
use crate::value::{calculator, computes_any, computes_as_function, ExprEval, Value};

verus! {

/// The runtime error whose message is `before`, `name` and `after`.
fn name_error(before: &str, name: &str, after: &str) -> (r: ExprEval)
    ensures
        r@ == Value::RuntimeError(before@ + name@ + after@),
{
    let mut msg = String::from_str(before);
    msg = append(msg, name);
    msg = append(msg, after);
    ExprEval::RuntimeError(msg)
}

/// Whether `value` and the environment `after` are what `expected` says.
pub open spec fn yields(value: ExprEval, after: &Environment, expected: Evaluated) -> bool {
    value@ == expected.value && after@ == expected.env
}

impl Literal {
    /// The value of the literal; an identifier is looked up in
    /// `environment`.
    pub fn eval(&self, environment: &Environment) -> (r: ExprEval)
        ensures
            r@ == semantics::literal(self@, environment@),
    {
        match self {
            Literal::Number(bits) => ExprEval::Number(*bits),
            Literal::String(s) => ExprEval::String(s.clone()),
            Literal::True => ExprEval::Bool(true),
            Literal::False => ExprEval::Bool(false),
            Literal::Nil => ExprEval::Nil,
            Literal::Identifier(name) => match environment.get(name.as_str()) {
                Ok(Some(value)) => value.clone(),
                Ok(None) => name_error("Variable \"", name.as_str(), "\" accessed before definition"),
                Err(_) => name_error("Unknown variable \"", name.as_str(), "\""),
            },
        }
    }
}

impl Expr {
    /// Evaluates the expression in `environment`, with `arith` for the
    /// arithmetic on two numbers.
    pub fn eval<A: Fn(BinaryOp, u64, u64) -> u64>(&self, environment: &mut Environment, arith: &A) -> (r:
        ExprEval)
        requires
            computes_any(*arith),
        ensures
            final(environment)@.scopes.len() == old(environment)@.scopes.len(),
            final(environment)@.printed == old(environment)@.printed,
            computes_as_function(*arith) ==> yields(
                r,
                final(environment),
                semantics::expression(calculator(*arith), self@, old(environment)@),
            ),
        decreases self@,
    {
        match self {
            Expr::Literal(literal) => literal.eval(environment),
            Expr::Grouping(inner) => inner.eval(environment, arith),
            Expr::Unary(op, operand) => {
                let value = operand.eval(environment, arith);
                value.prefixed(*op)
            },
            Expr::Binary(lhs, op, rhs) => {
                let left = lhs.eval(environment, arith);
                let right = rhs.eval(environment, arith);
                ExprEval::binary(*op, left, right, arith)
            },
            Expr::Logical(lhs, op, rhs) => {
                let left = lhs.eval(environment, arith);
                let skip = match (op, &left) {
                    (LogicalOp::Or, ExprEval::Bool(b)) => *b,
                    (LogicalOp::And, ExprEval::Bool(b)) => !*b,
                    _ => true,
                };
                if skip {
                    match left {
                        ExprEval::Bool(b) => ExprEval::Bool(b),
                        _ => ExprEval::RuntimeTypeError(
                            String::from_str("Logical operator applied to non-boolean value"),
                        ),
                    }
                } else {
                    match rhs.eval(environment, arith) {
                        ExprEval::Bool(b) => ExprEval::Bool(b),
                        _ => ExprEval::RuntimeTypeError(
                            String::from_str("Logical operator applied to non-boolean value"),
                        ),
                    }
                }
            },
            Expr::Assignment(name, value) => {
                let right = value.eval(environment, arith);
                proof {
                    holder_holds(environment@.scopes, name@, environment@.scopes.len() - 1);
                }
                if environment.assign(name.clone(), Some(right.clone())) {
                    right
                } else {
                    name_error("Assigned to unknown variable \"", name.as_str(), "\"")
                }
            },
        }
    }
}

impl Statement {
    /// Runs the statement in `environment`, with `arith` for the arithmetic
    /// on two numbers. What `print` prints is recorded in the environment.
    pub fn eval<A: Fn(BinaryOp, u64, u64) -> u64>(&self, environment: &mut Environment, arith: &A) -> (r:
        ExprEval)
        requires
            computes_any(*arith),
        ensures
            final(environment)@.scopes.len() == old(environment)@.scopes.len(),
            old(environment)@.printed.is_prefix_of(final(environment)@.printed),
            computes_as_function(*arith) ==> yields(
                r,
                final(environment),
                semantics::statement(calculator(*arith), self@, old(environment)@),
            ),
        decreases self@, 0nat,
    {
        match self {
            Statement::Expr(e) => e.eval(environment, arith),
            Statement::Print(e) => {
                let shown = e.eval(environment, arith);
                environment.print(shown.clone());
                shown
            },
            Statement::Block(body) => {
                proof {
                    block_view(*body);
                    environment.always_well_formed();
                }
                environment.enter_scope();
                let ghost entered = environment@;
                let ghost views = declaration_views(body@);
                let mut i: usize = 0;
                while i < body.len()
                    invariant
                        i <= body.len(),
                        computes_any(*arith),
                        environment@.scopes.len() == entered.scopes.len(),
                        old(environment)@.printed.is_prefix_of(environment@.printed),
                        self@ == crate::program::StatementView::Block(views),
                        views == declaration_views(body@),
                        computes_as_function(*arith) ==> semantics::declarations(
                            calculator(*arith),
                            views,
                            i as int,
                            environment@,
                        ) == semantics::declarations(calculator(*arith), views, 0, entered),
                    decreases body.len() - i,
                {
                    proof {
                        assert(views[i as int] == body[i as int]@);
                        assert(decreases_to!(self@ => self@->Block_0));
                        assert(decreases_to!(self@->Block_0 => self@->Block_0[i as int]));
                    }
                    body[i].eval(environment, arith);
                    i += 1;
                }
                environment.exit_scope();
                ExprEval::Nil
            },
            Statement::IfElse(condition, then_branch, else_branch) => {
                match condition.eval(environment, arith) {
                    ExprEval::Bool(true) => then_branch.eval(environment, arith),
                    ExprEval::Bool(false) => match &**else_branch {
                        Some(otherwise) => otherwise.eval(environment, arith),
                        None => ExprEval::Nil,
                    },
                    _ => ExprEval::RuntimeTypeError(
                        String::from_str("Expression in conditional didn't evaluate to a bool"),
                    ),
                }
            },
        }
    }
}

impl Declaration {
    /// Runs the declaration in `environment`, with `arith` for the
    /// arithmetic on two numbers.
    pub fn eval<A: Fn(BinaryOp, u64, u64) -> u64>(&self, environment: &mut Environment, arith: &A) -> (r:
        ExprEval)
        requires
            computes_any(*arith),
        ensures
            final(environment)@.scopes.len() == old(environment)@.scopes.len(),
            old(environment)@.printed.is_prefix_of(final(environment)@.printed),
            computes_as_function(*arith) ==> yields(
                r,
                final(environment),
                semantics::declaration(calculator(*arith), self@, old(environment)@),
            ),
        decreases self@, 0nat,
    {
        match self {
            Declaration::Variable { identifier, value } => {
                match value {
                    Some(initializer) => {
                        let initial = initializer.eval(environment, arith);
                        proof {
                            environment.always_well_formed();
                        }
                        environment.define(identifier.clone(), Some(initial));
                    },
                    None => {
                        proof {
                            environment.always_well_formed();
                        }
                        environment.define(identifier.clone(), None);
                    },
                }
                ExprEval::Nil
            },
            Declaration::Statement(s) => s.eval(environment, arith),
        }
    }
}

/// Runs a program in `environment`, with `arith` for the arithmetic on two
/// numbers: its declarations in order. The value of a program is nil.
pub fn eval_program<A: Fn(BinaryOp, u64, u64) -> u64>(
    program: &Program,
    environment: &mut Environment,
    arith: &A,
) -> (r: ExprEval)
    requires
        computes_any(*arith),
    ensures
        r@ == Value::Nil,
        final(environment)@.scopes.len() == old(environment)@.scopes.len(),
        old(environment)@.printed.is_prefix_of(final(environment)@.printed),
        computes_as_function(*arith) ==> yields(
            r,
            final(environment),
            semantics::program(calculator(*arith), declaration_views(program@), old(environment)@),
        ),
{
    let ghost views = declaration_views(program@);
    let mut i: usize = 0;
    while i < program.len()
        invariant
            i <= program.len(),
            computes_any(*arith),
            environment@.scopes.len() == old(environment)@.scopes.len(),
            old(environment)@.printed.is_prefix_of(environment@.printed),
            views == declaration_views(program@),
            computes_as_function(*arith) ==> semantics::declarations(
                calculator(*arith),
                views,
                i as int,
                environment@,
            ) == semantics::declarations(calculator(*arith), views, 0, old(environment)@),
        decreases program.len() - i,
    {
        program[i].eval(environment, arith);
        i += 1;
    }
    ExprEval::Nil
}

/// What can be evaluated in an environment: a program and each kind of
/// node of its tree.
pub trait Eval {
    /// What evaluating means: the value, and the environment left.
    spec fn meaning(
        &self,
        arith: spec_fn(BinaryOp, u64, u64) -> u64,
        env: crate::environment::EnvironmentView,
    ) -> Evaluated;

    /// Evaluates in `environment`, with `arith` for the arithmetic on two
    /// numbers.
    fn eval<A: Fn(BinaryOp, u64, u64) -> u64>(&self, environment: &mut Environment, arith: &A) -> (r:
        ExprEval)
        requires
            computes_any(*arith),
        ensures
            computes_as_function(*arith) ==> yields(
                r,
                final(environment),
                self.meaning(calculator(*arith), old(environment)@),
            ),
    ;
}

impl Eval for Program {
    open spec fn meaning(
        &self,
        arith: spec_fn(BinaryOp, u64, u64) -> u64,
        env: crate::environment::EnvironmentView,
    ) -> Evaluated {
        semantics::program(arith, declaration_views(self@), env)
    }

    fn eval<A: Fn(BinaryOp, u64, u64) -> u64>(&self, environment: &mut Environment, arith: &A) -> (r:
        ExprEval) {
        eval_program(self, environment, arith)
    }
}

impl Eval for Declaration {
    open spec fn meaning(
        &self,
        arith: spec_fn(BinaryOp, u64, u64) -> u64,
        env: crate::environment::EnvironmentView,
    ) -> Evaluated {
        semantics::declaration(arith, self@, env)
    }

    fn eval<A: Fn(BinaryOp, u64, u64) -> u64>(&self, environment: &mut Environment, arith: &A) -> (r:
        ExprEval) {
        Declaration::eval(self, environment, arith)
    }
}

impl Eval for Statement {
    open spec fn meaning(
        &self,
        arith: spec_fn(BinaryOp, u64, u64) -> u64,
        env: crate::environment::EnvironmentView,
    ) -> Evaluated {
        semantics::statement(arith, self@, env)
    }

    fn eval<A: Fn(BinaryOp, u64, u64) -> u64>(&self, environment: &mut Environment, arith: &A) -> (r:
        ExprEval) {
        Statement::eval(self, environment, arith)
    }
}

impl Eval for Expr {
    open spec fn meaning(
        &self,
        arith: spec_fn(BinaryOp, u64, u64) -> u64,
        env: crate::environment::EnvironmentView,
    ) -> Evaluated {
        semantics::expression(arith, self@, env)
    }

    fn eval<A: Fn(BinaryOp, u64, u64) -> u64>(&self, environment: &mut Environment, arith: &A) -> (r:
        ExprEval) {
        Expr::eval(self, environment, arith)
    }
}

impl Eval for Literal {
    open spec fn meaning(
        &self,
        arith: spec_fn(BinaryOp, u64, u64) -> u64,
        env: crate::environment::EnvironmentView,
    ) -> Evaluated {
        Evaluated { value: semantics::literal(self@, env), env }
    }

    fn eval<A: Fn(BinaryOp, u64, u64) -> u64>(&self, environment: &mut Environment, arith: &A) -> (r:
        ExprEval) {
        Literal::eval(self, environment)
    }
}

} // verus!
