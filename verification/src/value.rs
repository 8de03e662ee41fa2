//! Runtime values.
//!
//! A value is a number, a string, a truth value, nil, or an error. Errors
//! are values like the others: an operator that cannot take its operands
//! gives one, and whatever is built on it sees it as an operand.
use std::cmp::Ordering;
use vstd::prelude::*;
use vstd::std_specs::cmp::{PartialEqSpecImpl, PartialOrdSpecImpl};
use vstd::string::{StringExecFns, StringSliceAdditionalSpecFns};
use vstd::utf8::encode_utf8;
use crate::number::{equal, less, negate, negated, numerically_equal, precedes};
use crate::program::{BinaryOp, UnaryOp};
use crate::text::{append, compare, lexicographic};

verus! {

/// What an expression evaluates to.
#[derive(Debug)]
pub enum ExprEval {
    /// A number, as the bit pattern of its binary64 value.
    Number(u64),
    String(String),
    Bool(bool),
    Nil,
    /// A variable was misused.
    RuntimeError(String),
    /// An operator was given operands it cannot take.
    RuntimeTypeError(String),
}

/// The mathematical value of an [`ExprEval`].
pub enum Value {
    Number(u64),
    String(Seq<char>),
    Bool(bool),
    Nil,
    RuntimeError(Seq<char>),
    RuntimeTypeError(Seq<char>),
}

impl View for ExprEval {
    type V = Value;

    open spec fn view(&self) -> Value {
        match self {
            ExprEval::Number(bits) => Value::Number(*bits),
            ExprEval::String(s) => Value::String(s@),
            ExprEval::Bool(b) => Value::Bool(*b),
            ExprEval::Nil => Value::Nil,
            ExprEval::RuntimeError(msg) => Value::RuntimeError(msg@),
            ExprEval::RuntimeTypeError(msg) => Value::RuntimeTypeError(msg@),
        }
    }
}

impl Clone for ExprEval {
    fn clone(&self) -> (copy: Self)
        ensures
            copy@ == self@,
    {
        match self {
            ExprEval::Number(bits) => ExprEval::Number(*bits),
            ExprEval::String(s) => ExprEval::String(s.clone()),
            ExprEval::Bool(b) => ExprEval::Bool(*b),
            ExprEval::Nil => ExprEval::Nil,
            ExprEval::RuntimeError(msg) => ExprEval::RuntimeError(msg.clone()),
            ExprEval::RuntimeTypeError(msg) => ExprEval::RuntimeTypeError(msg.clone()),
        }
    }
}

/// Equality of values: of the same kind, and equal within it. Numbers are
/// compared as numbers: a NaN equals nothing, and the two zeros are equal.
pub open spec fn same(a: Value, b: Value) -> bool {
    match (a, b) {
        (Value::Number(x), Value::Number(y)) => numerically_equal(x, y),
        (Value::String(x), Value::String(y)) => x == y,
        (Value::Bool(x), Value::Bool(y)) => x == y,
        (Value::Nil, Value::Nil) => true,
        (Value::RuntimeError(x), Value::RuntimeError(y)) => x == y,
        (Value::RuntimeTypeError(x), Value::RuntimeTypeError(y)) => x == y,
        _ => false,
    }
}

/// How two numbers stand in the total order of their patterns.
pub open spec fn number_ordering(a: u64, b: u64) -> Ordering {
    if precedes(a, b) {
        Ordering::Less
    } else if a == b {
        Ordering::Equal
    } else {
        Ordering::Greater
    }
}

/// How two strings stand in dictionary order, character by character.
pub open spec fn string_ordering(a: Seq<char>, b: Seq<char>) -> Ordering {
    let sign = lexicographic(encode_utf8(a), encode_utf8(b), 0);
    if sign < 0 {
        Ordering::Less
    } else if sign == 0 {
        Ordering::Equal
    } else {
        Ordering::Greater
    }
}

/// How two values stand to each other: two numbers by the total order,
/// two strings by dictionary order, any other two not at all.
pub open spec fn ordering_of(a: Value, b: Value) -> Option<Ordering> {
    match (a, b) {
        (Value::Number(x), Value::Number(y)) => Some(number_ordering(x, y)),
        (Value::String(x), Value::String(y)) => Some(string_ordering(x, y)),
        _ => None,
    }
}

impl PartialEq for ExprEval {
    fn eq(&self, other: &Self) -> (r: bool) {
        match (self, other) {
            (ExprEval::Number(x), ExprEval::Number(y)) => equal(*x, *y),
            (ExprEval::String(x), ExprEval::String(y)) => *x == *y,
            (ExprEval::Bool(x), ExprEval::Bool(y)) => *x == *y,
            (ExprEval::Nil, ExprEval::Nil) => true,
            (ExprEval::RuntimeError(x), ExprEval::RuntimeError(y)) => *x == *y,
            (ExprEval::RuntimeTypeError(x), ExprEval::RuntimeTypeError(y)) => *x == *y,
            _ => false,
        }
    }
}

impl PartialEqSpecImpl for ExprEval {
    open spec fn obeys_eq_spec() -> bool {
        true
    }

    open spec fn eq_spec(&self, other: &Self) -> bool {
        same(self@, other@)
    }
}

/// Tells how two numbers stand in the total order.
fn order_numbers(a: u64, b: u64) -> (r: Ordering)
    ensures
        r == number_ordering(a, b),
{
    if less(a, b) {
        Ordering::Less
    } else if a == b {
        Ordering::Equal
    } else {
        Ordering::Greater
    }
}

/// Tells how two strings stand in dictionary order.
fn order_strings(a: &String, b: &String) -> (r: Ordering)
    ensures
        r == string_ordering(a@, b@),
{
    let sign = compare(a.as_str(), b.as_str());
    if sign < 0 {
        Ordering::Less
    } else if sign == 0 {
        Ordering::Equal
    } else {
        Ordering::Greater
    }
}

impl PartialOrd for ExprEval {
    fn partial_cmp(&self, other: &Self) -> (r: Option<Ordering>) {
        match (self, other) {
            (ExprEval::Number(x), ExprEval::Number(y)) => Some(order_numbers(*x, *y)),
            (ExprEval::String(x), ExprEval::String(y)) => Some(order_strings(x, y)),
            _ => None,
        }
    }
}

impl PartialOrdSpecImpl for ExprEval {
    open spec fn obeys_partial_cmp_spec() -> bool {
        true
    }

    open spec fn partial_cmp_spec(&self, other: &Self) -> Option<Ordering> {
        ordering_of(self@, other@)
    }
}

// ---------------------------------------------------------------------------
// The arithmetic the caller supplies.

/// Whether `arith` may be called on every two numbers with each of the four
/// operators of arithmetic.
pub open spec fn computes_any<A: Fn(BinaryOp, u64, u64) -> u64>(arith: A) -> bool {
    forall|op: BinaryOp, a: u64, b: u64| op.is_arithmetic() ==> call_requires(arith, (op, a, b))
}

/// What `arith` gives for `a op b`.
pub open spec fn computing<A: Fn(BinaryOp, u64, u64) -> u64>(
    arith: A,
    op: BinaryOp,
    a: u64,
    b: u64,
) -> u64 {
    choose|r: u64| call_ensures(arith, (op, a, b), r)
}

/// Whether `arith` is a function of what it is given: two calls on the same
/// operator and numbers give the same result.
pub open spec fn computes_as_function<A: Fn(BinaryOp, u64, u64) -> u64>(arith: A) -> bool {
    forall|op: BinaryOp, a: u64, b: u64, r: u64| #[trigger]
        call_ensures(arith, (op, a, b), r) ==> r == computing(arith, op, a, b)
}

/// `arith` as a function.
pub open spec fn calculator<A: Fn(BinaryOp, u64, u64) -> u64>(arith: A) -> spec_fn(
    BinaryOp,
    u64,
    u64,
) -> u64 {
    |op: BinaryOp, a: u64, b: u64| computing(arith, op, a, b)
}

// ---------------------------------------------------------------------------
// The operators.

/// The name of the kind of a value, as error messages give it.
pub open spec fn kind(v: Value) -> Seq<char> {
    match v {
        Value::Number(_) => "Number"@,
        Value::String(_) => "String"@,
        Value::Bool(_) => "Bool"@,
        Value::Nil => "Nil"@,
        Value::RuntimeError(_) => "RuntimeError"@,
        Value::RuntimeTypeError(_) => "RuntimeTypeError"@,
    }
}

/// The message of the error for a prefix operator on an operand it cannot
/// take.
pub open spec fn cannot_apply(op: UnaryOp, operand: Value) -> Seq<char> {
    "Can't apply "@ + op.spelling() + " to "@ + kind(operand)
}

/// The message of the error for an operator of arithmetic on operands it
/// cannot take.
pub open spec fn cannot_compute(op: BinaryOp, lhs: Value, rhs: Value) -> Seq<char> {
    match op {
        BinaryOp::Minus => "Can't subtract "@ + kind(rhs) + " from "@ + kind(lhs),
        BinaryOp::Times => "Can't multiply "@ + kind(lhs) + " and "@ + kind(rhs),
        BinaryOp::Div => "Can't divide "@ + kind(lhs) + " by "@ + kind(rhs),
        _ => "Can't add "@ + kind(lhs) + " and "@ + kind(rhs),
    }
}

/// What a prefix operator gives: the negated number, the inverted truth
/// value; a type error for any other operand, but a type error that is the
/// operand is handed on as it is.
pub open spec fn prefixed(op: UnaryOp, operand: Value) -> Value {
    match (op, operand) {
        (UnaryOp::Negate, Value::Number(bits)) => Value::Number(negated(bits)),
        (UnaryOp::Not, Value::Bool(b)) => Value::Bool(!b),
        (_, Value::RuntimeTypeError(msg)) => Value::RuntimeTypeError(msg),
        _ => Value::RuntimeTypeError(cannot_apply(op, operand)),
    }
}

/// Whether `lhs op rhs` holds, for `op` one of `<`, `<=`, `>` and `>=`. Two
/// values that do not stand in any order satisfy none of the four.
pub open spec fn compares(op: BinaryOp, lhs: Value, rhs: Value) -> bool {
    match op {
        BinaryOp::Less => ordering_of(lhs, rhs) == Some(Ordering::Less),
        BinaryOp::LessEqual => ordering_of(lhs, rhs) == Some(Ordering::Less) || ordering_of(
            lhs,
            rhs,
        ) == Some(Ordering::Equal),
        BinaryOp::Greater => ordering_of(lhs, rhs) == Some(Ordering::Greater),
        _ => ordering_of(lhs, rhs) == Some(Ordering::Greater) || ordering_of(lhs, rhs) == Some(
            Ordering::Equal,
        ),
    }
}

/// Whether `lhs op rhs` is arithmetic on two numbers, which the caller's
/// arithmetic computes.
pub open spec fn is_numeric(op: BinaryOp, lhs: Value, rhs: Value) -> bool {
    op.is_arithmetic() && lhs is Number && rhs is Number
}

/// What `lhs op rhs` gives, where `reply` is the result of the arithmetic
/// if the two are numbers and `op` is one of its four operators.
pub open spec fn combined(op: BinaryOp, lhs: Value, rhs: Value, reply: u64) -> Value {
    match op {
        BinaryOp::Equal => Value::Bool(same(lhs, rhs)),
        BinaryOp::NotEqual => Value::Bool(!same(lhs, rhs)),
        BinaryOp::Less | BinaryOp::LessEqual | BinaryOp::Greater | BinaryOp::GreaterEqual => Value::Bool(
            compares(op, lhs, rhs),
        ),
        BinaryOp::Plus => match (lhs, rhs) {
            (Value::Number(_), Value::Number(_)) => Value::Number(reply),
            (Value::String(a), Value::String(b)) => Value::String(a + b),
            _ => Value::RuntimeTypeError(cannot_compute(op, lhs, rhs)),
        },
        _ => match (lhs, rhs) {
            (Value::Number(_), Value::Number(_)) => Value::Number(reply),
            _ => Value::RuntimeTypeError(cannot_compute(op, lhs, rhs)),
        },
    }
}

/// What `lhs op rhs` gives under the arithmetic `arith`.
pub open spec fn binary(
    arith: spec_fn(BinaryOp, u64, u64) -> u64,
    op: BinaryOp,
    lhs: Value,
    rhs: Value,
) -> Value {
    combined(
        op,
        lhs,
        rhs,
        match (lhs, rhs) {
            (Value::Number(a), Value::Number(b)) => arith(op, a, b),
            _ => 0,
        },
    )
}

/// `+` adds two numbers and puts two strings one after the other; on any
/// other two operands it gives a type error.
pub proof fn plus_on_operands(lhs: Value, rhs: Value, reply: u64)
    ensures
        lhs is Number && rhs is Number ==> combined(BinaryOp::Plus, lhs, rhs, reply)
            == Value::Number(reply),
        lhs is String && rhs is String ==> combined(BinaryOp::Plus, lhs, rhs, reply)
            == Value::String(lhs->String_0 + rhs->String_0),
        !(lhs is Number && rhs is Number) && !(lhs is String && rhs is String) ==> combined(
            BinaryOp::Plus,
            lhs,
            rhs,
            reply,
        ) is RuntimeTypeError,
{
}

/// `-`, `*` and `/` take two numbers; on any other two operands they give a
/// type error.
pub proof fn arithmetic_on_operands(op: BinaryOp, lhs: Value, rhs: Value, reply: u64)
    requires
        op == BinaryOp::Minus || op == BinaryOp::Times || op == BinaryOp::Div,
    ensures
        lhs is Number && rhs is Number ==> combined(op, lhs, rhs, reply) == Value::Number(reply),
        !(lhs is Number && rhs is Number) ==> combined(op, lhs, rhs, reply) is RuntimeTypeError,
{
}

/// A comparison of two values that do not stand in any order, such as a
/// number and a string, is false, whichever of the four it is.
pub proof fn unordered_values_compare_false(op: BinaryOp, lhs: Value, rhs: Value, reply: u64)
    requires
        op == BinaryOp::Less || op == BinaryOp::LessEqual || op == BinaryOp::Greater || op
            == BinaryOp::GreaterEqual,
        !(lhs is Number && rhs is Number),
        !(lhs is String && rhs is String),
    ensures
        combined(op, lhs, rhs, reply) == Value::Bool(false),
{
}

/// Only arithmetic on two numbers depends on the reply.
pub proof fn reply_matters_for_numbers_only(op: BinaryOp, lhs: Value, rhs: Value, x: u64, y: u64)
    requires
        !is_numeric(op, lhs, rhs),
    ensures
        combined(op, lhs, rhs, x) == combined(op, lhs, rhs, y),
{
}

impl ExprEval {
    /// The name of the kind of the value.
    pub fn kind(&self) -> (name: &'static str)
        ensures
            name@ == kind(self@),
    {
        match self {
            ExprEval::Number(_) => "Number",
            ExprEval::String(_) => "String",
            ExprEval::Bool(_) => "Bool",
            ExprEval::Nil => "Nil",
            ExprEval::RuntimeError(_) => "RuntimeError",
            ExprEval::RuntimeTypeError(_) => "RuntimeTypeError",
        }
    }

    /// Whether the value is one of the two kinds of error.
    pub fn is_error(&self) -> (r: bool)
        ensures
            r == (self@ is RuntimeError || self@ is RuntimeTypeError),
    {
        match self {
            ExprEval::RuntimeError(_) => true,
            ExprEval::RuntimeTypeError(_) => true,
            _ => false,
        }
    }

    /// Applies a prefix operator.
    pub fn prefixed(self, op: UnaryOp) -> (r: ExprEval)
        ensures
            r@ == prefixed(op, self@),
    {
        match (op, self) {
            (UnaryOp::Negate, ExprEval::Number(bits)) => ExprEval::Number(negate(bits)),
            (UnaryOp::Not, ExprEval::Bool(b)) => ExprEval::Bool(!b),
            (_, ExprEval::RuntimeTypeError(msg)) => ExprEval::RuntimeTypeError(msg),
            (_, operand) => {
                let mut msg = String::from_str("Can't apply ");
                msg = append(msg, op.symbol());
                msg = append(msg, " to ");
                msg = append(msg, operand.kind());
                ExprEval::RuntimeTypeError(msg)
            },
        }
    }

    /// The two numbers of `lhs op rhs` where that is arithmetic on two
    /// numbers.
    pub fn operands(op: BinaryOp, lhs: &ExprEval, rhs: &ExprEval) -> (r: Option<(u64, u64)>)
        ensures
            r is Some == is_numeric(op, lhs@, rhs@),
            r matches Some((a, b)) ==> lhs@ == Value::Number(a) && rhs@ == Value::Number(b),
    {
        match (op, lhs, rhs) {
            (BinaryOp::Plus, ExprEval::Number(a), ExprEval::Number(b)) => Some((*a, *b)),
            (BinaryOp::Minus, ExprEval::Number(a), ExprEval::Number(b)) => Some((*a, *b)),
            (BinaryOp::Times, ExprEval::Number(a), ExprEval::Number(b)) => Some((*a, *b)),
            (BinaryOp::Div, ExprEval::Number(a), ExprEval::Number(b)) => Some((*a, *b)),
            _ => None,
        }
    }

    /// The error for an operator of arithmetic on operands it cannot take.
    fn mismatch(op: BinaryOp, lhs: &ExprEval, rhs: &ExprEval) -> (r: ExprEval)
        requires
            op.is_arithmetic(),
        ensures
            r@ == Value::RuntimeTypeError(cannot_compute(op, lhs@, rhs@)),
    {
        let msg = match op {
            BinaryOp::Minus => {
                let mut msg = String::from_str("Can't subtract ");
                msg = append(msg, rhs.kind());
                msg = append(msg, " from ");
                append(msg, lhs.kind())
            },
            BinaryOp::Times => {
                let mut msg = String::from_str("Can't multiply ");
                msg = append(msg, lhs.kind());
                msg = append(msg, " and ");
                append(msg, rhs.kind())
            },
            BinaryOp::Div => {
                let mut msg = String::from_str("Can't divide ");
                msg = append(msg, lhs.kind());
                msg = append(msg, " by ");
                append(msg, rhs.kind())
            },
            _ => {
                let mut msg = String::from_str("Can't add ");
                msg = append(msg, lhs.kind());
                msg = append(msg, " and ");
                append(msg, rhs.kind())
            },
        };
        ExprEval::RuntimeTypeError(msg)
    }

    /// `lhs op rhs`, where `reply` is the result of the arithmetic if the
    /// two are numbers and `op` is one of its four operators.
    pub fn combined(op: BinaryOp, lhs: ExprEval, rhs: ExprEval, reply: u64) -> (r: ExprEval)
        ensures
            r@ == combined(op, lhs@, rhs@, reply),
    {
        match op {
            BinaryOp::Equal => ExprEval::Bool(lhs == rhs),
            BinaryOp::NotEqual => ExprEval::Bool(lhs != rhs),
            BinaryOp::Less => ExprEval::Bool(lhs < rhs),
            BinaryOp::LessEqual => ExprEval::Bool(lhs <= rhs),
            BinaryOp::Greater => ExprEval::Bool(lhs > rhs),
            BinaryOp::GreaterEqual => ExprEval::Bool(lhs >= rhs),
            BinaryOp::Plus => match (lhs, rhs) {
                (ExprEval::Number(_), ExprEval::Number(_)) => ExprEval::Number(reply),
                (ExprEval::String(a), ExprEval::String(b)) => ExprEval::String(append(a, b.as_str())),
                (l, r) => Self::mismatch(op, &l, &r),
            },
            _ => match (lhs, rhs) {
                (ExprEval::Number(_), ExprEval::Number(_)) => ExprEval::Number(reply),
                (l, r) => Self::mismatch(op, &l, &r),
            },
        }
    }

    /// `lhs op rhs`, with `arith` for the arithmetic on two numbers.
    pub fn binary<A: Fn(BinaryOp, u64, u64) -> u64>(
        op: BinaryOp,
        lhs: ExprEval,
        rhs: ExprEval,
        arith: &A,
    ) -> (r: ExprEval)
        requires
            computes_any(*arith),
        ensures
            !is_numeric(op, lhs@, rhs@) ==> r@ == combined(op, lhs@, rhs@, 0),
            is_numeric(op, lhs@, rhs@) ==> r@ is Number && call_ensures(
                *arith,
                (op, lhs@->Number_0, rhs@->Number_0),
                r@->Number_0,
            ),
            computes_as_function(*arith) ==> r@ == binary(calculator(*arith), op, lhs@, rhs@),
    {
        let reply = match Self::operands(op, &lhs, &rhs) {
            Some((a, b)) => arith(op, a, b),
            None => 0,
        };
        proof {
            if !is_numeric(op, lhs@, rhs@) {
                reply_matters_for_numbers_only(
                    op,
                    lhs@,
                    rhs@,
                    0,
                    match (lhs@, rhs@) {
                        (Value::Number(a), Value::Number(b)) => calculator(*arith)(op, a, b),
                        _ => 0,
                    },
                );
            }
        }
        Self::combined(op, lhs, rhs, reply)
    }

    /// The sum of two numbers, or two strings one after the other.
    pub fn add<A: Fn(BinaryOp, u64, u64) -> u64>(self, rhs: ExprEval, arith: &A) -> (r: ExprEval)
        requires
            computes_any(*arith),
        ensures
            !(self@ is Number && rhs@ is Number) ==> r@ == combined(BinaryOp::Plus, self@, rhs@, 0),
            computes_as_function(*arith) ==> r@ == binary(
                calculator(*arith),
                BinaryOp::Plus,
                self@,
                rhs@,
            ),
    {
        Self::binary(BinaryOp::Plus, self, rhs, arith)
    }

    /// The difference of two numbers.
    pub fn sub<A: Fn(BinaryOp, u64, u64) -> u64>(self, rhs: ExprEval, arith: &A) -> (r: ExprEval)
        requires
            computes_any(*arith),
        ensures
            !(self@ is Number && rhs@ is Number) ==> r@ == combined(BinaryOp::Minus, self@, rhs@, 0),
            computes_as_function(*arith) ==> r@ == binary(
                calculator(*arith),
                BinaryOp::Minus,
                self@,
                rhs@,
            ),
    {
        Self::binary(BinaryOp::Minus, self, rhs, arith)
    }

    /// The product of two numbers.
    pub fn mul<A: Fn(BinaryOp, u64, u64) -> u64>(self, rhs: ExprEval, arith: &A) -> (r: ExprEval)
        requires
            computes_any(*arith),
        ensures
            !(self@ is Number && rhs@ is Number) ==> r@ == combined(BinaryOp::Times, self@, rhs@, 0),
            computes_as_function(*arith) ==> r@ == binary(
                calculator(*arith),
                BinaryOp::Times,
                self@,
                rhs@,
            ),
    {
        Self::binary(BinaryOp::Times, self, rhs, arith)
    }

    /// The quotient of two numbers.
    pub fn div<A: Fn(BinaryOp, u64, u64) -> u64>(self, rhs: ExprEval, arith: &A) -> (r: ExprEval)
        requires
            computes_any(*arith),
        ensures
            !(self@ is Number && rhs@ is Number) ==> r@ == combined(BinaryOp::Div, self@, rhs@, 0),
            computes_as_function(*arith) ==> r@ == binary(
                calculator(*arith),
                BinaryOp::Div,
                self@,
                rhs@,
            ),
    {
        Self::binary(BinaryOp::Div, self, rhs, arith)
    }
}

} // verus!
