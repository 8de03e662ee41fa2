//! IEEE-754 binary64 values as 64-bit patterns.
//!
//! The top bit is the sign, the remaining 63 bits the magnitude (exponent and
//! fraction). Everything here is decided on the pattern alone.
use vstd::prelude::*;

verus! {

/// The pattern whose only set bit is the sign bit (negative zero).
pub const SIGN_BIT: u64 = 0x8000_0000_0000_0000;

/// The pattern of positive infinity; every larger magnitude is a NaN.
pub const INFINITY: u64 = 0x7ff0_0000_0000_0000;

/// Whether the sign bit of `bits` is set.
pub open spec fn is_negative(bits: u64) -> bool {
    bits >= SIGN_BIT
}

/// The pattern without its sign bit.
pub open spec fn magnitude(bits: u64) -> u64 {
    if bits >= SIGN_BIT {
        (bits - SIGN_BIT) as u64
    } else {
        bits
    }
}

/// Whether `bits` is a NaN: all exponent bits set and a fraction that is not zero.
pub open spec fn is_nan(bits: u64) -> bool {
    magnitude(bits) > INFINITY
}

/// Whether `bits` is one of the two zeros.
pub open spec fn is_zero(bits: u64) -> bool {
    magnitude(bits) == 0
}

/// The pattern with its sign bit flipped, which is arithmetic negation.
pub open spec fn negated(bits: u64) -> u64 {
    if bits >= SIGN_BIT {
        (bits - SIGN_BIT) as u64
    } else {
        (bits + SIGN_BIT) as u64
    }
}

/// Numeric equality: a NaN equals nothing, not even itself; the two zeros are
/// equal; any other two values are equal exactly when their patterns are.
pub open spec fn numerically_equal(a: u64, b: u64) -> bool {
    &&& !is_nan(a)
    &&& !is_nan(b)
    &&& (a == b || (is_zero(a) && is_zero(b)))
}

/// The place of a pattern in the total order over all patterns: negative
/// NaNs, negative infinity, the negative numbers, negative zero, positive
/// zero, the positive numbers, positive infinity, positive NaNs.
pub open spec fn rank(bits: u64) -> int {
    if bits >= SIGN_BIT {
        -(magnitude(bits) as int) - 1
    } else {
        bits as int
    }
}

/// Whether `a` comes strictly before `b` in the total order.
pub open spec fn precedes(a: u64, b: u64) -> bool {
    rank(a) < rank(b)
}

/// Flips the sign of a number.
pub fn negate(bits: u64) -> (r: u64)
    ensures
        r == negated(bits),
        magnitude(r) == magnitude(bits),
        is_negative(r) != is_negative(bits),
{
    if bits >= SIGN_BIT {
        bits - SIGN_BIT
    } else {
        bits + SIGN_BIT
    }
}

/// Tells whether a pattern is a NaN.
pub fn nan(bits: u64) -> (r: bool)
    ensures
        r == is_nan(bits),
{
    let m: u64 = if bits >= SIGN_BIT {
        bits - SIGN_BIT
    } else {
        bits
    };
    m > INFINITY
}

/// Compares two numbers for numeric equality.
pub fn equal(a: u64, b: u64) -> (r: bool)
    ensures
        r == numerically_equal(a, b),
{
    if nan(a) || nan(b) {
        false
    } else if a == b {
        true
    } else {
        (a == 0 || a == SIGN_BIT) && (b == 0 || b == SIGN_BIT)
    }
}

/// Tells whether `a` comes strictly before `b` in the total order.
pub fn less(a: u64, b: u64) -> (r: bool)
    ensures
        r == precedes(a, b),
{
    if a >= SIGN_BIT {
        if b >= SIGN_BIT {
            // both negative: the larger magnitude comes first
            a > b
        } else {
            true
        }
    } else {
        if b >= SIGN_BIT {
            false
        } else {
            a < b
        }
    }
}

/// The total order is irreflexive, transitive and total: of two different
/// patterns exactly one precedes the other.
pub proof fn total_order(a: u64, b: u64, c: u64)
    ensures
        !precedes(a, a),
        precedes(a, b) && precedes(b, c) ==> precedes(a, c),
        a != b ==> (precedes(a, b) != precedes(b, a)),
        precedes(a, b) ==> !precedes(b, a),
{
}

/// Negating twice gives the pattern back, and negation reverses the order.
pub proof fn negation_laws(a: u64, b: u64)
    ensures
        negated(negated(a)) == a,
        precedes(a, b) <==> precedes(negated(b), negated(a)),
        is_nan(negated(a)) == is_nan(a),
{
}

} // verus!
