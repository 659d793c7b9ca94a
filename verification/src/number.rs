//! Numbers as bit patterns.
//!
//! A number is an IEEE-754 double, held as the 64 bits that encode it: one sign
//! bit, then eleven exponent bits and fifty-two fraction bits. Ordering and the
//! zero test are decided here, on the bits. Arithmetic is the host's: it hands
//! the interpreter a callable that maps an operation and two patterns to the
//! pattern of the result.

use vstd::prelude::*;

verus! {

/// The four operations that the host computes.
#[derive(Clone, Copy, Debug, PartialEq, Eq, Structural)]
pub enum ArithOp {
    Add,
    Sub,
    Mul,
    Div,
}

/// The pattern of positive zero.
pub const ZERO: u64 = 0;

/// The pattern of one.
pub const ONE: u64 = 0x3FF0_0000_0000_0000;

/// The weight of the sign bit.
pub const SIGN: u64 = 0x8000_0000_0000_0000;

/// The pattern of positive infinity: every larger magnitude is not a number.
pub const INFINITY: u64 = 0x7FF0_0000_0000_0000;

/// The pattern without its sign bit.
pub open spec fn magnitude(bits: u64) -> int {
    bits as int % 0x8000_0000_0000_0000
}

/// Whether the pattern encodes no number at all.
pub open spec fn is_nan(bits: u64) -> bool {
    magnitude(bits) > 0x7FF0_0000_0000_0000
}

/// Whether the pattern encodes positive or negative zero.
pub open spec fn is_zero(bits: u64) -> bool {
    magnitude(bits) == 0
}

/// An integer that grows with the encoded number: the magnitude, negated
/// under a set sign bit. Both zeros have rank zero.
pub open spec fn rank(bits: u64) -> int {
    if bits as int >= 0x8000_0000_0000_0000 {
        -magnitude(bits)
    } else {
        magnitude(bits)
    }
}

/// Numeric equality: both patterns encode numbers, and the same one.
pub open spec fn equal(a: u64, b: u64) -> bool {
    !is_nan(a) && !is_nan(b) && rank(a) == rank(b)
}

/// Numeric order: both patterns encode numbers, and the first is the smaller.
pub open spec fn less(a: u64, b: u64) -> bool {
    !is_nan(a) && !is_nan(b) && rank(a) < rank(b)
}

/// Whether `bits` encodes a zero of either sign.
pub fn number_is_zero(bits: u64) -> (r: bool)
    ensures
        r == is_zero(bits),
{
    bits % SIGN == 0
}

/// Whether `bits` encodes no number.
pub fn number_is_nan(bits: u64) -> (r: bool)
    ensures
        r == is_nan(bits),
{
    bits % SIGN > INFINITY
}

/// Whether the two patterns encode equal numbers.
pub fn number_eq(a: u64, b: u64) -> (r: bool)
    ensures
        r == equal(a, b),
{
    if number_is_nan(a) || number_is_nan(b) {
        false
    } else if a % SIGN == 0 && b % SIGN == 0 {
        true
    } else {
        a == b
    }
}

/// Whether the first pattern encodes a smaller number than the second.
pub fn number_lt(a: u64, b: u64) -> (r: bool)
    ensures
        r == less(a, b),
{
    if number_is_nan(a) || number_is_nan(b) {
        false
    } else if a >= SIGN {
        if b >= SIGN {
            a % SIGN > b % SIGN
        } else {
            a % SIGN != 0 || b % SIGN != 0
        }
    } else {
        b < SIGN && a < b
    }
}

/// Whether the first pattern encodes a larger number than the second.
pub fn number_gt(a: u64, b: u64) -> (r: bool)
    ensures
        r == less(b, a),
{
    number_lt(b, a)
}

/// The host's arithmetic accepts every operation on every pair of patterns.
pub open spec fn arith_total<A: Fn(ArithOp, u64, u64) -> u64>(f: A) -> bool {
    forall|op: ArithOp, a: u64, b: u64| call_requires(f, (op, a, b))
}

/// What the host's arithmetic gives for an operation on two patterns.
pub open spec fn arith_result<A: Fn(ArithOp, u64, u64) -> u64>(
    f: A,
    op: ArithOp,
    a: u64,
    b: u64,
) -> u64 {
    choose|r: u64| call_ensures(f, (op, a, b), r)
}

/// The host's arithmetic is a function: two calls on the same operation and
/// patterns give the same pattern.
pub open spec fn arith_functional<A: Fn(ArithOp, u64, u64) -> u64>(f: A) -> bool {
    forall|op: ArithOp, a: u64, b: u64, first: u64, second: u64|
        #![trigger call_ensures(f, (op, a, b), first), call_ensures(f, (op, a, b), second)]
        call_ensures(f, (op, a, b), first) && call_ensures(f, (op, a, b), second) ==> first
            == second
}

/// The host's arithmetic as a mathematical function.
pub open spec fn arith_model<A: Fn(ArithOp, u64, u64) -> u64>(f: A) -> spec_fn(
    ArithOp,
    u64,
    u64,
) -> u64 {
    |op: ArithOp, a: u64, b: u64| arith_result(f, op, a, b)
}

/// The host's arithmetic is total and a function.
pub open spec fn arith_ok<A: Fn(ArithOp, u64, u64) -> u64>(f: A) -> bool {
    arith_total(f) && arith_functional(f)
}

/// Asks the host's arithmetic for `op` on two patterns.
pub fn compute<A: Fn(ArithOp, u64, u64) -> u64>(arith: &A, op: ArithOp, a: u64, b: u64) -> (r: u64)
    requires
        arith_ok(*arith),
    ensures
        r == arith_model(*arith)(op, a, b),
        call_ensures(*arith, (op, a, b), r),
{
    arith(op, a, b)
}

} // verus!
