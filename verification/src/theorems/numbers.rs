//! What holds of the order of numbers, as it is decided on their patterns.

use crate::number::{equal, is_nan, is_zero, less, rank, ONE, SIGN, ZERO};
use vstd::prelude::*;

verus! {

/// Equality is symmetric, and every number equals itself.
pub proof fn equality_is_an_equivalence(a: u64, b: u64, c: u64)
    ensures
        equal(a, a) <==> !is_nan(a),
        equal(a, b) <==> equal(b, a),
        equal(a, b) && equal(b, c) ==> equal(a, c),
{
}

/// Of two numbers, exactly one of three holds: the first is the smaller, the
/// two are equal, or the second is the smaller.
pub proof fn order_is_total_on_numbers(a: u64, b: u64)
    requires
        !is_nan(a),
        !is_nan(b),
    ensures
        less(a, b) || equal(a, b) || less(b, a),
        !(less(a, b) && equal(a, b)),
        !(less(a, b) && less(b, a)),
        !(equal(a, b) && less(b, a)),
{
}

/// The order is transitive.
pub proof fn order_is_transitive(a: u64, b: u64, c: u64)
    requires
        less(a, b),
        less(b, c),
    ensures
        less(a, c),
{
}

/// What is no number equals nothing and is in no order, not even with
/// itself.
pub proof fn nan_compares_with_nothing(a: u64, b: u64)
    requires
        is_nan(a),
    ensures
        !equal(a, b),
        !equal(b, a),
        !less(a, b),
        !less(b, a),
{
}

/// The two zeros are equal, and they are the only patterns that equal zero.
pub proof fn zeros_are_equal(a: u64)
    ensures
        is_zero(a) <==> a == ZERO || a == SIGN,
        is_zero(a) <==> equal(a, ZERO),
        equal(ZERO, SIGN),
{
}

/// Equal numbers have the same pattern, the two zeros apart.
pub proof fn equal_numbers_have_one_pattern(a: u64, b: u64)
    requires
        equal(a, b),
        !is_zero(a),
    ensures
        a == b,
{
}

/// Zero is less than one.
pub proof fn zero_is_less_than_one()
    ensures
        less(ZERO, ONE),
        less(SIGN, ONE),
        !is_nan(ONE),
        rank(ONE) > 0,
{
}

} // verus!
