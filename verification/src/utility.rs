//! General purpose scalar functions used throughout the library.

use vstd::prelude::*;

verus! {

/// The value restricted to the interval `[lower_bound, upper_bound]`.
pub open spec fn spec_clamped(value: int, lower_bound: int, upper_bound: int) -> int {
    if value < lower_bound {
        lower_bound
    } else if value > upper_bound {
        upper_bound
    } else {
        value
    }
}

/// Returns the given value clamped between the provided bounds.
///
/// The bounds must be ordered; calling with `lower_bound > upper_bound`
/// is a caller bug, so it is excluded by precondition rather than
/// reported at run time.
pub fn clamped(value: i64, lower_bound: i64, upper_bound: i64) -> (r: i64)
    requires
        lower_bound <= upper_bound,
    ensures
        r == spec_clamped(value as int, lower_bound as int, upper_bound as int),
{
    if value < lower_bound {
        lower_bound
    } else if value > upper_bound {
        upper_bound
    } else {
        value
    }
}

/// Clamping is idempotent: clamping an already-clamped value changes nothing.
pub proof fn lemma_clamped_idempotent(value: int, lower_bound: int, upper_bound: int)
    requires
        lower_bound <= upper_bound,
    ensures
        spec_clamped(spec_clamped(value, lower_bound, upper_bound), lower_bound, upper_bound)
            == spec_clamped(value, lower_bound, upper_bound),
{
}

/// Clamping saturates at the bounds and is the identity inside them.
pub proof fn lemma_clamped_saturates(value: int, lower_bound: int, upper_bound: int)
    requires
        lower_bound <= upper_bound,
    ensures
        value <= lower_bound ==> spec_clamped(value, lower_bound, upper_bound) == lower_bound,
        value >= upper_bound ==> spec_clamped(value, lower_bound, upper_bound) == upper_bound,
        lower_bound <= value <= upper_bound
            ==> spec_clamped(value, lower_bound, upper_bound) == value,
{
}

/// The ratio `n / d` rounded to the nearest integer, halves rounding up.
/// Meaningful for `d > 0`.
pub open spec fn spec_round_div(n: int, d: int) -> int {
    (2 * n + d) / (2 * d)
}

/// Rounding a ratio that lies in `[0, b]` gives an integer in `[0, b]`.
pub proof fn lemma_round_div_bounds(n: int, d: int, b: int)
    requires
        d > 0,
        0 <= b,
        0 <= n <= b * d,
    ensures
        0 <= spec_round_div(n, d) <= b,
{
    assert(0 < 2 * n + d && 2 * n + d < (2 * d) * (b + 1)) by (nonlinear_arith)
        requires
            d > 0,
            0 <= b,
            0 <= n <= b * d,
    ;
    vstd::arithmetic::div_mod::lemma_div_pos_is_pos(2 * n + d, 2 * d);
    vstd::arithmetic::div_mod::lemma_multiply_divide_lt(2 * n + d, 2 * d, b + 1);
}

/// The absolute difference between two values.
pub open spec fn spec_distance(a: int, b: int) -> int {
    if a > b {
        a - b
    } else {
        b - a
    }
}

/// Returns the distance between the given values.
pub fn distance(a: u8, b: u8) -> (r: u8)
    ensures
        r == spec_distance(a as int, b as int),
{
    if a > b {
        a - b
    } else {
        b - a
    }
}

} // verus!