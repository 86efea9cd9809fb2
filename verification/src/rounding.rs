//! Rounded integer division, the one place where the fixed-point model
//! departs from exact rational arithmetic.

use vstd::prelude::*;

verus! {

/// The quotient `n / d` rounded to the nearest integer, halves upward.
/// Meant for `n >= 0` and `d > 0`.
pub open spec fn round_div(n: int, d: int) -> int {
    (2 * n + d) / (2 * d)
}

/// A quotient that lies between two integers is rounded to a value between
/// them; in particular an exact multiple `c * d` is rounded to `c`.
pub proof fn lemma_round_div_bounds(n: int, d: int, lo: int, hi: int)
    requires
        d > 0,
        lo * d <= n,
        n <= hi * d,
    ensures
        lo <= round_div(n, d) <= hi,
{
    let q = (2 * n + d) / (2 * d);
    assert(lo <= q && q <= hi) by (nonlinear_arith)
        requires
            d > 0,
            lo * d <= n,
            n <= hi * d,
            q == (2 * n + d) / (2 * d),
    ;
}

/// Rounding keeps the order of the numerators.
pub proof fn lemma_round_div_monotone(a: int, b: int, d: int)
    requires
        d > 0,
        a <= b,
    ensures
        round_div(a, d) <= round_div(b, d),
{
    vstd::arithmetic::div_mod::lemma_div_is_ordered(2 * a + d, 2 * b + d, 2 * d);
}

/// A product of two bounded non-negative factors is bounded by the product
/// of the bounds.
pub proof fn lemma_product_bounds(a: int, b: int, a_max: int, b_max: int)
    requires
        0 <= a <= a_max,
        0 <= b <= b_max,
    ensures
        0 <= a * b <= a_max * b_max,
{
    assert(0 <= a * b <= a_max * b_max) by (nonlinear_arith)
        requires
            0 <= a <= a_max,
            0 <= b <= b_max,
    ;
}

/// Computes [`round_div`] on machine integers.
pub(crate) fn rounded_quotient(n: u128, d: u128) -> (q: u128)
    requires
        d > 0,
        2 * n + 2 * d <= u128::MAX,
    ensures
        q as int == round_div(n as int, d as int),
{
    (2 * n + d) / (2 * d)
}

} // verus!
