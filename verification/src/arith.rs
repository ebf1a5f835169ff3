//! Rounded-up division, the arithmetic behind row counts.

use vstd::prelude::*;

verus! {

/// The quotient of `a` by `b`, rounded up to the next integer.
pub open spec fn ceil_div(a: int, b: int) -> int {
    (a + b - 1) / b
}

/// For a positive divisor, `ceil_div(a, b)` is the least number of groups of `b`
/// that hold `a` items: `q` groups are enough exactly when `q >= ceil_div(a, b)`.
pub proof fn lemma_ceil_div_is_least(a: int, b: int, q: int)
    requires
        b >= 1,
    ensures
        q * b >= a <==> q >= ceil_div(a, b),
{
    let c = ceil_div(a, b);
    assert(c * b >= a && (c - 1) * b < a) by (nonlinear_arith)
        requires
            b >= 1,
            c == (a + b - 1) / b,
    ;
    if q >= c {
        assert(q * b >= c * b) by (nonlinear_arith)
            requires
                q >= c,
                b >= 1,
        ;
    } else {
        assert(q * b <= (c - 1) * b) by (nonlinear_arith)
            requires
                q <= c - 1,
                b >= 1,
        ;
    }
}

/// Rounding up adds one row past the last full one: for `a >= 0` and `b >= 1`,
/// `ceil_div(a + 1, b)` is `a / b + 1`.
pub proof fn lemma_ceil_div_succ(a: int, b: int)
    requires
        b >= 1,
    ensures
        ceil_div(a + 1, b) == a / b + 1,
{
    assert((a + 1 + b - 1) / b == a / b + 1) by (nonlinear_arith)
        requires
            b >= 1,
    ;
}

/// Dividing a number that is not negative by a positive one and rounding up
/// gives a number between 0 and the dividend.
pub proof fn lemma_ceil_div_bounds(a: int, d: int)
    requires
        a >= 0,
        d >= 1,
    ensures
        0 <= ceil_div(a, d) <= a,
{
    assert(0 <= (a + d - 1) / d <= a) by (nonlinear_arith)
        requires
            a >= 0,
            d >= 1,
    ;
}

/// Rounding up keeps the order: more items never take fewer groups.
pub proof fn lemma_ceil_div_monotone(a: int, b: int, d: int)
    requires
        a <= b,
        d >= 1,
    ensures
        ceil_div(a, d) <= ceil_div(b, d),
{
    assert((a + d - 1) / d <= (b + d - 1) / d) by (nonlinear_arith)
        requires
            a <= b,
            d >= 1,
    ;
}

/// Divides `a` by `b` and rounds the quotient up.
pub fn ciel_div(a: usize, b: usize) -> (q: usize)
    requires
        b > 0,
    ensures
        q == ceil_div(a as int, b as int),
{
    let mut result: usize = a / b;
    if a % b > 0 {
        assert(a / b < a) by (nonlinear_arith)
            requires
                a % b > 0,
                b > 0,
        ;
        result += 1;
    }
    assert(result == (a + b - 1) / (b as int)) by (nonlinear_arith)
        requires
            b > 0,
            result == (if a % b > 0 { a / b + 1 } else { (a / b) as int }),
    ;
    result
}

} // verus!
