//! Arithmetic facts and helpers shared by the modules.
use vstd::prelude::*;

verus! {

/// The product of two numbers of magnitude at most `d` has magnitude at
/// most `d * d`.
pub proof fn lemma_product_bound(a: int, b: int, d: int)
    by (nonlinear_arith)
    requires
        -d <= a <= d,
        -d <= b <= d,
    ensures
        -(d * d) <= a * b <= d * d,
{
}

/// Scaling by a non-negative factor scales a bound.
pub proof fn lemma_scale_bound(m: int, t: int, k: int)
    by (nonlinear_arith)
    requires
        0 <= m,
        -k <= t <= k,
    ensures
        -(m * k) <= m * t <= m * k,
{
}

/// A product of non-negative factors grows with each factor.
pub proof fn lemma_product_monotone(a: int, b: int, c: int, d: int)
    by (nonlinear_arith)
    requires
        0 <= a <= c,
        0 <= b <= d,
    ensures
        0 <= a * b <= c * d,
{
}

/// A product with a zero factor is zero.
pub proof fn lemma_product_with_zero(a: int, b: int)
    by (nonlinear_arith)
    requires
        a == 0 || b == 0,
    ensures
        a * b == 0,
{
}

} // verus!
