//! Integer helpers shared by the audio pipeline and the pacing rules.

use vstd::prelude::*;

verus! {

/// `x` limited to the range from `lo` to `hi`.
pub open spec fn clamp_int(x: int, lo: int, hi: int) -> int {
    if x < lo {
        lo
    } else if x > hi {
        hi
    } else {
        x
    }
}

/// The quotient of `a` by a positive `b`, rounded towards zero.
pub open spec fn div_toward_zero(a: int, b: int) -> int {
    if a >= 0 {
        a / b
    } else {
        -((-a) / b)
    }
}

/// The quotient of `a` by a positive `b`, rounded to the nearest integer,
/// halves upwards.
pub open spec fn div_rounded(a: int, b: int) -> int {
    (2 * a + b) / (2 * b)
}

/// A product is bounded by the product of the bounds of its factors.
pub proof fn lemma_mul_bound(a: int, b: int, bound_a: int, bound_b: int)
    by (nonlinear_arith)
    requires
        -bound_a <= a <= bound_a,
        -bound_b <= b <= bound_b,
    ensures
        -(bound_a * bound_b) <= a * b <= bound_a * bound_b,
{
}

/// A quotient rounded towards zero lies between any two integers whose
/// multiples of the divisor enclose the dividend.
pub proof fn lemma_div_toward_zero_between(a: int, b: int, lo: int, hi: int)
    by (nonlinear_arith)
    requires
        b > 0,
        lo * b <= a <= hi * b,
    ensures
        lo <= div_toward_zero(a, b) <= hi,
{
}

} // verus!
