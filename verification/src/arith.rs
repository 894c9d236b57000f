//! Integer arithmetic shared by the simulation and the camera: limiting a
//! value to a range, and division that rounds toward zero.

use vstd::prelude::*;

verus! {

/// `v` limited to the closed range `[lo, hi]`.
pub open spec fn clamp(v: int, lo: int, hi: int) -> int {
    if v < lo {
        lo
    } else if v > hi {
        hi
    } else {
        v
    }
}

/// `v` limited to the range of `i32`: the overflow policy of the whole
/// kernel. A result too large for `i32` becomes `i32::MAX`, one too small
/// becomes `i32::MIN`.
pub open spec fn saturate_i32(v: int) -> int {
    clamp(v, i32::MIN as int, i32::MAX as int)
}

/// The distance of `v` from zero.
pub open spec fn magnitude(v: int) -> int {
    if v < 0 {
        -v
    } else {
        v
    }
}

/// The quotient of `a` by `b` rounded toward zero: the whole number of times
/// that `b` fits into `a`, sign aside, and negative only where exactly one of
/// the two is. Each division below is of a number that is not negative by a
/// positive one, where every rounding convention agrees.
pub open spec fn trunc_div(a: int, b: int) -> int
    recommends
        b != 0,
{
    if a >= 0 && b > 0 {
        a / b
    } else if a >= 0 {
        -(a / (-b))
    } else if b > 0 {
        -((-a) / b)
    } else {
        (-a) / (-b)
    }
}

/// The sum of `a` and `b`, limited to the range of `i32`.
pub(crate) fn saturating_sum(a: i32, b: i32) -> (r: i32)
    ensures
        r == saturate_i32(a + b),
{
    saturate(a as i128 + b as i128)
}

/// `v` limited to the range of `i32`.
pub(crate) fn saturate(v: i128) -> (r: i32)
    ensures
        r == saturate_i32(v as int),
{
    if v > i32::MAX as i128 {
        i32::MAX
    } else if v < i32::MIN as i128 {
        i32::MIN
    } else {
        v as i32
    }
}

/// Dividing a number that is not negative by a negative one gives the
/// quotient by the divisor's magnitude, negated.
proof fn lemma_div_by_negative(x: int, d: int)
    by (nonlinear_arith)
    requires
        0 <= x,
        d < 0,
    ensures
        x / d == -(x / (-d)),
{
}

/// The quotient of `a` by `b`, rounded toward zero.
pub(crate) fn quotient_toward_zero(a: i128, b: i128) -> (q: i128)
    requires
        b != 0,
        a != i128::MIN,
    ensures
        q == trunc_div(a as int, b as int),
{
    proof {
        if b < 0 {
            lemma_div_by_negative(magnitude(a as int), b as int);
        }
    }
    a / b
}

/// Rounding toward zero divides the magnitudes and then restores the sign:
/// the quotient is negative only where exactly one of the two numbers is.
pub proof fn lemma_trunc_div_by_magnitudes(a: int, b: int)
    requires
        b != 0,
    ensures
        trunc_div(a, b) == (if (a < 0) == (b < 0) {
            magnitude(a) / magnitude(b)
        } else {
            -(magnitude(a) / magnitude(b))
        }),
{
}

/// What is left after rounding toward zero is smaller than the divisor, sign
/// aside, and never has the sign opposite to the dividend's: the quotient is
/// the nearest whole number between zero and the exact quotient.
pub proof fn lemma_trunc_div_remainder(a: int, b: int)
    requires
        b != 0,
    ensures
        magnitude(a - b * trunc_div(a, b)) < magnitude(b),
        a >= 0 ==> a - b * trunc_div(a, b) >= 0,
        a <= 0 ==> a - b * trunc_div(a, b) <= 0,
{
    let ma = magnitude(a);
    let mb = magnitude(b);
    let q = ma / mb;
    lemma_quotient_bounds(ma, mb, q);
    lemma_trunc_div_by_magnitudes(a, b);
    assert(a - b * trunc_div(a, b) == (if a < 0 { -(ma - mb * q) } else { ma - mb * q }))
        by (nonlinear_arith)
        requires
            ma == magnitude(a),
            mb == magnitude(b),
            b != 0,
            trunc_div(a, b) == (if (a < 0) == (b < 0) { q } else { -q }),
    ;
}

/// A whole number `q` is the quotient of `x` by a positive `d` exactly when
/// `x` lies at or above `q * d` and below the next multiple of `d`.
pub proof fn lemma_quotient_bounds(x: int, d: int, q: int)
    by (nonlinear_arith)
    requires
        d > 0,
    ensures
        x / d == q <==> d * q <= x < d * q + d,
{
}

} // verus!
