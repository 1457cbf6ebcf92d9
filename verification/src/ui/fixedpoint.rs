//! Exact integer arithmetic used in place of floating point.
//!
//! Coordinates are kept in "millinorm" units: thousandths of the normalized
//! device coordinate range `[-1, 1]`. Scaling by a configuration ratio is a
//! truncating multiply-then-divide on the magnitude, and positions derived
//! from pixel coordinates are exact rationals compared by cross
//! multiplication.

use vstd::arithmetic::div_mod::{
    lemma_div_nonincreasing, lemma_div_pos_is_pos, lemma_multiply_divide_le,
};
use vstd::arithmetic::mul::{lemma_mul_inequality, lemma_mul_is_associative,
    lemma_mul_is_commutative};
use vstd::math::abs;
use vstd::prelude::*;

verus! {

/// Scale a signed value by the ratio `num / den`: the magnitude is
/// multiplied by `num`, divided by `den` rounding toward zero, and the sign
/// restored.
pub open spec fn scale_trunc(v: int, num: int, den: int) -> int
    recommends
        den > 0,
        num >= 0,
{
    if v >= 0 {
        (v * num) / den
    } else {
        -((-v * num) / den)
    }
}

/// Scaling by `num / den` with `num <= k * den` enlarges no magnitude by
/// more than the factor `k`.
pub proof fn lemma_scale_trunc_bound(v: int, num: int, den: int, k: int)
    requires
        den > 0,
        num >= 0,
        k >= 0,
        num <= k * den,
    ensures
        abs(scale_trunc(v, num, den)) <= k * abs(v),
{
    let m = abs(v) as int;
    assert(m * num <= den * (k * m)) by {
        lemma_mul_inequality(num, k * den, m);
        lemma_mul_is_commutative(num, m);
        lemma_mul_is_commutative(k * den, m);
        lemma_mul_is_associative(m, k, den);
        lemma_mul_is_commutative(m, k);
        lemma_mul_is_associative(k, m, den);
        lemma_mul_is_commutative(k * m, den);
    }
    lemma_multiply_divide_le(m * num, den, k * m);
    lemma_div_pos_is_pos(m * num, den);
    assert(m * num >= 0) by {
        vstd::arithmetic::mul::lemma_mul_nonnegative(m, num);
    }
}

/// The scaled magnitude never grows when `num <= den`.
pub proof fn lemma_scale_trunc_shrinks(v: int, num: int, den: int)
    requires
        den > 0,
        0 <= num <= den,
    ensures
        abs(scale_trunc(v, num, den)) <= abs(v),
{
    lemma_scale_trunc_bound(v, num, den, 1);
}

/// Truncating fixed-point scale: `r == scale_trunc(v, num, den)`.
pub fn muldiv_trunc(v: i64, num: u64, den: u64) -> (r: i64)
    requires
        den > 0,
        v > i64::MIN,
        abs(v as int) * (num as int) <= i64::MAX,
    ensures
        r == scale_trunc(v as int, num as int, den as int),
{
    proof {
        lemma_div_nonincreasing(abs(v as int) * (num as int), den as int);
    }
    let neg = v < 0;
    let mag: u64 = if neg {
        (-v) as u64
    } else {
        v as u64
    };
    assert(mag == abs(v as int));
    assert((mag as int) * (num as int) < 0x1_0000_0000_0000_0000_0000_0000_0000_0000)
        by (nonlinear_arith)
        requires
            (mag as int) < 0x1_0000_0000_0000_0000,
            (num as int) < 0x1_0000_0000_0000_0000,
    ;
    let prod: u128 = (mag as u128) * (num as u128);
    let q: u128 = prod / (den as u128);
    assert(q <= i64::MAX) by {
        assert(q == abs(v as int) * (num as int) / (den as int));
    }
    let qi: i64 = q as i64;
    if neg {
        assert(-qi == scale_trunc(v as int, num as int, den as int));
        -qi
    } else {
        qi
    }
}

/// `a / b <= c / d` for positive denominators, stated by cross
/// multiplication.
pub open spec fn ratio_le(a: int, b: int, c: int, d: int) -> bool
    recommends
        b > 0,
        d > 0,
{
    a * d <= c * b
}

/// Compare the rationals `a / b` and `c / d` without leaving the integers.
pub fn ratio_le_exec(a: i64, b: i64, c: i64, d: i64) -> (r: bool)
    requires
        b > 0,
        d > 0,
    ensures
        r == ratio_le(a as int, b as int, c as int, d as int),
{
    assert({
        let lo = -0x8000_0000_0000_0000_0000_0000_0000_0000int;
        let hi = 0x8000_0000_0000_0000_0000_0000_0000_0000int;
        lo < (a as int) * (d as int) < hi && lo < (c as int) * (b as int) < hi
    })
        by (nonlinear_arith)
        requires
            -0x8000_0000_0000_0000 <= (a as int),
            (a as int) < 0x8000_0000_0000_0000,
            -0x8000_0000_0000_0000 <= (b as int),
            (b as int) < 0x8000_0000_0000_0000,
            -0x8000_0000_0000_0000 <= (c as int),
            (c as int) < 0x8000_0000_0000_0000,
            -0x8000_0000_0000_0000 <= (d as int),
            (d as int) < 0x8000_0000_0000_0000,
    ;
    let lhs: i128 = (a as i128) * (d as i128);
    let rhs: i128 = (c as i128) * (b as i128);
    lhs <= rhs
}

} // verus!
