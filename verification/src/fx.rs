//! Fixed-point scalar arithmetic.
//!
//! A coordinate, color channel or size in this crate is an `Fx`: a signed
//! 64-bit count of micro-units, so that `1_000_000` stands for the real
//! number one. All operations are total: where the mathematical result
//! would leave the `i64` range it saturates, and the contracts say exactly
//! when that happens. Divisions truncate toward zero, like Rust's integer
//! division.

use vstd::prelude::*;

verus! {

use vstd::arithmetic::div_mod::lemma_div_nonincreasing;
use vstd::arithmetic::div_mod::lemma_div_pos_is_pos;

/// A scalar in micro-units: `v` stands for the real number `v / 1_000_000`.
pub type Fx = i64;

/// The unit scalar.
pub const FX_ONE: Fx = 1_000_000;

/// One half.
pub const FX_HALF: Fx = 500_000;

/// Scalars within this bound (about a million units) are "small": on small
/// scalars the saturating operations below are exact, which is what the
/// library's laws assume.
pub const FX_BOUND: Fx = 0x100_0000_0000;

/// `v` is small enough that the arithmetic of this module is exact on it.
pub open spec fn fx_small(v: int) -> bool {
    -FX_BOUND <= v <= FX_BOUND
}

/// Saturation of an unbounded integer into the `i64` range.
pub open spec fn sat64(v: int) -> int {
    if v > i64::MAX {
        i64::MAX as int
    } else if v < i64::MIN {
        i64::MIN as int
    } else {
        v
    }
}

/// Division truncating toward zero, for a positive divisor.
pub open spec fn divt(a: int, b: int) -> int
    recommends
        b > 0,
{
    if a >= 0 {
        a / b
    } else {
        -((-a) / b)
    }
}

/// Division truncating toward zero, for any nonzero divisor.
pub open spec fn divq(a: int, b: int) -> int
    recommends
        b != 0,
{
    if b < 0 {
        divt(-a, -b)
    } else {
        divt(a, b)
    }
}

/// What [`fx_div`] returns: the quotient in micro-units, saturated.
pub open spec fn fx_div_s(a: int, b: int) -> int
    recommends
        b != 0,
{
    sat64(divq(a * FX_ONE, b))
}

/// What [`fx_mul`] returns: the product in micro-units, saturated.
pub open spec fn fx_mul_s(a: int, b: int) -> int {
    sat64(divt(a * b, FX_ONE as int))
}

/// Truncating division shrinks magnitudes: `|divt(a, b)| <= |a|` when `b > 0`.
pub proof fn lemma_divt_bound(a: int, b: int)
    requires
        b > 0,
    ensures
        a >= 0 ==> 0 <= divt(a, b) <= a,
        a < 0 ==> a <= divt(a, b) <= 0,
{
    if a >= 0 {
        lemma_div_pos_is_pos(a, b);
        lemma_div_nonincreasing(a, b);
    } else {
        lemma_div_pos_is_pos(-a, b);
        lemma_div_nonincreasing(-a, b);
    }
}

/// The product of two values from the `i64` range stays well inside the
/// `i128` range.
pub proof fn lemma_mul_i64_fits(a: int, b: int)
    by (nonlinear_arith)
    requires
        i64::MIN <= a <= i64::MAX,
        i64::MIN <= b <= i64::MAX,
    ensures
        -0x4000_0000_0000_0000_0000_0000_0000_0000 <= a * b
            <= 0x4000_0000_0000_0000_0000_0000_0000_0000,
{
}

/// The product of a value within two `i64` differences and a micro-unit
/// scale stays well inside the `i128` range.
pub proof fn lemma_mul_wide_by_scale_fits(a: int, b: int)
    by (nonlinear_arith)
    requires
        -0x2_0000_0000_0000_0000 <= a <= 0x2_0000_0000_0000_0000,
        -0x40_0000 <= b <= 0x40_0000,
    ensures
        -0x80_0000_0000_0000_0000_0000_0000 <= a * b <= 0x80_0000_0000_0000_0000_0000_0000,
{
}

/// Narrow a 128-bit value into an `i64`, saturating.
pub fn sat_narrow(v: i128) -> (r: i64)
    ensures
        r as int == sat64(v as int),
{
    if v > i64::MAX as i128 {
        i64::MAX
    } else if v < i64::MIN as i128 {
        i64::MIN
    } else {
        v as i64
    }
}

/// Truncating 128-bit division, sign handled so that only positive divisors
/// reach the machine division.
pub fn div_i128(n: i128, d: i128) -> (r: i128)
    requires
        d != 0,
        n != i128::MIN,
        d != i128::MIN,
    ensures
        r as int == divq(n as int, d as int),
        n >= 0 ==> -n <= r <= n,
        n < 0 ==> n <= r <= -n,
{
    let (n2, d2): (i128, i128) = if d < 0 {
        (-n, -d)
    } else {
        (n, d)
    };
    proof {
        lemma_divt_bound(n2 as int, d2 as int);
    }
    n2 / d2
}

/// The sum of two scalars, saturated.
pub fn fx_add_sat(a: Fx, b: Fx) -> (r: Fx)
    ensures
        r as int == sat64(a + b),
{
    sat_narrow(a as i128 + b as i128)
}

/// The difference of two scalars, saturated.
pub fn fx_sub_sat(a: Fx, b: Fx) -> (r: Fx)
    ensures
        r as int == sat64(a - b),
{
    sat_narrow(a as i128 - b as i128)
}

/// The scalar standing for the integer `n`, saturated.
pub fn fx_from_int(n: i64) -> (r: Fx)
    ensures
        r as int == sat64(n * FX_ONE),
{
    proof {
        lemma_mul_i64_fits(n as int, FX_ONE as int);
    }
    sat_narrow(n as i128 * FX_ONE as i128)
}

/// The product of two scalars, truncating toward zero and saturated.
pub fn fx_mul(a: Fx, b: Fx) -> (r: Fx)
    ensures
        r as int == fx_mul_s(a as int, b as int),
{
    proof {
        lemma_mul_i64_fits(a as int, b as int);
    }
    let p: i128 = a as i128 * b as i128;
    let q: i128 = div_i128(p, FX_ONE as i128);
    sat_narrow(q)
}

/// The quotient of two scalars, truncating toward zero and saturated.
pub fn fx_div(a: Fx, b: Fx) -> (r: Fx)
    requires
        b != 0,
    ensures
        r as int == fx_div_s(a as int, b as int),
{
    proof {
        lemma_mul_i64_fits(a as int, FX_ONE as int);
    }
    let n: i128 = a as i128 * FX_ONE as i128;
    let q: i128 = div_i128(n, b as i128);
    sat_narrow(q)
}

} // verus!
