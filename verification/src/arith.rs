//! Saturating and clamping arithmetic on the integers of Win32 geometry.

use vstd::prelude::*;

verus! {

/// The value of `v` when it is moved to the nearest end of `i32`'s range.
pub open spec fn clamp_i32(v: int) -> int {
    if v < i32::MIN {
        i32::MIN as int
    } else if v > i32::MAX {
        i32::MAX as int
    } else {
        v
    }
}

/// The value of `v` when it is moved to the nearest end of `low..=high`.
pub open spec fn clamp_int(v: int, low: int, high: int) -> int {
    if v < low {
        low
    } else if v > high {
        high
    } else {
        v
    }
}

pub open spec fn max_int(a: int, b: int) -> int {
    if a >= b {
        a
    } else {
        b
    }
}

pub open spec fn min_int(a: int, b: int) -> int {
    if a <= b {
        a
    } else {
        b
    }
}

pub open spec fn abs_int(v: int) -> int {
    if v < 0 {
        -v
    } else {
        v
    }
}

/// Quotient rounded toward zero, for a positive divisor.
pub open spec fn div_toward_zero(n: int, d: int) -> int
    recommends
        d > 0,
{
    if n >= 0 {
        n / d
    } else {
        -((-n) / d)
    }
}

/// Moves a 64-bit value to the nearest `i32`.
pub fn clamp_to_i32(v: i64) -> (r: i32)
    ensures
        r == clamp_i32(v as int),
{
    if v < i32::MIN as i64 {
        i32::MIN
    } else if v > i32::MAX as i64 {
        i32::MAX
    } else {
        v as i32
    }
}

/// `a + b`, stopping at the ends of the range.
pub fn saturating_add_i32(a: i32, b: i32) -> (r: i32)
    ensures
        r == clamp_i32(a + b),
{
    clamp_to_i32(a as i64 + b as i64)
}

/// `a - b`, stopping at the ends of the range.
pub fn saturating_sub_i32(a: i32, b: i32) -> (r: i32)
    ensures
        r == clamp_i32(a - b),
{
    clamp_to_i32(a as i64 - b as i64)
}

/// `a * b`, stopping at the ends of the range.
pub fn saturating_mul_i32(a: i32, b: i32) -> (r: i32)
    ensures
        r == clamp_i32(a * b),
{
    assert(-0x8000_0000 * 0x8000_0000 <= a * b <= 0x8000_0000 * 0x8000_0000) by (nonlinear_arith)
        requires
            -0x8000_0000 <= a <= 0x7fff_ffff,
            -0x8000_0000 <= b <= 0x7fff_ffff,
    ;
    clamp_to_i32(a as i64 * b as i64)
}

/// The part of an unsigned extent that fits a signed coordinate.
pub fn extent_to_i32(v: u32) -> (r: i32)
    ensures
        r == min_int(v as int, i32::MAX as int),
        r >= 0,
{
    if v > i32::MAX as u32 {
        i32::MAX
    } else {
        v as i32
    }
}

pub fn max_i32(a: i32, b: i32) -> (r: i32)
    ensures
        r == max_int(a as int, b as int),
{
    if a >= b {
        a
    } else {
        b
    }
}

pub fn min_i32(a: i32, b: i32) -> (r: i32)
    ensures
        r == min_int(a as int, b as int),
{
    if a <= b {
        a
    } else {
        b
    }
}

/// An extent of at least one pixel.
pub fn at_least_one(v: u32) -> (r: u32)
    ensures
        r == max_int(v as int, 1),
{
    if v == 0 {
        1
    } else {
        v
    }
}

/// `n / d` as machine division computes it.
pub fn div_i64(n: i64, d: i64) -> (r: i64)
    requires
        d > 0,
    ensures
        r == div_toward_zero(n as int, d as int),
        abs_int(r as int) <= abs_int(n as int),
{
    if n >= 0 {
        proof {
            lemma_quotient_bounds(n as int, d as int);
        }
        n / d
    } else if n == i64::MIN {
        let q: i128 = (-(n as i128)) / (d as i128);
        proof {
            lemma_quotient_bounds(-(n as int), d as int);
        }
        (-q) as i64
    } else {
        proof {
            lemma_quotient_bounds(-(n as int), d as int);
        }
        -((-n) / d)
    }
}

pub proof fn lemma_quotient_bounds(n: int, d: int)
    requires
        n >= 0,
        d > 0,
    ensures
        0 <= n / d <= n,
{
    assert(0 <= n / d <= n) by (nonlinear_arith)
        requires
            n >= 0,
            d > 0,
    ;
}

/// A value that fits is left alone; any other one becomes the end that lies nearest to it.
pub proof fn law_clamping_moves_to_the_nearest_end(v: int, low: int, high: int)
    requires
        low <= high,
    ensures
        low <= clamp_int(v, low, high) <= high,
        low <= v <= high ==> clamp_int(v, low, high) == v,
        v <= low ==> clamp_int(v, low, high) == low,
        v >= high ==> clamp_int(v, low, high) == high,
        clamp_i32(v) == clamp_int(v, -0x8000_0000, 0x7fff_ffff),
{
}

/// Sums, differences and products are exact where they fit.
pub proof fn law_saturating_results_are_exact_where_they_fit(
    a: i32,
    b: i32,
    sum: i32,
    difference: i32,
    product: i32,
)
    requires
        call_ensures(saturating_add_i32, (a, b), sum),
        call_ensures(saturating_sub_i32, (a, b), difference),
        call_ensures(saturating_mul_i32, (a, b), product),
    ensures
        -0x8000_0000 <= a + b <= 0x7fff_ffff ==> sum == a + b,
        a + b > 0x7fff_ffff ==> sum == 0x7fff_ffff,
        a + b < -0x8000_0000 ==> sum == -0x8000_0000,
        -0x8000_0000 <= a - b <= 0x7fff_ffff ==> difference == a - b,
        a - b > 0x7fff_ffff ==> difference == 0x7fff_ffff,
        a - b < -0x8000_0000 ==> difference == -0x8000_0000,
        -0x8000_0000 <= a * b <= 0x7fff_ffff ==> product == a * b,
        a * b > 0x7fff_ffff ==> product == 0x7fff_ffff,
        a * b < -0x8000_0000 ==> product == -0x8000_0000,
{
}

/// The larger and the smaller of two numbers are one of them and bound both; a number and its
/// size differ by the sign alone.
pub proof fn law_the_larger_bounds_both(a: int, b: int)
    ensures
        max_int(a, b) >= a && max_int(a, b) >= b && (max_int(a, b) == a || max_int(a, b) == b),
        min_int(a, b) <= a && min_int(a, b) <= b && (min_int(a, b) == a || min_int(a, b) == b),
        abs_int(a) >= 0 && (abs_int(a) == a || abs_int(a) == -a),
{
}

/// A quotient is rounded toward zero: what is left over is smaller than the divisor and has
/// the sign of the dividend.
pub proof fn law_quotients_are_rounded_toward_zero(n: int, d: int)
    requires
        d > 0,
    ensures
        n >= 0 ==> 0 <= n - d * div_toward_zero(n, d) < d,
        n <= 0 ==> 0 <= d * div_toward_zero(n, d) - n < d,
{
    if n >= 0 {
        assert(0 <= n - d * (n / d) < d) by (nonlinear_arith)
            requires
                d > 0,
        ;
    } else {
        let m = -n;
        assert(0 <= m - d * (m / d) < d) by (nonlinear_arith)
            requires
                d > 0,
        ;
        let q = m / d;
        assert(d * (-q) == -(d * q)) by (nonlinear_arith);
    }
    if n == 0 {
        assert(d * div_toward_zero(n, d) == 0);
    }
}

} // verus!
