//! Products and quotients of 53-bit binary fractions.
//!
//! The overview scales rectangles by ratios such as one half of a monitor's height.
//! A ratio is held as the nearest binary fraction with 53 significant bits, ties going
//! to the even one, and a product is brought back to 53 bits the same way before it is
//! rounded to whole pixels. This is the arithmetic of the machine's double-precision
//! numbers on positive values that neither overflow nor become subnormal.

use vstd::prelude::*;

verus! {

use crate::arith::abs_int;
use vstd::arithmetic::power2::pow2;
use vstd::arithmetic::power2::{
    lemma2_to64, lemma_pow2_adds, lemma_pow2_pos, lemma_pow2_strictly_increases, lemma_pow2_unfold,
};

/// `2^52`, the smallest mantissa of 53 significant bits.
pub const MANTISSA_MIN: u64 = 0x10_0000_0000_0000;

/// `2^53`, one past the largest mantissa of 53 significant bits.
pub const MANTISSA_LIMIT: u64 = 0x20_0000_0000_0000;

/// The positive value `mantissa * 2^exponent`.
#[derive(Clone, Copy, Debug, PartialEq, Eq, Structural)]
pub struct Fraction {
    pub mantissa: u64,
    pub exponent: i32,
}

/// How many low bits of `n` lie beyond the 53 most significant ones.
pub open spec fn excess_bits(n: nat) -> nat
    decreases n,
{
    if n < MANTISSA_LIMIT {
        0
    } else {
        1 + excess_bits(n / 2)
    }
}

/// The integer nearest to `n / d`; of two equally near ones, the even one.
pub open spec fn nearest_even(n: nat, d: nat) -> nat
    recommends
        d > 0,
{
    let floor = n / d;
    let rest = n % d;
    if 2 * rest < d {
        floor
    } else if 2 * rest > d {
        floor + 1
    } else if floor % 2 == 0 {
        floor
    } else {
        floor + 1
    }
}

/// The 53-bit fraction nearest to `n * 2^exponent`.
pub open spec fn rounded(n: nat, exponent: int) -> (nat, int) {
    let k = excess_bits(n);
    (nearest_even(n, pow2(k)), exponent + k)
}

/// The fraction bits that a quotient of two 32-bit extents is computed with.
pub open spec fn quotient_scale() -> nat {
    pow2(84)
}

/// The 53-bit fraction nearest to `a / b`, for positive `a` and `b` below `2^32`.
pub open spec fn quotient(a: nat, b: nat) -> (nat, int) {
    let k = excess_bits(a * quotient_scale() / b);
    (nearest_even(a * quotient_scale(), b * pow2(k)), k - 84)
}

/// The integer nearest to `mantissa * 2^exponent`, halves going up.
pub open spec fn round_half_up(mantissa: nat, exponent: int) -> nat {
    if exponent >= 0 {
        mantissa * pow2(exponent as nat)
    } else {
        let d = pow2((-exponent) as nat);
        (2 * mantissa + d) / (2 * d)
    }
}

/// `n * factor`, brought to 53 bits and then rounded to an integer.
pub open spec fn scaled(n: nat, factor: (nat, int)) -> nat {
    let product = rounded(n * factor.0, factor.1);
    round_half_up(product.0, product.1)
}

/// The 53-bit fraction nearest to the product of two fractions.
pub open spec fn product(a: (nat, int), b: (nat, int)) -> (nat, int) {
    rounded(a.0 * b.0, a.1 + b.1)
}

/// The largest integer not above the 53-bit fraction nearest to `x - p`.
pub open spec fn floor_of_difference(x: int, p: (nat, int)) -> int {
    let low = if p.1 < 0 {
        p.1
    } else {
        0
    };
    let d = x * pow2((-low) as nat) - p.0 * pow2((p.1 - low) as nat);
    let nearest = rounded(abs_int(d) as nat, low);
    if nearest.1 >= 0 {
        let whole = (nearest.0 * pow2(nearest.1 as nat)) as int;
        if d >= 0 {
            whole
        } else {
            -whole
        }
    } else {
        let unit = pow2((-nearest.1) as nat) as int;
        if d >= 0 {
            nearest.0 as int / unit
        } else {
            -((nearest.0 + unit - 1) / unit)
        }
    }
}

/// The smallest integer not below the 53-bit fraction nearest to `x + p`.
pub open spec fn ceiling_of_sum(x: int, p: (nat, int)) -> int {
    -floor_of_difference(-x, p)
}

impl View for Fraction {
    type V = (nat, int);

    open spec fn view(&self) -> (nat, int) {
        (self.mantissa as nat, self.exponent as int)
    }
}

proof fn lemma_pow2_bound(k: nat)
    requires
        k <= 120,
    ensures
        0 < pow2(k) <= 0x100_0000_0000_0000_0000_0000_0000_0000,
    decreases 120 - k,
{
    lemma_pow2_pos(k);
    if k == 120 {
        lemma2_to64();
        lemma_pow2_adds(64, 32);
        lemma_pow2_adds(96, 24);
    } else {
        lemma_pow2_bound(k + 1);
        lemma_pow2_unfold(k + 1);
    }
}

proof fn lemma_pow2_84()
    ensures
        pow2(84) == 0x10_0000_0000_0000_0000_0000,
{
    lemma2_to64();
    lemma_pow2_adds(64, 20);
}

/// `2^k`.
fn power_of_two(k: u32) -> (r: u128)
    requires
        k <= 120,
    ensures
        r == pow2(k as nat),
        0 < r <= 0x100_0000_0000_0000_0000_0000_0000_0000,
{
    let mut r: u128 = 1;
    let mut i: u32 = 0;
    proof {
        lemma2_to64();
    }
    while i < k
        invariant
            i <= k <= 120,
            r == pow2(i as nat),
        decreases k - i,
    {
        proof {
            lemma_pow2_bound((i + 1) as nat);
            lemma_pow2_unfold((i + 1) as nat);
        }
        r = r * 2;
        i = i + 1;
    }
    proof {
        lemma_pow2_bound(k as nat);
    }
    r
}

/// The 53 leading bits of `n` bound it from both sides.
proof fn lemma_excess_bits(n: nat)
    ensures
        n < MANTISSA_LIMIT * pow2(excess_bits(n)),
        excess_bits(n) > 0 ==> n >= MANTISSA_MIN * pow2(excess_bits(n)),
        n < 0x1_0000_0000_0000_0000_0000_0000_0000_0000 ==> excess_bits(n) <= 75,
    decreases n,
{
    lemma2_to64();
    if n >= MANTISSA_LIMIT {
        let k = excess_bits(n / 2);
        lemma_excess_bits(n / 2);
        lemma_pow2_unfold(k + 1);
        let half = pow2(k);
        assert(MANTISSA_LIMIT * (2 * half) == 2 * (MANTISSA_LIMIT * half)) by (nonlinear_arith);
        assert(MANTISSA_MIN * (2 * half) == 2 * (MANTISSA_MIN * half)) by (nonlinear_arith);
        if n < 0x1_0000_0000_0000_0000_0000_0000_0000_0000 && k + 1 > 75 {
            lemma_pow2_adds(75, (k - 75) as nat);
            lemma_pow2_adds(64, 11);
            lemma_pow2_pos((k - 75) as nat);
            let low = pow2(75);
            let rest = pow2((k - 75) as nat);
            assert(MANTISSA_MIN * (low * rest) >= MANTISSA_MIN * low) by (nonlinear_arith)
                requires
                    rest >= 1,
                    low >= 0,
            ;
        }
    }
}

/// Rounding to 53 bits leaves at most 53 bits.
proof fn lemma_rounded_mantissa(n: nat)
    requires
        n < 0x1_0000_0000_0000_0000_0000_0000_0000_0000,
    ensures
        nearest_even(n, pow2(excess_bits(n))) <= MANTISSA_LIMIT,
        excess_bits(n) <= 75,
{
    let k = excess_bits(n);
    let d = pow2(k);
    lemma_excess_bits(n);
    lemma_pow2_pos(k);
    assert(n / d < MANTISSA_LIMIT) by (nonlinear_arith)
        requires
            n < MANTISSA_LIMIT * d,
            d > 0,
    ;
}

/// Counts the bits beyond the 53 most significant ones.
fn count_excess_bits(n: u128) -> (k: u32)
    ensures
        k == excess_bits(n as nat),
        k <= 75,
{
    let mut rest: u128 = n;
    let mut k: u32 = 0;
    proof {
        lemma_excess_bits(n as nat);
    }
    while rest >= MANTISSA_LIMIT as u128
        invariant
            k + excess_bits(rest as nat) == excess_bits(n as nat),
            excess_bits(n as nat) <= 75,
        decreases rest,
    {
        rest = rest / 2;
        k = k + 1;
    }
    k
}

fn nearest(n: u128, d: u128) -> (r: u128)
    requires
        0 < d <= 0x100_0000_0000_0000_0000_0000_0000_0000,
    ensures
        r == nearest_even(n as nat, d as nat),
{
    let floor: u128 = n / d;
    let rest: u128 = n % d;
    proof {
        assert(floor == n as nat / d as nat);
        if d == 1 {
            assert(rest == 0);
        } else {
            assert(n as int / d as int <= n / 2) by (nonlinear_arith)
                requires
                    d >= 2,
                    n >= 0,
            ;
        }
    }
    if 2 * rest < d {
        floor
    } else if 2 * rest > d {
        floor + 1
    } else if floor % 2 == 0 {
        floor
    } else {
        floor + 1
    }
}

impl Fraction {
    /// The whole number `n`.
    pub fn whole(n: u64) -> (r: Fraction)
        ensures
            r@ == (n as nat, 0int),
    {
        Fraction { mantissa: n, exponent: 0 }
    }

    /// The fraction nearest to `a / b`.
    pub fn ratio(a: u32, b: u32) -> (r: Fraction)
        requires
            a > 0,
            b > 0,
        ensures
            r@ == quotient(a as nat, b as nat),
            0 < r.mantissa <= MANTISSA_LIMIT,
            -84 <= r.exponent <= -20,
    {
        proof {
            lemma_pow2_84();
        }
        let n: u128 = a as u128 * 0x10_0000_0000_0000_0000_0000u128;
        let q: u128 = n / (b as u128);
        assert(q as nat == n as nat / b as nat);
        assert(q >= MANTISSA_MIN && q <= n) by (nonlinear_arith)
            requires
                q as int == n as int / b as int,
                n >= 0x10_0000_0000_0000_0000_0000,
                0 < b <= 0xffff_ffff,
        ;
        let k: u32 = count_excess_bits(q);
        let u: u128 = power_of_two(k);
        proof {
            lemma_excess_bits(q as nat);
            if k >= 64 {
                lemma_pow2_adds(64, (k - 64) as nat);
                lemma2_to64();
                lemma_pow2_pos((k - 64) as nat);
                let more = pow2((k - 64) as nat);
                assert(MANTISSA_MIN * (0x1_0000_0000_0000_0000 * more) >= MANTISSA_MIN
                    * 0x1_0000_0000_0000_0000) by (nonlinear_arith)
                    requires
                        more >= 1,
                ;
            } else {
                lemma2_to64();
                lemma_pow2_strictly_increases(k as nat, 64);
            }
            assert(0 < b * u <= 0x100_0000_0000_0000_0000_0000_0000_0000) by (nonlinear_arith)
                requires
                    0 < b <= 0xffff_ffff,
                    0 < u,
                    u <= 0x1_0000_0000_0000_0000,
            ;
        }
        let d: u128 = b as u128 * u;
        let m: u128 = nearest(n, d);
        proof {
            // The quotient lies below `2^53` units, and not below `2^52` units or one.
            assert(q as int * b <= n < (q + 1) * b) by (nonlinear_arith)
                requires
                    q as int == n as int / b as int,
                    b > 0,
            ;
            assert(n < MANTISSA_LIMIT * d) by (nonlinear_arith)
                requires
                    n < (q + 1) * b,
                    q + 1 <= MANTISSA_LIMIT * u,
                    d == b * u,
                    b > 0,
            ;
            assert((n as int) / (d as int) < MANTISSA_LIMIT) by (nonlinear_arith)
                requires
                    n < MANTISSA_LIMIT * d,
                    d > 0,
            ;
            if k == 0 {
                lemma2_to64();
                assert(d == b);
            }
            assert(q >= MANTISSA_MIN * u) by (nonlinear_arith)
                requires
                    q >= MANTISSA_MIN,
                    k == 0 ==> u == 1,
                    k > 0 ==> q >= MANTISSA_MIN * u,
            ;
            assert(n >= MANTISSA_MIN * d) by (nonlinear_arith)
                requires
                    n >= q * b,
                    q >= MANTISSA_MIN * u,
                    d == b * u,
                    b > 0,
            ;
            assert(n as int / d as int >= 1) by (nonlinear_arith)
                requires
                    n >= MANTISSA_MIN * d,
                    d > 0,
            ;
        }
        Fraction { mantissa: m as u64, exponent: k as i32 - 84 }
    }

    /// The fraction nearest to the product.
    pub fn times(self, other: Fraction) -> (r: Fraction)
        requires
            self.mantissa <= MANTISSA_LIMIT,
            other.mantissa <= MANTISSA_LIMIT,
            -1000 <= self.exponent <= 1000,
            -1000 <= other.exponent <= 1000,
        ensures
            r@ == product(self@, other@),
            r.mantissa <= MANTISSA_LIMIT,
            self.exponent + other.exponent <= r.exponent <= self.exponent + other.exponent + 54,
    {
        assert(self.mantissa * other.mantissa <= 0x20_0000_0000_0000 * 0x20_0000_0000_0000)
            by (nonlinear_arith)
            requires
                0 <= self.mantissa <= 0x20_0000_0000_0000,
                0 <= other.mantissa <= 0x20_0000_0000_0000,
        ;
        let n: u128 = self.mantissa as u128 * other.mantissa as u128;
        let k: u32 = count_excess_bits(n);
        let m: u128 = nearest(n, power_of_two(k));
        proof {
            lemma_rounded_mantissa(n as nat);
            lemma_excess_bits(n as nat);
            if k >= 55 {
                lemma2_to64();
                lemma_pow2_adds(32, 23);
                lemma_pow2_adds(55, (k - 55) as nat);
                lemma_pow2_pos((k - 55) as nat);
                let low = pow2(55);
                let rest = pow2((k - 55) as nat);
                assert(MANTISSA_MIN * (low * rest) >= MANTISSA_MIN * low) by (nonlinear_arith)
                    requires
                        rest >= 1,
                        low >= 0,
                ;
            }
        }
        Fraction { mantissa: m as u64, exponent: self.exponent + other.exponent + k as i32 }
    }

    /// The nearest integer, halves going up.
    pub fn round(self) -> (r: u128)
        requires
            self.mantissa <= MANTISSA_LIMIT,
            -120 <= self.exponent <= 64,
        ensures
            r == round_half_up(self@.0, self@.1),
    {
        if self.exponent >= 0 {
            let u: u128 = power_of_two(self.exponent as u32);
            proof {
                lemma_pow2_bound(self.exponent as nat);
                lemma2_to64();
                if self.exponent < 64 {
                    lemma_pow2_adds(self.exponent as nat, (64 - self.exponent) as nat);
                    lemma_pow2_pos((64 - self.exponent) as nat);
                    let more = pow2((64 - self.exponent) as nat);
                    assert(u <= u * more) by (nonlinear_arith)
                        requires
                            more >= 1,
                            u > 0,
                    ;
                }
                assert(0 <= self.mantissa * u <= 0x20_0000_0000_0000 * 0x1_0000_0000_0000_0000)
                    by (nonlinear_arith)
                    requires
                        0 <= self.mantissa <= 0x20_0000_0000_0000,
                        0 < u <= 0x1_0000_0000_0000_0000,
                ;
            }
            self.mantissa as u128 * u
        } else {
            let d: u128 = power_of_two((-self.exponent) as u32);
            (2 * self.mantissa as u128 + d) / (2 * d)
        }
    }
}

/// `n * factor`, brought to 53 bits and then rounded to an integer.
pub fn scale_round(n: u64, factor: Fraction) -> (r: u128)
    requires
        n <= MANTISSA_LIMIT,
        factor.mantissa <= MANTISSA_LIMIT,
        -120 <= factor.exponent <= -11,
    ensures
        r == scaled(n as nat, factor@),
{
    Fraction::whole(n).times(factor).round()
}

proof fn lemma_pow2_monotone(a: nat, b: nat)
    requires
        a <= b,
    ensures
        0 < pow2(a) <= pow2(b),
{
    lemma_pow2_pos(a);
    if a < b {
        lemma_pow2_strictly_increases(a, b);
    }
}

/// The largest integer not above the fraction nearest to `x - p`.
pub fn floor_difference(x: i64, p: Fraction) -> (r: i128)
    requires
        -0x8000_0000 <= x <= 0x8000_0000,
        p.mantissa <= MANTISSA_LIMIT,
        -84 <= p.exponent <= 56,
    ensures
        r == floor_of_difference(x as int, p@),
        -0x100_0000_0000_0000_0000_0000_0000_0000 <= r
            <= 0x100_0000_0000_0000_0000_0000_0000_0000,
{
    let low: i32 = if p.exponent < 0 {
        p.exponent
    } else {
        0
    };
    let x_unit: u128 = power_of_two((-low) as u32);
    let p_unit: u128 = power_of_two((p.exponent - low) as u32);
    proof {
        lemma_pow2_84();
        lemma_pow2_monotone((-low) as nat, 84);
        lemma_pow2_monotone((p.exponent - low) as nat, 56);
        lemma2_to64();
        lemma_pow2_monotone(56, 64);
        assert(-0x8000_0000 * 0x10_0000_0000_0000_0000_0000 <= x * x_unit <= 0x8000_0000
            * 0x10_0000_0000_0000_0000_0000) by (nonlinear_arith)
            requires
                -0x8000_0000 <= x <= 0x8000_0000,
                0 < x_unit <= 0x10_0000_0000_0000_0000_0000,
        ;
        assert(0 <= p.mantissa * p_unit <= 0x20_0000_0000_0000 * 0x1_0000_0000_0000_0000)
            by (nonlinear_arith)
            requires
                0 <= p.mantissa <= 0x20_0000_0000_0000,
                0 < p_unit <= 0x1_0000_0000_0000_0000,
        ;
    }
    let d: i128 = x as i128 * x_unit as i128 - p.mantissa as i128 * p_unit as i128;
    let magnitude: u128 = if d < 0 {
        (-d) as u128
    } else {
        d as u128
    };
    let k: u32 = count_excess_bits(magnitude);
    let unit: u128 = power_of_two(k);
    let m: u128 = nearest(magnitude, unit);
    let exponent: i32 = low + k as i32;
    proof {
        lemma_rounded_mantissa(magnitude as nat);
        lemma_excess_bits(magnitude as nat);
        assert(k <= 67) by {
            if k > 67 {
                lemma_pow2_monotone(67, k as nat);
                lemma_pow2_adds(64, 3);
                assert(MANTISSA_MIN * pow2(k as nat) >= MANTISSA_MIN * pow2(67))
                    by (nonlinear_arith)
                    requires
                        pow2(k as nat) >= pow2(67),
                ;
            }
        }
    }
    if exponent >= 0 {
        let up: u128 = power_of_two(exponent as u32);
        proof {
            lemma_pow2_monotone(exponent as nat, 67);
            lemma_pow2_adds(64, 3);
            assert(0 <= m * up <= 0x20_0000_0000_0000 * 0x8_0000_0000_0000_0000)
                by (nonlinear_arith)
                requires
                    0 <= m <= 0x20_0000_0000_0000,
                    0 < up <= 0x8_0000_0000_0000_0000,
            ;
        }
        let whole: i128 = (m * up) as i128;
        if d >= 0 {
            whole
        } else {
            -whole
        }
    } else {
        let down: u128 = power_of_two((-exponent) as u32);
        if d >= 0 {
            proof {
                crate::arith::lemma_quotient_bounds(m as int, down as int);
            }
            (m / down) as i128
        } else {
            proof {
                crate::arith::lemma_quotient_bounds(m + down - 1, down as int);
                assert((m + down - 1) / (down as int) <= m) by (nonlinear_arith)
                    requires
                        down >= 1,
                        m >= 0,
                ;
            }
            -(((m + down - 1) / down) as i128)
        }
    }
}

/// The smallest integer not below the fraction nearest to `x + p`.
pub fn ceiling_sum(x: i64, p: Fraction) -> (r: i128)
    requires
        -0x8000_0000 <= x <= 0x8000_0000,
        p.mantissa <= MANTISSA_LIMIT,
        -84 <= p.exponent <= 56,
    ensures
        r == ceiling_of_sum(x as int, p@),
        -0x100_0000_0000_0000_0000_0000_0000_0000 <= r
            <= 0x100_0000_0000_0000_0000_0000_0000_0000,
{
    -floor_difference(-x, p)
}

proof fn lemma_nearest_is_near(n: nat, d: nat)
    requires
        d > 0,
    ensures
        2 * abs_int(nearest_even(n, d) * d - n) <= d,
        d == 1 ==> nearest_even(n, d) == n,
{
    let floor = n / d;
    let rest = n % d;
    assert(n == floor * d + rest && 0 <= rest < d) by (nonlinear_arith)
        requires
            floor == n / d,
            rest == n % d,
            d > 0,
    ;
    assert((floor + 1) * d == floor * d + d) by (nonlinear_arith);
}

/// The nearest integer to `m * 2^(j + k - 84)`, times `2^84`.
proof fn lemma_round_is_near(m: nat, j: nat, k: nat)
    requires
        j + k <= 200,
    ensures
        2 * abs_int(
            round_half_up(m, j + k - 84) * quotient_scale() - m * pow2(j) * pow2(k),
        ) <= quotient_scale(),
{
    let v = round_half_up(m, j + k - 84);
    let s = quotient_scale();
    lemma_pow2_pos(j);
    lemma_pow2_pos(k);
    lemma_pow2_pos(84);
    lemma_pow2_adds(j, k);
    lemma_pow2_pos(j + k);
    let both = pow2(j + k);
    assert(m * pow2(j) * pow2(k) == m * both) by (nonlinear_arith)
        requires
            both == pow2(j) * pow2(k),
    ;
    if j + k >= 84 {
        let e = (j + k - 84) as nat;
        lemma_pow2_adds(e, 84);
        assert(v * s == m * both) by (nonlinear_arith)
            requires
                v == m * pow2(e),
                both == pow2(e) * s,
        ;
    } else {
        let e = (84 - j - k) as nat;
        let d = pow2(e);
        lemma_pow2_pos(e);
        lemma_pow2_adds(e, j + k);
        assert(s == d * both);
        assert(v == (2 * m + d) / (2 * d));
        assert(v * (2 * d) <= 2 * m + d < v * (2 * d) + 2 * d) by (nonlinear_arith)
            requires
                v == (2 * m + d) / (2 * d),
                d > 0,
        ;
        let gap = v * d - m;
        assert(v * (2 * d) == 2 * (v * d)) by (nonlinear_arith);
        assert(-(d as int) <= 2 * gap <= d);
        assert(v * s - m * both == gap * both) by (nonlinear_arith)
            requires
                s == d * both,
                gap == v * d - m,
        ;
        assert(-(d as int) * both <= 2 * (gap * both) <= d * both) by (nonlinear_arith)
            requires
                -(d as int) <= 2 * gap <= d,
                both > 0,
        ;
        assert(-(d as int) * both == -(d * both)) by (nonlinear_arith);
    }
}

/// What a distance comes to when it is scaled by the ratio of two extents is the nearest whole
/// number to the exact proportion, as long as the numbers are not far beyond those of any
/// screen.
pub proof fn law_scaling_keeps_the_proportion(n: nat, a: nat, b: nat)
    requires
        0 < a <= 0xffff_ffff,
        0 < b <= 0xffff_ffff,
        n * a <= 0x4_0000_0000_0000,
    ensures
        2 * abs_int(scaled(n, quotient(a, b)) * b - n * a) <= b,
{
    let s = quotient_scale();
    lemma_pow2_84();
    let q = a * s / b;
    assert(q * b <= a * s) by (nonlinear_arith)
        requires
            q == a * s / b,
            b > 0,
    ;
    let k = excess_bits(q);
    let kk = pow2(k);
    lemma_pow2_pos(k);
    lemma_excess_bits(q);
    assert(q <= a * s) by (nonlinear_arith)
        requires
            q * b <= a * s,
            b >= 1,
            q >= 0,
    ;
    assert(a * s < 0x1_0000_0000_0000_0000_0000_0000_0000_0000) by (nonlinear_arith)
        requires
            a <= 0xffff_ffff,
            s == 0x10_0000_0000_0000_0000_0000,
    ;
    let m = quotient(a, b).0;
    let unit = b * kk;
    assert(unit > 0) by (nonlinear_arith)
        requires
            b > 0,
            kk > 0,
            unit == b * kk,
    ;
    lemma_nearest_is_near(a * s, unit);
    // A unit of the ratio is a tiny part of it.
    if k > 0 {
        assert(MANTISSA_MIN * kk * b <= a * s) by (nonlinear_arith)
            requires
                q >= MANTISSA_MIN * kk,
                q * b <= a * s,
                b > 0,
        ;
        assert(MANTISSA_MIN * kk * b == MANTISSA_MIN * unit) by (nonlinear_arith)
            requires
                unit == b * kk,
        ;
        assert(unit <= a * 0x1_0000_0000);
    } else {
        lemma2_to64();
        assert(kk == 1);
        assert(unit == b) by (nonlinear_arith)
            requires
                unit == b * kk,
                kk == 1,
        ;
    }
    assert(unit <= a * 0x1_0000_0000);
    let product = n * m;
    let j = excess_bits(product);
    let jj = pow2(j);
    lemma_pow2_pos(j);
    lemma_excess_bits(product);
    // The mantissa of the ratio has 53 bits.
    assert(m <= MANTISSA_LIMIT) by {
        assert(q < MANTISSA_LIMIT * kk);
        let floor = (a * s) / unit;
        assert(floor < MANTISSA_LIMIT) by (nonlinear_arith)
            requires
                floor == (a * s) / unit,
                unit == b * kk,
                q == a * s / b,
                q < MANTISSA_LIMIT * kk,
                b > 0,
                kk > 0,
        ;
    }
    assert(n <= 0x4_0000_0000_0000) by (nonlinear_arith)
        requires
            n * a <= 0x4_0000_0000_0000,
            a >= 1,
            n >= 0,
    ;
    assert(product < 0x1_0000_0000_0000_0000_0000_0000_0000_0000) by (nonlinear_arith)
        requires
            product == n * m,
            n <= 0x4_0000_0000_0000,
            m <= 0x20_0000_0000_0000,
    ;
    let p = nearest_even(product, jj);
    lemma_nearest_is_near(product, jj);
    let off = abs_int(p * jj - product);
    assert(0x20_0000_0000_0000 * off <= product) by {
        if j > 0 {
            assert(2 * off <= jj);
            assert(MANTISSA_MIN * jj <= product);
        } else {
            lemma2_to64();
            assert(jj == 1);
            assert(p == product);
            assert(p * jj == product) by (nonlinear_arith)
                requires
                    jj == 1,
                    p == product,
            ;
        }
    }
    let v = scaled(n, quotient(a, b));
    assert(v == round_half_up(p, j + k - 84));
    lemma_round_is_near(p, j, k);
    // All four sides of the chain, in parts of 2^-84 / b.
    let x = v * s * b;
    let y = p * jj * kk * b;
    let z = product * kk * b;
    let w = n * a * s;
    let rounding = v * s - p * jj * kk;
    assert(x - y == rounding * b) by (nonlinear_arith)
        requires
            x == v * s * b,
            y == p * jj * kk * b,
            rounding == v * s - p * jj * kk,
    ;
    assert(-(s * b) <= 2 * (x - y) <= s * b) by (nonlinear_arith)
        requires
            x - y == rounding * b,
            -(s as int) <= 2 * rounding <= s,
            b > 0,
    ;
    let shift = p * jj - product;
    assert(y - z == shift * unit) by (nonlinear_arith)
        requires
            y == p * jj * kk * b,
            z == product * kk * b,
            shift == p * jj - product,
            unit == b * kk,
    ;
    assert(z == product * unit) by (nonlinear_arith)
        requires
            z == product * kk * b,
            unit == b * kk,
    ;
    assert(-(product * unit) <= 0x20_0000_0000_0000 * (shift * unit) <= product * unit)
        by (nonlinear_arith)
        requires
            -(product as int) <= 0x20_0000_0000_0000 * shift <= product,
            unit > 0,
    ;
    let slip = m * unit - a * s;
    assert(-(unit as int) <= 2 * slip <= unit);
    assert(z - w == n * slip) by (nonlinear_arith)
        requires
            z == product * unit,
            product == n * m,
            w == n * a * s,
            slip == m * unit - a * s,
    ;
    assert(-(n * unit) <= 2 * (n * slip) <= n * unit) by (nonlinear_arith)
        requires
            -(unit as int) <= 2 * slip <= unit,
            n >= 0,
    ;
    let na = n * a;
    assert(n * unit <= na * 0x1_0000_0000) by (nonlinear_arith)
        requires
            unit <= a * 0x1_0000_0000,
            n >= 0,
            na == n * a,
    ;
    assert(w == na * s);
    let gap = v * b - na;
    assert(x - w == gap * s) by (nonlinear_arith)
        requires
            x == v * s * b,
            w == na * s,
            gap == v * b - na,
    ;
    assert(z <= w + na * 0x8000_0000);
    assert(2 * (x - w) <= s * b + s - 1 && 2 * (x - w) >= -(s * b + s - 1));
    assert(2 * gap <= b && 2 * gap >= -(b as int)) by (nonlinear_arith)
        requires
            2 * (gap * s) <= s * b + s - 1,
            2 * (gap * s) >= -(s * b + s - 1),
            s > 0,
    ;
}

/// Rounding to 53 bits changes a number by a tiny part of it.
pub proof fn lemma_rounding_is_near(n: nat)
    requires
        n < 0x1_0000_0000_0000_0000_0000_0000_0000_0000,
    ensures
        ({
            let j = excess_bits(n);
            let p = nearest_even(n, pow2(j));
            &&& j <= 75
            &&& n < 0x10_0000_0000_0000_0000_0000 ==> j <= 31
            &&& p <= MANTISSA_LIMIT
            &&& -(n as int) <= 0x20_0000_0000_0000 * (p * pow2(j) - n) <= n
        }),
{
    let j = excess_bits(n);
    let jj = pow2(j);
    lemma_pow2_pos(j);
    lemma_excess_bits(n);
    lemma_rounded_mantissa(n);
    let p = nearest_even(n, jj);
    lemma_nearest_is_near(n, jj);
    lemma2_to64();
    if j > 31 && n < 0x10_0000_0000_0000_0000_0000 {
        lemma_pow2_adds(32, (j - 32) as nat);
        lemma_pow2_pos((j - 32) as nat);
        let rest = pow2((j - 32) as nat);
        assert(jj >= 0x1_0000_0000) by (nonlinear_arith)
            requires
                jj == 0x1_0000_0000 * rest,
                rest >= 1,
        ;
        assert(false);
    }
    if j == 0 {
        assert(p * jj == n) by (nonlinear_arith)
            requires
                jj == 1,
                p == n,
        ;
    }
}

/// A mantissa of 53 bits, or the least one of 54, is rounded without a loss.
pub proof fn lemma_exact_halving(p: nat)
    requires
        p <= MANTISSA_LIMIT,
    ensures
        excess_bits(p) <= 1,
        excess_bits(p) == 0 ==> nearest_even(p, pow2(excess_bits(p))) == p,
        excess_bits(p) == 1 ==> 2 * nearest_even(p, pow2(excess_bits(p))) == p,
{
    lemma2_to64();
    lemma_nearest_is_near(p, 1);
    if p == MANTISSA_LIMIT {
        assert(excess_bits(p / 2) == 0);
        assert(excess_bits(p) == 1);
        lemma_pow2_unfold(1);
        assert(pow2(1) == 2);
    }
}

/// Half of a number is rounded up.
pub proof fn law_halves_are_rounded_up(n: nat)
    requires
        n <= 0xffff_ffff,
    ensures
        2 * scaled(n, (1, -1)) == n || 2 * scaled(n, (1, -1)) == n + 1,
{
    lemma2_to64();
    lemma_nearest_is_near(n, 1);
    assert(n * 1 == n);
    assert(rounded(n * 1, -1) == (n, -1int));
    lemma_pow2_unfold(1);
    assert(pow2(1) == 2);
    assert(round_half_up(n, -1) == (2 * n + 2) / 4);
    assert(scaled(n, (1, -1)) == round_half_up(n, -1));
}

/// A ratio of two extents is off by a tiny part of it.
proof fn lemma_quotient_is_near(a: nat, b: nat)
    requires
        0 < a <= 0xffff_ffff,
        0 < b <= 0xffff_ffff,
    ensures
        ({
            let k = (quotient(a, b).1 + 84) as nat;
            let m = quotient(a, b).0;
            let s = quotient_scale();
            &&& quotient(a, b).1 == k - 84
            &&& m <= MANTISSA_LIMIT
            &&& -(a * s) <= 0x20_0000_0000_0000 * (m * (b * pow2(k)) - a * s) <= a * s
        }),
{
    let s = quotient_scale();
    lemma_pow2_84();
    let q = a * s / b;
    let k = excess_bits(q);
    let kk = pow2(k);
    let unit = b * kk;
    let m = quotient(a, b).0;
    lemma_pow2_pos(k);
    lemma_excess_bits(q);
    lemma2_to64();
    assert(unit > 0 && q * b <= a * s && q >= 0) by (nonlinear_arith)
        requires
            q == a * s / b,
            b > 0,
            kk > 0,
            unit == b * kk,
    ;
    lemma_nearest_is_near(a * s, unit);
    if k > 0 {
        assert(0x10_0000_0000_0000 * unit <= a * s) by (nonlinear_arith)
            requires
                q >= 0x10_0000_0000_0000 * kk,
                q * b <= a * s,
                b > 0,
                unit == b * kk,
        ;
    } else {
        assert(unit == b) by (nonlinear_arith)
            requires
                unit == b * kk,
                kk == 1,
        ;
        assert(a * s >= 0x10_0000_0000_0000_0000_0000) by (nonlinear_arith)
            requires
                a >= 1,
                s == 0x10_0000_0000_0000_0000_0000,
        ;
    }
    assert(m <= MANTISSA_LIMIT) by {
        let floor = (a * s) / unit;
        assert(floor < 0x20_0000_0000_0000) by (nonlinear_arith)
            requires
                floor == (a * s) / unit,
                unit == b * kk,
                q == a * s / b,
                q < 0x20_0000_0000_0000 * kk,
                b > 0,
                kk > 0,
        ;
    }
}

/// A distance that is scaled by a ratio is off by a tiny part of it.
proof fn lemma_product_is_near(n: nat, a: nat, b: nat)
    requires
        0 < a <= 0xffff_ffff,
        0 < b <= 0xffff_ffff,
        n * a <= 0x100_0000_0000,
    ensures
        ({
            let p = product((n, 0), quotient(a, b));
            let t = (p.1 + 84) as nat;
            let s = quotient_scale();
            &&& p.1 == t - 84
            &&& p.0 <= MANTISSA_LIMIT
            &&& -(n * a * s) <= 0x8_0000_0000_0000 * (p.0 * pow2(t) * b - n * a * s) <= n * a * s
        }),
{
    lemma_quotient_is_near(a, b);
    let s = quotient_scale();
    lemma_pow2_84();
    let k = (quotient(a, b).1 + 84) as nat;
    let kk = pow2(k);
    let m = quotient(a, b).0;
    let exact = n * m;
    assert(n <= 0x100_0000_0000) by (nonlinear_arith)
        requires
            n * a <= 0x100_0000_0000,
            a >= 1,
            n >= 0,
    ;
    assert(exact < 0x1_0000_0000_0000_0000_0000_0000_0000_0000) by (nonlinear_arith)
        requires
            exact == n * m,
            n <= 0x100_0000_0000,
            m <= 0x20_0000_0000_0000,
    ;
    lemma_rounding_is_near(exact);
    let j = excess_bits(exact);
    let jj = pow2(j);
    let p = nearest_even(exact, jj);
    lemma_pow2_adds(j, k);
    lemma_pow2_pos(k);
    lemma_pow2_pos(j);
    let t = j + k;
    assert(product((n, 0), quotient(a, b)) == (p, t - 84));
    let unit = b * kk;
    let whole = p * pow2(t) * b;
    let ratio = m * unit;
    assert(whole == p * jj * unit) by (nonlinear_arith)
        requires
            whole == p * pow2(t) * b,
            pow2(t) == jj * kk,
            unit == b * kk,
    ;
    let goal = n * a * s;
    // Both roundings, brought to the same unit.
    assert(exact * unit == n * ratio) by (nonlinear_arith)
        requires
            exact == n * m,
            ratio == m * unit,
    ;
    let e = exact * unit;
    assert(-e <= 0x20_0000_0000_0000 * (whole - e) <= e) by (nonlinear_arith)
        requires
            -(exact as int) <= 0x20_0000_0000_0000 * (p * jj - exact) <= exact,
            whole == p * jj * unit,
            e == exact * unit,
            unit >= 0,
    ;
    assert(-goal <= 0x20_0000_0000_0000 * (e - goal) <= goal) by (nonlinear_arith)
        requires
            -(a * s) <= 0x20_0000_0000_0000 * (ratio - a * s) <= a * s,
            e == n * ratio,
            goal == n * a * s,
            n >= 0,
    ;
}

/// The whole number below a difference, seen from the difference itself, which is off by a
/// tiny part of it.
proof fn lemma_floor_is_near(x: int, p: (nat, int))
    requires
        -0x8000_0000 <= x <= 0x8000_0000,
        p.1 >= -84,
        p.0 * pow2((p.1 + 84) as nat) <= 0x2000_0000_0000_0000_0000_0000_0000_0000,
    ensures
        ({
            let s = quotient_scale();
            let y = x * s - p.0 * pow2((p.1 + 84) as nat);
            let r = floor_of_difference(x, p);
            &&& 0x20_0000_0000_0000 * (r * s - y) <= abs_int(y)
            &&& 0x20_0000_0000_0000 * (y - (r + 1) * s) <= abs_int(y)
        }),
{
    let s = quotient_scale();
    lemma_pow2_84();
    let f = p.0 * pow2((p.1 + 84) as nat);
    let y = x * s - f;
    let r = floor_of_difference(x, p);
    let low = if p.1 < 0 {
        p.1
    } else {
        0
    };
    let tt = (84 + low) as nat;
    let up = pow2((-low) as nat);
    let one = pow2((p.1 - low) as nat);
    let w = pow2(tt);
    lemma_pow2_adds((-low) as nat, tt);
    lemma_pow2_adds((p.1 - low) as nat, tt);
    lemma_pow2_pos(tt);
    lemma_pow2_pos((-low) as nat);
    lemma_pow2_bound((-low) as nat);
    lemma_pow2_monotone((-low) as nat, 84);
    let d = x * up - p.0 * one;
    assert(d * w == y) by (nonlinear_arith)
        requires
            d == x * up - p.0 * one,
            up * w == s,
            one * w == pow2((p.1 + 84) as nat),
            y == x * s - p.0 * pow2((p.1 + 84) as nat),
    ;
    let size = abs_int(d) as nat;
    assert(p.0 * one <= f) by (nonlinear_arith)
        requires
            f == p.0 * pow2((p.1 + 84) as nat),
            one * w == pow2((p.1 + 84) as nat),
            w >= 1,
            one >= 0,
    ;
    assert(-0x8000_0000 * s <= x * up <= 0x8000_0000 * s) by (nonlinear_arith)
        requires
            -0x8000_0000 <= x <= 0x8000_0000,
            0 < up <= s,
    ;
    assert(0 <= p.0 * one) by (nonlinear_arith)
        requires
            one >= 0,
    ;
    assert(size < 0x1_0000_0000_0000_0000_0000_0000_0000_0000);
    lemma_rounding_is_near(size);
    let e = excess_bits(size);
    let ee = pow2(e);
    let m = nearest_even(size, ee);
    lemma_pow2_pos(e);
    let v = ee * w;
    lemma_pow2_adds(e, tt);
    assert(v > 0) by (nonlinear_arith)
        requires
            v == ee * w,
            ee > 0,
            w > 0,
    ;
    // The rounded difference in the common unit.
    let rough = if d >= 0 {
        (m * v) as int
    } else {
        -(m * v)
    };
    assert(abs_int(y) == size * w) by (nonlinear_arith)
        requires
            d * w == y,
            w > 0,
            size == abs_int(d),
    ;
    assert(-(size * w) <= 0x20_0000_0000_0000 * (m * v - size * w) <= size * w)
        by (nonlinear_arith)
        requires
            -(size as int) <= 0x20_0000_0000_0000 * (m * ee - size) <= size,
            v == ee * w,
            w > 0,
    ;
    assert(y == (if d >= 0 {
        (size * w) as int
    } else {
        -(size * w)
    })) by (nonlinear_arith)
        requires
            d * w == y,
            size == abs_int(d),
    ;
    if low + e >= 0 {
        lemma_pow2_adds((low + e) as nat, 84);
        let whole = (m * pow2((low + e) as nat)) as int;
        assert(v == pow2((low + e) as nat) * s);
        assert(whole * s == m * v) by (nonlinear_arith)
            requires
                whole == m * pow2((low + e) as nat),
                v == pow2((low + e) as nat) * s,
        ;
        assert((-whole) * s == -(whole * s)) by (nonlinear_arith);
        assert(r * s == rough);
    } else {
        lemma_pow2_adds((-(low + e)) as nat, e + tt);
        let unit = pow2((-(low + e)) as nat) as int;
        lemma_pow2_pos((-(low + e)) as nat);
        assert(unit * v == s);
        if d >= 0 {
            assert(r * s <= m * v < (r + 1) * s) by (nonlinear_arith)
                requires
                    r == m as int / unit,
                    unit > 0,
                    unit * v == s,
                    v > 0,
            ;
        } else {
            let up = (m + unit - 1) / unit;
            assert(r == -up);
            assert((up - 1) * s < m * v <= up * s) by (nonlinear_arith)
                requires
                    up == (m + unit - 1) / unit,
                    unit > 0,
                    unit * v == s,
                    v > 0,
            ;
            assert((-up) * s == -(up * s) && (-up + 1) * s == -((up - 1) * s))
                by (nonlinear_arith);
        }
    }
    assert((r + 1) * s == r * s + s) by (nonlinear_arith);
    assert(r * s <= rough < r * s + s);
}

/// A place that is moved back by a distance in proportion to two extents is the exact one to
/// within a pixel, and never beyond it, as long as the numbers are not far beyond those of any
/// screen.
pub proof fn law_moving_back_keeps_the_proportion(x: int, n: nat, a: nat, b: nat)
    requires
        -0x8000_0000 <= x <= 0x8000_0000,
        0 < a <= 0xffff_ffff,
        0 < b <= 0x4_0000,
        n * a <= 0x100_0000_0000,
    ensures
        ({
            let r = floor_of_difference(x, product((n, 0), quotient(a, b)));
            r * b <= x * b - n * a <= (r + 1) * b
        }),
{
    lemma_product_is_near(n, a, b);
    let s = quotient_scale();
    lemma_pow2_84();
    let p = product((n, 0), quotient(a, b));
    let t = (p.1 + 84) as nat;
    let f = p.0 * pow2(t);
    let fb = f * b;
    let goal = n * a * s;
    assert(0 <= goal <= 0x100_0000_0000 * s) by (nonlinear_arith)
        requires
            goal == n * a * s,
            0 <= n * a <= 0x100_0000_0000,
            s >= 0,
    ;
    assert(fb <= 0x200_0000_0000 * s);
    assert(0 <= f <= fb) by (nonlinear_arith)
        requires
            fb == f * b,
            b >= 1,
            f >= 0,
    ;
    lemma_floor_is_near(x, p);
    let r = floor_of_difference(x, p);
    let y = x * s - f;
    let yb = y * b;
    let exact = x * b - n * a;
    assert(yb == x * b * s - fb) by (nonlinear_arith)
        requires
            yb == y * b,
            y == x * s - f,
            fb == f * b,
    ;
    assert(exact * s == x * b * s - goal) by (nonlinear_arith)
        requires
            exact == x * b - n * a,
            goal == n * a * s,
    ;
    assert(-0x2_0000_0000_0000 * s <= x * b * s <= 0x2_0000_0000_0000 * s) by (nonlinear_arith)
        requires
            -0x8000_0000 <= x <= 0x8000_0000,
            0 < b <= 0x4_0000,
            s >= 0,
    ;
    assert(abs_int(y) * b == abs_int(yb)) by (nonlinear_arith)
        requires
            yb == y * b,
            b > 0,
    ;
    let rb = r * b;
    assert(0x20_0000_0000_0000 * (rb * s - yb) <= abs_int(y) * b) by (nonlinear_arith)
        requires
            0x20_0000_0000_0000 * (r * s - y) <= abs_int(y),
            yb == y * b,
            rb == r * b,
            b > 0,
    ;
    assert(0x20_0000_0000_0000 * (yb - (rb + b) * s) <= abs_int(y) * b) by (nonlinear_arith)
        requires
            0x20_0000_0000_0000 * (y - (r + 1) * s) <= abs_int(y),
            yb == y * b,
            rb == r * b,
            b > 0,
    ;
    // What is off is less than one part of the common unit.
    assert(rb <= exact) by (nonlinear_arith)
        requires
            2 * (rb * s - exact * s) < s,
            s > 0,
    ;
    assert(exact <= rb + b) by (nonlinear_arith)
        requires
            2 * (exact * s - (rb + b) * s) < s,
            s > 0,
    ;
    assert((r + 1) * b == rb + b) by (nonlinear_arith)
        requires
            rb == r * b,
    ;
}

/// A place that is moved on by a distance in proportion to two extents is the exact one to
/// within a pixel, and never short of it.
pub proof fn law_moving_on_keeps_the_proportion(x: int, n: nat, a: nat, b: nat)
    requires
        -0x8000_0000 <= x <= 0x8000_0000,
        0 < a <= 0xffff_ffff,
        0 < b <= 0x4_0000,
        n * a <= 0x100_0000_0000,
    ensures
        ({
            let r = ceiling_of_sum(x, product((n, 0), quotient(a, b)));
            (r - 1) * b <= x * b + n * a <= r * b
        }),
{
    law_moving_back_keeps_the_proportion(-x, n, a, b);
    let r = floor_of_difference(-x, product((n, 0), quotient(a, b)));
    assert((-x) * b == -(x * b)) by (nonlinear_arith);
    assert((-r) * b == -(r * b) && (-r - 1) * b == -((r + 1) * b)) by (nonlinear_arith);
}

} // verus!
