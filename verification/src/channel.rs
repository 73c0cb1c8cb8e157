//! The numeric foundation: a fixed-point channel value and the clamp utility.
//!
//! Every color space stores its coordinates as `Channel` values: signed
//! fixed-point numbers with six decimal places. Fixed-point arithmetic keeps
//! every operation exact enough to state channel formulas precisely: the
//! scaled product and quotient round toward negative infinity, and the
//! contracts below say so in full.

use vstd::prelude::*;

verus! {

use vstd::arithmetic::div_mod::{
    lemma_div_is_ordered, lemma_div_multiples_vanish, lemma_div_nonincreasing,
    lemma_fundamental_div_mod, lemma_fundamental_div_mod_converse_div, lemma_mod_bound,
};
use vstd::arithmetic::mul::{
    lemma_mul_inequality, lemma_mul_is_commutative, lemma_mul_unary_negation,
};

/// Number of raw steps in one unit: a channel value of one (full intensity,
/// full opacity) is stored as `SCALE` steps.
pub const SCALE: i64 = 1_000_000;

/// One channel of a color value: a fixed-point number with six decimal
/// places, stored as a signed count of `1 / SCALE` steps.
///
/// Channels are plain values; arithmetic on them never rounds silently in a
/// way the contracts do not state.
#[derive(Clone, Copy, Debug, PartialEq, Eq, Structural)]
pub struct Channel {
    /// The underlying count of steps: `raw == SCALE` is the value one.
    pub raw: i64,
}

/// Whether a mathematical value fits the storage width of a channel.
pub open spec fn fits_i64(v: int) -> bool {
    i64::MIN <= v <= i64::MAX
}

/// The channel holding the given raw value, for use in specifications; a
/// value outside the storage width is truncated as the cast is.
pub open spec fn ch_of(v: int) -> Channel {
    Channel { raw: v as i64 }
}

/// The scaled product of two raw channel values: the mathematical product
/// brought back to channel scale, rounded toward negative infinity.
pub open spec fn scaled_mul(a: int, b: int) -> int {
    (a * b) / (SCALE as int)
}

/// The scaled quotient of two raw channel values: `a / b` at channel scale,
/// rounded toward negative infinity. Only defined for `b != 0`.
pub open spec fn scaled_div(a: int, b: int) -> int {
    if b > 0 {
        (a * (SCALE as int)) / b
    } else {
        ((-a) * (SCALE as int)) / (-b)
    }
}

/// A value forced into the closed interval `[lo, hi]`.
pub open spec fn clamp_val(v: int, lo: int, hi: int) -> int {
    if v < lo {
        lo
    } else if v > hi {
        hi
    } else {
        v
    }
}

/// Linear interpolation at channel scale: `a + f * (b - a)` where `f` is a
/// raw factor (so `f == SCALE` means one).
pub open spec fn lerp_val(a: int, b: int, f: int) -> int {
    a + scaled_mul(f, b - a)
}

/// Quotient rounded toward negative infinity, for a positive divisor: the
/// same operation that `/` denotes in specifications.
pub(crate) fn floor_div(a: i128, d: i128) -> (q: i128)
    requires
        0 < d <= 0x40000000000000000000000000000000,
        -0x40000000000000000000000000000000 <= a <= 0x40000000000000000000000000000000,
    ensures
        q == a as int / d as int,
{
    if a >= 0 {
        let q = (a as u128) / (d as u128);
        q as i128
    } else {
        let n = (-a) as u128;
        let du = d as u128;
        let qc = (n + du - 1) / du;
        proof {
            let ni = n as int;
            let di = d as int;
            lemma_fundamental_div_mod(ni + di - 1, di);
            let qi = (ni + di - 1) / di;
            let s = (ni + di - 1) % di;
            lemma_div_nonincreasing(ni + di - 1, di);
            lemma_mul_unary_negation(qi, di);
            assert(a as int == (-qi) * di + (di - 1 - s));
            lemma_fundamental_div_mod_converse_div(a as int, di, -qi, di - 1 - s);
        }
        -(qc as i128)
    }
}

impl Channel {
    /// The mathematical value of this channel, in raw steps.
    pub open spec fn val(self) -> int {
        self.raw as int
    }

    /// Whether this channel lies in the unit range `[0, 1]`.
    pub open spec fn unit_valid(self) -> bool {
        0 <= self.val() <= SCALE as int
    }

    /// This channel forced into the unit range `[0, 1]`.
    pub open spec fn unit_clamped(self) -> Channel {
        Channel { raw: clamp_val(self.val(), 0, SCALE as int) as i64 }
    }

    /// A channel holding `raw` steps.
    pub fn from_raw(raw: i64) -> (c: Channel)
        ensures
            c.val() == raw as int,
    {
        Channel { raw }
    }

    /// The channel value zero.
    pub fn zero() -> (c: Channel)
        ensures
            c.val() == 0,
    {
        Channel { raw: 0 }
    }

    /// The channel value one.
    pub fn one() -> (c: Channel)
        ensures
            c.val() == SCALE as int,
    {
        Channel { raw: SCALE }
    }

    /// Channel addition: exact.
    pub fn add(self, other: Channel) -> (r: Channel)
        requires
            fits_i64(self.val() + other.val()),
        ensures
            r.val() == self.val() + other.val(),
    {
        Channel { raw: self.raw + other.raw }
    }

    /// Channel subtraction: exact.
    pub fn sub(self, other: Channel) -> (r: Channel)
        requires
            fits_i64(self.val() - other.val()),
        ensures
            r.val() == self.val() - other.val(),
    {
        Channel { raw: self.raw - other.raw }
    }

    /// Channel multiplication: the scaled product, rounded toward negative
    /// infinity.
    pub fn mul(self, other: Channel) -> (r: Channel)
        requires
            fits_i64(scaled_mul(self.val(), other.val())),
        ensures
            r.val() == scaled_mul(self.val(), other.val()),
    {
        proof {
            assert(-0x40000000000000000000000000000000
                <= self.val() * other.val()
                <= 0x40000000000000000000000000000000) by (nonlinear_arith)
                requires
                    -0x8000000000000000 <= self.val() <= 0x7fffffffffffffff,
                    -0x8000000000000000 <= other.val() <= 0x7fffffffffffffff;
        }
        let p: i128 = (self.raw as i128) * (other.raw as i128);
        let q = floor_div(p, SCALE as i128);
        Channel { raw: q as i64 }
    }

    /// Channel division: the scaled quotient, rounded toward negative
    /// infinity. The divisor must be nonzero: there is no numeric infinity
    /// among fixed-point values to absorb a division by zero.
    pub fn div(self, other: Channel) -> (r: Channel)
        requires
            other.val() != 0,
            fits_i64(scaled_div(self.val(), other.val())),
        ensures
            r.val() == scaled_div(self.val(), other.val()),
    {
        if other.raw > 0 {
            let p: i128 = (self.raw as i128) * (SCALE as i128);
            let q = floor_div(p, other.raw as i128);
            Channel { raw: q as i64 }
        } else {
            let p: i128 = (-(self.raw as i128)) * (SCALE as i128);
            let q = floor_div(p, -(other.raw as i128));
            Channel { raw: q as i64 }
        }
    }

    /// Linear interpolation from `self` toward `other` by a factor already
    /// in the unit range. Total: the result always lies between the two
    /// endpoints, so it always fits.
    pub fn interpolate(self, other: Channel, factor: Channel) -> (r: Channel)
        requires
            0 <= factor.val() <= SCALE as int,
        ensures
            r.val() == lerp_val(self.val(), other.val(), factor.val()),
    {
        let a: i128 = self.raw as i128;
        let b: i128 = other.raw as i128;
        let f: i128 = factor.raw as i128;
        let d: i128 = b - a;
        proof {
            assert(-0x10000000000000000 * 0x100000
                <= (factor.val()) * (other.val() - self.val())
                <= 0x10000000000000000 * 0x100000) by (nonlinear_arith)
                requires
                    0 <= factor.val() <= 0x100000,
                    -0x10000000000000000 <= other.val() - self.val() <= 0x10000000000000000;
            lemma_lerp_term_between(factor.val(), other.val() - self.val());
        }
        let p: i128 = f * d;
        let q = floor_div(p, SCALE as i128);
        Channel { raw: (a + q) as i64 }
    }
}

/// The interpolation step `scaled_mul(f, d)` lies between `0` and `d` for a
/// factor `f` in the unit range, whichever side of zero `d` is on.
pub proof fn lemma_lerp_term_between(f: int, d: int)
    requires
        0 <= f <= SCALE as int,
    ensures
        d >= 0 ==> 0 <= scaled_mul(f, d) <= d,
        d < 0 ==> d <= scaled_mul(f, d) <= 0,
{
    let s = SCALE as int;
    if d >= 0 {
        assert(0 <= f * d <= s * d) by (nonlinear_arith)
            requires
                0 <= f <= s,
                0 <= d,
                s == 1000000;
        lemma_div_is_ordered(0, f * d, s);
        lemma_div_is_ordered(f * d, s * d, s);
        lemma_div_multiples_vanish(d, s);
    } else {
        assert(s * d <= f * d <= 0) by (nonlinear_arith)
            requires
                0 <= f <= s,
                d < 0,
                s == 1000000;
        lemma_div_is_ordered(s * d, f * d, s);
        lemma_div_is_ordered(f * d, 0, s);
        lemma_div_multiples_vanish(d, s);
    }
}

/// Range of the scaled product by a nonnegative constant: for a channel
/// value `v` within `m` of zero, `scaled_mul(v, c)` lies between the scaled
/// products of the bounds by `c`.
pub proof fn lemma_scaled_mul_const_range(v: int, c: int, m: int)
    requires
        0 <= c,
        0 <= m,
        -m <= v <= m,
    ensures
        ((-m) * c) / (SCALE as int) <= scaled_mul(v, c) <= (m * c) / (SCALE as int),
{
    lemma_mul_inequality(-m, v, c);
    lemma_mul_inequality(v, m, c);
    lemma_div_is_ordered((-m) * c, v * c, SCALE as int);
    lemma_div_is_ordered(v * c, m * c, SCALE as int);
}

/// Dividing a nonzero channel value by itself gives exactly one.
pub proof fn lemma_scaled_div_self(v: int)
    requires
        v != 0,
    ensures
        scaled_div(v, v) == SCALE as int,
{
    if v > 0 {
        lemma_div_multiples_vanish(SCALE as int, v);
    } else {
        lemma_div_multiples_vanish(SCALE as int, -v);
    }
}

/// Multiplying by a positive channel value and then dividing by it again
/// returns the original nonnegative value to within the rounding of the two
/// scaled operations: the round trip never overshoots, and it undershoots
/// by at most `SCALE / b + 1` raw steps.
pub proof fn lemma_mul_div_round_trip(a: int, b: int)
    requires
        0 <= a,
        0 < b,
    ensures
        a - (SCALE as int) / b - 1 <= scaled_div(scaled_mul(a, b), b) <= a,
{
    let s = SCALE as int;
    let m = (a * b) / s;
    let r = (a * b) % s;
    lemma_fundamental_div_mod(a * b, s);
    lemma_mod_bound(a * b, s);
    assert(m * s == a * b - r) by (nonlinear_arith)
        requires
            a * b == s * m + r;
    lemma_div_is_ordered(m * s, a * b, b);
    lemma_mul_is_commutative(a, b);
    lemma_div_multiples_vanish(a, b);
    let k = s / b;
    let t = s % b;
    lemma_fundamental_div_mod(s, b);
    lemma_mod_bound(s, b);
    if t == 0 {
        assert(a * b - s == (a - k) * b) by (nonlinear_arith)
            requires
                s == b * k,
        ;
        lemma_fundamental_div_mod_converse_div(a * b - s, b, a - k, 0);
    } else {
        assert(a * b - s == (a - k - 1) * b + (b - t)) by (nonlinear_arith)
            requires
                s == b * k + t,
        ;
        lemma_fundamental_div_mod_converse_div(a * b - s, b, a - k - 1, b - t);
    }
    lemma_div_is_ordered(a * b - s, m * s, b);
}

/// The clamp utility: `value` forced into the closed interval
/// `[min, max]`. Total: below the interval gives `min`, above gives `max`,
/// inside gives `value` itself.
pub fn clamp(value: Channel, min: Channel, max: Channel) -> (r: Channel)
    ensures
        r.val() == clamp_val(value.val(), min.val(), max.val()),
{
    if value.raw < min.raw {
        min
    } else if value.raw > max.raw {
        max
    } else {
        value
    }
}

} // verus!
