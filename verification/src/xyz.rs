//! The CIE 1931 XYZ color space with an alpha channel: the hub of the
//! conversion graph.
//!
//! XYZ links perceived colors to tristimulus values and is the canonical
//! intermediate for cross-space conversion: every neighboring space defines
//! one edge into XYZ, and all other pairs compose through the hub. The
//! conversions here assume the CIE Standard Illuminant D65 white point and
//! the 2 degree standard colorimetric observer (see `tristimulus`).

use vstd::prelude::*;

verus! {

use vstd::arithmetic::div_mod::{lemma_div_is_ordered, lemma_div_multiples_vanish};
use crate::channel::{
    ch_of, clamp, clamp_val, fits_i64, lerp_val, scaled_div, scaled_mul, Channel, SCALE,
    lemma_scaled_div_self, lemma_scaled_mul_const_range,
};
use crate::space::{ColorSpace, Mix, Shade};
use crate::spaces::{Lab, Luma, Rgb};
use crate::tristimulus::{X_N, Y_N, Z_N};

/// The CIE 1931 XYZ color space with an alpha channel.
#[derive(Clone, Copy, Debug, PartialEq, Eq, Structural)]
pub struct Xyz {
    /// X: the response-curve scale for the cone cells, conceptually in
    /// `[0, 1]`.
    pub x: Channel,
    /// Y: the luminance, where zero is black and one is white.
    pub y: Channel,
    /// Z: the blue stimulation scale, conceptually in `[0, 1]`.
    pub z: Channel,
    /// Transparency: zero is fully transparent, one fully opaque.
    pub alpha: Channel,
}

/// The x coordinate of the linear-RGB-to-XYZ matrix transform, in raw
/// steps: `0.4124 R + 0.3576 G + 0.1805 B`.
pub open spec fn rgb_to_x(r: int, g: int, b: int) -> int {
    scaled_mul(r, 412400) + scaled_mul(g, 357600) + scaled_mul(b, 180500)
}

/// The y coordinate of the linear-RGB-to-XYZ matrix transform, in raw
/// steps: `0.2126 R + 0.7152 G + 0.0722 B`.
pub open spec fn rgb_to_y(r: int, g: int, b: int) -> int {
    scaled_mul(r, 212600) + scaled_mul(g, 715200) + scaled_mul(b, 72200)
}

/// The z coordinate of the linear-RGB-to-XYZ matrix transform, in raw
/// steps: `0.0193 R + 0.1192 G + 0.9505 B`.
pub open spec fn rgb_to_z(r: int, g: int, b: int) -> int {
    scaled_mul(r, 19300) + scaled_mul(g, 119200) + scaled_mul(b, 950500)
}

/// The inverse of the CIE Lab nonlinearity: `t^3` above the breakpoint
/// `6/29`, and the linear continuation `3 * (6/29)^2 * (t - 4/29)` at or
/// below it. Both the breakpoint comparison and the linear branch are
/// exact rationals: `29 t > 6` decides the branch, and the linear branch
/// is `108 * (29 t - 4) / 24389` (in raw steps), since `24389 == 29^3`.
pub open spec fn f_inv_val(t: int) -> int {
    if 29 * t > 6 * (SCALE as int) {
        scaled_mul(scaled_mul(t, t), t)
    } else {
        (108 * (29 * t - 4 * (SCALE as int))) / 24389
    }
}

/// The Lab intermediate `fy = (100 L + 16) / 116`, in raw steps. The
/// factor 100 undoes the pre-scaling of the `l` channel to `[0, 1]`.
pub open spec fn lab_fy(l: int) -> int {
    (100 * l + 16 * (SCALE as int)) / 116
}

/// The Lab intermediate `fx = fy + 128 a / 500`, in raw steps. The factor
/// 128 undoes the pre-scaling of the `a` channel to `[-1, 1]`.
pub open spec fn lab_fx(l: int, a: int) -> int {
    lab_fy(l) + (128 * a) / 500
}

/// The Lab intermediate `fz = fy - 128 b / 200`, in raw steps. The factor
/// 128 undoes the pre-scaling of the `b` channel to `[-1, 1]`.
pub open spec fn lab_fz(l: int, b: int) -> int {
    lab_fy(l) - (128 * b) / 200
}

/// The x coordinate of the Lab-to-XYZ conversion: `X_N * f_inv(fx)`.
pub open spec fn lab_to_x(l: int, a: int) -> int {
    scaled_mul(X_N as int, f_inv_val(lab_fx(l, a)))
}

/// The y coordinate of the Lab-to-XYZ conversion: `Y_N * f_inv(fy)`.
pub open spec fn lab_to_y(l: int) -> int {
    scaled_mul(Y_N as int, f_inv_val(lab_fy(l)))
}

/// The z coordinate of the Lab-to-XYZ conversion: `Z_N * f_inv(fz)`.
pub open spec fn lab_to_z(l: int, b: int) -> int {
    scaled_mul(Z_N as int, f_inv_val(lab_fz(l, b)))
}

/// The Luma-to-XYZ edge: luminance becomes y, x and z are zero, alpha
/// passes through.
pub open spec fn luma_to_xyz(l: Luma) -> Xyz {
    Xyz { x: ch_of(0), y: l.luma, z: ch_of(0), alpha: l.alpha }
}

/// The XYZ-to-Luma edge the hub derives: luminance is y, alpha passes
/// through.
pub open spec fn xyz_to_luma(c: Xyz) -> Luma {
    Luma { luma: c.y, alpha: c.alpha }
}

/// The inverse of the Lab nonlinearity, on a channel. Total over channels
/// within twenty thousand units of zero; the cube would overflow the
/// storage width beyond that.
fn f_inv(t: Channel) -> (r: Channel)
    requires
        -20_000_000_000 <= t.val() <= 20_000_000_000,
    ensures
        r.val() == f_inv_val(t.val()),
        -8_000_000_000_000_000_000 <= r.val() <= 8_000_000_000_000_000_000,
{
    if 29 * (t.raw as i128) > 6 * (SCALE as i128) {
        proof {
            assert(0 <= t.val() * t.val() <= 400_000_000_000_000_000_000) by (nonlinear_arith)
                requires
                    -20_000_000_000 <= t.val() <= 20_000_000_000;
            lemma_div_is_ordered(0, t.val() * t.val(), SCALE as int);
            lemma_div_is_ordered(t.val() * t.val(), 400_000_000_000_000_000_000, SCALE as int);
        }
        let sq = t.mul(t);
        proof {
            assert(-8_000_000_000_000_000_000_000_000 <= sq.val() * t.val()
                <= 8_000_000_000_000_000_000_000_000) by (nonlinear_arith)
                requires
                    0 <= sq.val() <= 400_000_000_000_000,
                    -20_000_000_000 <= t.val() <= 20_000_000_000;
            lemma_div_is_ordered(
                -8_000_000_000_000_000_000_000_000,
                sq.val() * t.val(),
                SCALE as int,
            );
            lemma_div_is_ordered(
                sq.val() * t.val(),
                8_000_000_000_000_000_000_000_000,
                SCALE as int,
            );
        }
        sq.mul(t)
    } else {
        let n: i128 = 108 * (29 * (t.raw as i128) - 4 * (SCALE as i128));
        let q = crate::channel::floor_div(n, 24389);
        proof {
            lemma_div_is_ordered(-62_640_432_000_000, n as int, 24389);
            lemma_div_is_ordered(n as int, 62_640_432_000_000, 24389);
        }
        Channel { raw: q as i64 }
    }
}

impl Xyz {
    /// CIE XYZ, fully opaque.
    pub fn xyz(x: Channel, y: Channel, z: Channel) -> (c: Xyz)
        ensures
            c.x == x,
            c.y == y,
            c.z == z,
            c.alpha.val() == SCALE as int,
    {
        Xyz { x, y, z, alpha: Channel::one() }
    }

    /// CIE XYZ and transparency.
    pub fn xyza(x: Channel, y: Channel, z: Channel, alpha: Channel) -> (c: Xyz)
        ensures
            c.x == x,
            c.y == y,
            c.z == z,
            c.alpha == alpha,
    {
        Xyz { x, y, z, alpha }
    }

    /// The linear-RGB-to-XYZ edge: the 3-by-3 matrix transform on linear
    /// (gamma-expanded) channels, alpha passing through.
    ///
    /// The caller must supply linear RGB; this adapter applies no gamma
    /// handling (`Rgb`'s constructors say the same).
    pub fn from_rgb(rgb: &Rgb) -> (c: Xyz)
        requires
            rgb.in_conversion_range(),
        ensures
            c.x.val() == rgb_to_x(rgb.red.val(), rgb.green.val(), rgb.blue.val()),
            c.y.val() == rgb_to_y(rgb.red.val(), rgb.green.val(), rgb.blue.val()),
            c.z.val() == rgb_to_z(rgb.red.val(), rgb.green.val(), rgb.blue.val()),
            c.alpha == rgb.alpha,
    {
        proof {
            lemma_scaled_mul_const_range(rgb.red.val(), 412400, 10_000_000_000);
            lemma_scaled_mul_const_range(rgb.green.val(), 357600, 10_000_000_000);
            lemma_scaled_mul_const_range(rgb.blue.val(), 180500, 10_000_000_000);
            lemma_scaled_mul_const_range(rgb.red.val(), 212600, 10_000_000_000);
            lemma_scaled_mul_const_range(rgb.green.val(), 715200, 10_000_000_000);
            lemma_scaled_mul_const_range(rgb.blue.val(), 72200, 10_000_000_000);
            lemma_scaled_mul_const_range(rgb.red.val(), 19300, 10_000_000_000);
            lemma_scaled_mul_const_range(rgb.green.val(), 119200, 10_000_000_000);
            lemma_scaled_mul_const_range(rgb.blue.val(), 950500, 10_000_000_000);
        }
        let x = rgb.red.mul(Channel::from_raw(412400))
            .add(rgb.green.mul(Channel::from_raw(357600)))
            .add(rgb.blue.mul(Channel::from_raw(180500)));
        let y = rgb.red.mul(Channel::from_raw(212600))
            .add(rgb.green.mul(Channel::from_raw(715200)))
            .add(rgb.blue.mul(Channel::from_raw(72200)));
        let z = rgb.red.mul(Channel::from_raw(19300))
            .add(rgb.green.mul(Channel::from_raw(119200)))
            .add(rgb.blue.mul(Channel::from_raw(950500)));
        Xyz { x, y, z, alpha: rgb.alpha }
    }

    /// The Luma-to-XYZ edge: a pure luminance channel becomes y, x and z
    /// are zero, alpha passes through. Total and exact.
    pub fn from_luma(luma: &Luma) -> (c: Xyz)
        ensures
            c == luma_to_xyz(*luma),
            c.x.val() == 0,
            c.y == luma.luma,
            c.z.val() == 0,
            c.alpha == luma.alpha,
    {
        Xyz { x: Channel::zero(), y: luma.luma, z: Channel::zero(), alpha: luma.alpha }
    }

    /// The XYZ-to-Luma edge the hub derives: the luminance channel is y,
    /// alpha passes through. Total and exact.
    pub fn into_luma(&self) -> (l: Luma)
        ensures
            l == xyz_to_luma(*self),
            l.luma == self.y,
            l.alpha == self.alpha,
    {
        Luma { luma: self.y, alpha: self.alpha }
    }

    /// The Lab-to-XYZ edge: the inverse of the CIE Lab nonlinearity, scaled
    /// by the white point's tristimulus values; alpha passes through.
    pub fn from_lab(lab: &Lab) -> (c: Xyz)
        requires
            lab.in_conversion_range(),
        ensures
            c.x.val() == lab_to_x(lab.l.val(), lab.a.val()),
            c.y.val() == lab_to_y(lab.l.val()),
            c.z.val() == lab_to_z(lab.l.val(), lab.b.val()),
            c.alpha == lab.alpha,
    {
        let fy_n: i128 = 100 * (lab.l.raw as i128) + 16 * (SCALE as i128);
        let fy = crate::channel::floor_div(fy_n, 116);
        let a_shift = crate::channel::floor_div(128 * (lab.a.raw as i128), 500);
        let b_shift = crate::channel::floor_div(128 * (lab.b.raw as i128), 200);
        let fx = fy + a_shift;
        let fz = fy - b_shift;
        proof {
            lemma_div_is_ordered(-1_000_016_000_000, fy_n as int, 116);
            lemma_div_is_ordered(fy_n as int, 1_000_016_000_000, 116);
            lemma_div_is_ordered(-1_280_000_000_000, 128 * lab.a.val(), 500);
            lemma_div_is_ordered(128 * lab.a.val(), 1_280_000_000_000, 500);
            lemma_div_is_ordered(-1_280_000_000_000, 128 * lab.b.val(), 200);
            lemma_div_is_ordered(128 * lab.b.val(), 1_280_000_000_000, 200);
        }
        let fx_inv = f_inv(Channel::from_raw(fx as i64));
        let fy_inv = f_inv(Channel::from_raw(fy as i64));
        let fz_inv = f_inv(Channel::from_raw(fz as i64));
        proof {
            lemma_div_is_ordered(
                -7_603_760_000_000_000_000_000_000,
                (X_N as int) * fx_inv.val(),
                SCALE as int,
            );
            lemma_div_is_ordered(
                (X_N as int) * fx_inv.val(),
                7_603_760_000_000_000_000_000_000,
                SCALE as int,
            );
            lemma_div_is_ordered(
                -8_000_000_000_000_000_000_000_000,
                (Y_N as int) * fy_inv.val(),
                SCALE as int,
            );
            lemma_div_is_ordered(
                (Y_N as int) * fy_inv.val(),
                8_000_000_000_000_000_000_000_000,
                SCALE as int,
            );
            lemma_div_is_ordered(
                -8_710_640_000_000_000_000_000_000,
                (Z_N as int) * fz_inv.val(),
                SCALE as int,
            );
            lemma_div_is_ordered(
                (Z_N as int) * fz_inv.val(),
                8_710_640_000_000_000_000_000_000,
                SCALE as int,
            );
        }
        let x = Channel::from_raw(X_N).mul(fx_inv);
        let y = Channel::from_raw(Y_N).mul(fy_inv);
        let z = Channel::from_raw(Z_N).mul(fz_inv);
        Xyz { x, y, z, alpha: lab.alpha }
    }

    /// The per-channel sum of two colors, as a value.
    pub open spec fn added(self, other: Xyz) -> Xyz {
        Xyz {
            x: ch_of(self.x.val() + other.x.val()),
            y: ch_of(self.y.val() + other.y.val()),
            z: ch_of(self.z.val() + other.z.val()),
            alpha: ch_of(self.alpha.val() + other.alpha.val()),
        }
    }

    /// The per-channel difference of two colors, as a value.
    pub open spec fn subtracted(self, other: Xyz) -> Xyz {
        Xyz {
            x: ch_of(self.x.val() - other.x.val()),
            y: ch_of(self.y.val() - other.y.val()),
            z: ch_of(self.z.val() - other.z.val()),
            alpha: ch_of(self.alpha.val() - other.alpha.val()),
        }
    }

    /// The per-channel scaled product of two colors, as a value.
    pub open spec fn multiplied(self, other: Xyz) -> Xyz {
        Xyz {
            x: ch_of(scaled_mul(self.x.val(), other.x.val())),
            y: ch_of(scaled_mul(self.y.val(), other.y.val())),
            z: ch_of(scaled_mul(self.z.val(), other.z.val())),
            alpha: ch_of(scaled_mul(self.alpha.val(), other.alpha.val())),
        }
    }

    /// The per-channel scaled quotient of two colors, as a value.
    pub open spec fn divided(self, other: Xyz) -> Xyz {
        Xyz {
            x: ch_of(scaled_div(self.x.val(), other.x.val())),
            y: ch_of(scaled_div(self.y.val(), other.y.val())),
            z: ch_of(scaled_div(self.z.val(), other.z.val())),
            alpha: ch_of(scaled_div(self.alpha.val(), other.alpha.val())),
        }
    }

    /// Per-channel addition, the alpha channel included. Exact.
    pub fn add(self, other: Xyz) -> (r: Xyz)
        requires
            fits_i64(self.x.val() + other.x.val()),
            fits_i64(self.y.val() + other.y.val()),
            fits_i64(self.z.val() + other.z.val()),
            fits_i64(self.alpha.val() + other.alpha.val()),
        ensures
            r == self.added(other),
            r.x.val() == self.x.val() + other.x.val(),
            r.y.val() == self.y.val() + other.y.val(),
            r.z.val() == self.z.val() + other.z.val(),
            r.alpha.val() == self.alpha.val() + other.alpha.val(),
    {
        Xyz {
            x: self.x.add(other.x),
            y: self.y.add(other.y),
            z: self.z.add(other.z),
            alpha: self.alpha.add(other.alpha),
        }
    }

    /// Per-channel subtraction, the alpha channel included. Exact.
    pub fn sub(self, other: Xyz) -> (r: Xyz)
        requires
            fits_i64(self.x.val() - other.x.val()),
            fits_i64(self.y.val() - other.y.val()),
            fits_i64(self.z.val() - other.z.val()),
            fits_i64(self.alpha.val() - other.alpha.val()),
        ensures
            r == self.subtracted(other),
            r.x.val() == self.x.val() - other.x.val(),
            r.y.val() == self.y.val() - other.y.val(),
            r.z.val() == self.z.val() - other.z.val(),
            r.alpha.val() == self.alpha.val() - other.alpha.val(),
    {
        Xyz {
            x: self.x.sub(other.x),
            y: self.y.sub(other.y),
            z: self.z.sub(other.z),
            alpha: self.alpha.sub(other.alpha),
        }
    }

    /// Per-channel scaled multiplication, the alpha channel included.
    pub fn mul(self, other: Xyz) -> (r: Xyz)
        requires
            fits_i64(scaled_mul(self.x.val(), other.x.val())),
            fits_i64(scaled_mul(self.y.val(), other.y.val())),
            fits_i64(scaled_mul(self.z.val(), other.z.val())),
            fits_i64(scaled_mul(self.alpha.val(), other.alpha.val())),
        ensures
            r == self.multiplied(other),
            r.x.val() == scaled_mul(self.x.val(), other.x.val()),
            r.y.val() == scaled_mul(self.y.val(), other.y.val()),
            r.z.val() == scaled_mul(self.z.val(), other.z.val()),
            r.alpha.val() == scaled_mul(self.alpha.val(), other.alpha.val()),
    {
        Xyz {
            x: self.x.mul(other.x),
            y: self.y.mul(other.y),
            z: self.z.mul(other.z),
            alpha: self.alpha.mul(other.alpha),
        }
    }

    /// Per-channel scaled division, the alpha channel included: dividing by
    /// a zero alpha is a caller responsibility, stated here as a
    /// precondition since fixed-point values have no infinity to absorb it.
    pub fn div(self, other: Xyz) -> (r: Xyz)
        requires
            other.x.val() != 0,
            other.y.val() != 0,
            other.z.val() != 0,
            other.alpha.val() != 0,
            fits_i64(scaled_div(self.x.val(), other.x.val())),
            fits_i64(scaled_div(self.y.val(), other.y.val())),
            fits_i64(scaled_div(self.z.val(), other.z.val())),
            fits_i64(scaled_div(self.alpha.val(), other.alpha.val())),
        ensures
            r == self.divided(other),
            r.x.val() == scaled_div(self.x.val(), other.x.val()),
            r.y.val() == scaled_div(self.y.val(), other.y.val()),
            r.z.val() == scaled_div(self.z.val(), other.z.val()),
            r.alpha.val() == scaled_div(self.alpha.val(), other.alpha.val()),
    {
        Xyz {
            x: self.x.div(other.x),
            y: self.y.div(other.y),
            z: self.z.div(other.z),
            alpha: self.alpha.div(other.alpha),
        }
    }

    /// Addition of one scalar to every channel, the alpha channel
    /// included. Exact.
    pub fn add_scalar(self, c: Channel) -> (r: Xyz)
        requires
            fits_i64(self.x.val() + c.val()),
            fits_i64(self.y.val() + c.val()),
            fits_i64(self.z.val() + c.val()),
            fits_i64(self.alpha.val() + c.val()),
        ensures
            r.x.val() == self.x.val() + c.val(),
            r.y.val() == self.y.val() + c.val(),
            r.z.val() == self.z.val() + c.val(),
            r.alpha.val() == self.alpha.val() + c.val(),
    {
        Xyz {
            x: self.x.add(c),
            y: self.y.add(c),
            z: self.z.add(c),
            alpha: self.alpha.add(c),
        }
    }

    /// Subtraction of one scalar from every channel, the alpha channel
    /// included. Exact.
    pub fn sub_scalar(self, c: Channel) -> (r: Xyz)
        requires
            fits_i64(self.x.val() - c.val()),
            fits_i64(self.y.val() - c.val()),
            fits_i64(self.z.val() - c.val()),
            fits_i64(self.alpha.val() - c.val()),
        ensures
            r.x.val() == self.x.val() - c.val(),
            r.y.val() == self.y.val() - c.val(),
            r.z.val() == self.z.val() - c.val(),
            r.alpha.val() == self.alpha.val() - c.val(),
    {
        Xyz {
            x: self.x.sub(c),
            y: self.y.sub(c),
            z: self.z.sub(c),
            alpha: self.alpha.sub(c),
        }
    }

    /// Scaled multiplication of every channel by one scalar, the alpha
    /// channel included.
    pub fn mul_scalar(self, c: Channel) -> (r: Xyz)
        requires
            fits_i64(scaled_mul(self.x.val(), c.val())),
            fits_i64(scaled_mul(self.y.val(), c.val())),
            fits_i64(scaled_mul(self.z.val(), c.val())),
            fits_i64(scaled_mul(self.alpha.val(), c.val())),
        ensures
            r.x.val() == scaled_mul(self.x.val(), c.val()),
            r.y.val() == scaled_mul(self.y.val(), c.val()),
            r.z.val() == scaled_mul(self.z.val(), c.val()),
            r.alpha.val() == scaled_mul(self.alpha.val(), c.val()),
    {
        Xyz {
            x: self.x.mul(c),
            y: self.y.mul(c),
            z: self.z.mul(c),
            alpha: self.alpha.mul(c),
        }
    }

    /// Scaled division of every channel by one nonzero scalar, the alpha
    /// channel included.
    pub fn div_scalar(self, c: Channel) -> (r: Xyz)
        requires
            c.val() != 0,
            fits_i64(scaled_div(self.x.val(), c.val())),
            fits_i64(scaled_div(self.y.val(), c.val())),
            fits_i64(scaled_div(self.z.val(), c.val())),
            fits_i64(scaled_div(self.alpha.val(), c.val())),
        ensures
            r.x.val() == scaled_div(self.x.val(), c.val()),
            r.y.val() == scaled_div(self.y.val(), c.val()),
            r.z.val() == scaled_div(self.z.val(), c.val()),
            r.alpha.val() == scaled_div(self.alpha.val(), c.val()),
    {
        Xyz {
            x: self.x.div(c),
            y: self.y.div(c),
            z: self.z.div(c),
            alpha: self.alpha.div(c),
        }
    }
}

impl Default for Xyz {
    /// Black, fully opaque: every channel zero except alpha, which is one.
    fn default() -> (c: Xyz)
        ensures
            c.x.val() == 0,
            c.y.val() == 0,
            c.z.val() == 0,
            c.alpha.val() == SCALE as int,
    {
        Xyz::xyz(Channel::zero(), Channel::zero(), Channel::zero())
    }
}

impl ColorSpace for Xyz {
    /// Every channel of XYZ, alpha included, is declared in `[0, 1]`.
    open spec fn valid(self) -> bool {
        self.x.unit_valid() && self.y.unit_valid() && self.z.unit_valid()
            && self.alpha.unit_valid()
    }

    open spec fn clamped(self) -> Xyz {
        Xyz {
            x: self.x.unit_clamped(),
            y: self.y.unit_clamped(),
            z: self.z.unit_clamped(),
            alpha: self.alpha.unit_clamped(),
        }
    }

    fn is_valid(&self) -> (r: bool) {
        self.x.raw >= 0 && self.x.raw <= SCALE && self.y.raw >= 0 && self.y.raw <= SCALE
            && self.z.raw >= 0 && self.z.raw <= SCALE && self.alpha.raw >= 0
            && self.alpha.raw <= SCALE
    }

    fn clamp(&self) -> (r: Xyz) {
        let mut c = *self;
        c.clamp_self();
        c
    }

    fn clamp_self(&mut self) {
        self.x = clamp(self.x, Channel::zero(), Channel::one());
        self.y = clamp(self.y, Channel::zero(), Channel::one());
        self.z = clamp(self.z, Channel::zero(), Channel::one());
        self.alpha = clamp(self.alpha, Channel::zero(), Channel::one());
    }

    proof fn lemma_clamp_idempotent(v: Xyz) {
    }

    proof fn lemma_clamp_valid(v: Xyz) {
    }
}

impl Mix for Xyz {
    /// Per-channel linear interpolation by the factor clamped to the unit
    /// range, the alpha channel included.
    open spec fn mixed(self, other: Xyz, factor: Channel) -> Xyz {
        let f = clamp_val(factor.val(), 0, SCALE as int);
        Xyz {
            x: ch_of(lerp_val(self.x.val(), other.x.val(), f)),
            y: ch_of(lerp_val(self.y.val(), other.y.val(), f)),
            z: ch_of(lerp_val(self.z.val(), other.z.val(), f)),
            alpha: ch_of(lerp_val(self.alpha.val(), other.alpha.val(), f)),
        }
    }

    fn mix(&self, other: &Xyz, factor: Channel) -> (r: Xyz) {
        let f = clamp(factor, Channel::zero(), Channel::one());
        Xyz {
            x: self.x.interpolate(other.x, f),
            y: self.y.interpolate(other.y, f),
            z: self.z.interpolate(other.z, f),
            alpha: self.alpha.interpolate(other.alpha, f),
        }
    }

    proof fn lemma_mix_zero(a: Xyz, b: Xyz, f: Channel) {
    }

    proof fn lemma_mix_one(a: Xyz, b: Xyz, f: Channel) {
        lemma_div_multiples_vanish(b.x.val() - a.x.val(), SCALE as int);
        lemma_div_multiples_vanish(b.y.val() - a.y.val(), SCALE as int);
        lemma_div_multiples_vanish(b.z.val() - a.z.val(), SCALE as int);
        lemma_div_multiples_vanish(b.alpha.val() - a.alpha.val(), SCALE as int);
    }

    proof fn lemma_mix_same(a: Xyz, f: Channel) {
    }

    proof fn lemma_mix_factor_clamped(a: Xyz, b: Xyz, f: Channel, g: Channel) {
    }
}

impl Shade for Xyz {
    open spec fn can_lighten(self, amount: Channel) -> bool {
        fits_i64(self.y.val() + amount.val())
    }

    /// Lightening shifts the luminance channel y and nothing else.
    open spec fn lightened(self, amount: Channel) -> Xyz {
        Xyz {
            x: self.x,
            y: ch_of(self.y.val() + amount.val()),
            z: self.z,
            alpha: self.alpha,
        }
    }

    fn lighten(&self, amount: Channel) -> (r: Xyz) {
        Xyz { x: self.x, y: self.y.add(amount), z: self.z, alpha: self.alpha }
    }
}

/// Converting a luminance value into the hub and back returns it exactly:
/// the Luma edge pair is a lossless round trip.
pub proof fn lemma_luma_round_trip(l: Luma)
    ensures
        xyz_to_luma(luma_to_xyz(l)) == l,
{
}

/// Adding a color and then subtracting it again returns the original
/// exactly, whenever the intermediate sums fit the channel storage width:
/// fixed-point addition and subtraction are exact inverses.
pub proof fn lemma_add_sub(a: Xyz, b: Xyz)
    requires
        fits_i64(a.x.val() + b.x.val()),
        fits_i64(a.y.val() + b.y.val()),
        fits_i64(a.z.val() + b.z.val()),
        fits_i64(a.alpha.val() + b.alpha.val()),
    ensures
        a.added(b).subtracted(b) == a,
{
}

/// Dividing a color by itself gives one in every channel, alpha included,
/// whenever no channel is zero.
pub proof fn lemma_div_self(a: Xyz)
    requires
        a.x.val() != 0,
        a.y.val() != 0,
        a.z.val() != 0,
        a.alpha.val() != 0,
    ensures
        a.divided(a).x.val() == SCALE as int,
        a.divided(a).y.val() == SCALE as int,
        a.divided(a).z.val() == SCALE as int,
        a.divided(a).alpha.val() == SCALE as int,
{
    lemma_scaled_div_self(a.x.val());
    lemma_scaled_div_self(a.y.val());
    lemma_scaled_div_self(a.z.val());
    lemma_scaled_div_self(a.alpha.val());
}

} // verus!
