//! The neighboring color spaces at the hub's boundary.
//!
//! These are the value types the hub converts from: linear RGB, the pure
//! luminance space, and CIE Lab. Each is a plain record of channels with a
//! constructor; its conversion into the hub lives with `Xyz`.

use vstd::prelude::*;

verus! {

use crate::channel::{Channel, SCALE};

/// A linear RGB color with an alpha channel.
///
/// The channels are linear (gamma-expanded) intensities: the RGB-to-XYZ
/// matrix is only meaningful on linear values, so this type's constructors
/// take them directly and apply no gamma handling.
#[derive(Clone, Copy, Debug, PartialEq, Eq, Structural)]
pub struct Rgb {
    /// Linear red intensity, conceptually in `[0, 1]`.
    pub red: Channel,
    /// Linear green intensity, conceptually in `[0, 1]`.
    pub green: Channel,
    /// Linear blue intensity, conceptually in `[0, 1]`.
    pub blue: Channel,
    /// Transparency: zero is fully transparent, one fully opaque.
    pub alpha: Channel,
}

impl Rgb {
    /// Linear RGB, fully opaque.
    pub fn linear_rgb(red: Channel, green: Channel, blue: Channel) -> (c: Rgb)
        ensures
            c.red == red,
            c.green == green,
            c.blue == blue,
            c.alpha.val() == SCALE as int,
    {
        Rgb { red, green, blue, alpha: Channel::one() }
    }

    /// Linear RGB and transparency.
    pub fn linear_rgba(red: Channel, green: Channel, blue: Channel, alpha: Channel) -> (c: Rgb)
        ensures
            c.red == red,
            c.green == green,
            c.blue == blue,
            c.alpha == alpha,
    {
        Rgb { red, green, blue, alpha }
    }

    /// Whether this value lies in the range the RGB-to-XYZ adapter takes:
    /// every channel within ten thousand units of zero. The rows of the
    /// conversion matrix sum slightly above one, so channel values near
    /// the storage bounds could overflow; in-range and moderately
    /// out-of-range colors all lie far inside this bound.
    pub open spec fn in_conversion_range(self) -> bool {
        &&& -10_000_000_000 <= self.red.val() <= 10_000_000_000
        &&& -10_000_000_000 <= self.green.val() <= 10_000_000_000
        &&& -10_000_000_000 <= self.blue.val() <= 10_000_000_000
    }
}

/// A pure luminance color with an alpha channel.
#[derive(Clone, Copy, Debug, PartialEq, Eq, Structural)]
pub struct Luma {
    /// Luminance: zero is black, one is white.
    pub luma: Channel,
    /// Transparency: zero is fully transparent, one fully opaque.
    pub alpha: Channel,
}

impl Luma {
    /// Luminance only, fully opaque.
    pub fn new(luma: Channel) -> (c: Luma)
        ensures
            c.luma == luma,
            c.alpha.val() == SCALE as int,
    {
        Luma { luma, alpha: Channel::one() }
    }

    /// Luminance and transparency.
    pub fn with_alpha(luma: Channel, alpha: Channel) -> (c: Luma)
        ensures
            c.luma == luma,
            c.alpha == alpha,
    {
        Luma { luma, alpha }
    }
}

/// A CIE L*a*b* color with an alpha channel, pre-scaled so that every
/// channel is conceptually in `[0, 1]` (for `l`) or `[-1, 1]` (for `a` and
/// `b`); the conversion into the hub undoes that scaling.
#[derive(Clone, Copy, Debug, PartialEq, Eq, Structural)]
pub struct Lab {
    /// Lightness, conceptually in `[0, 1]` (canonical L* divided by 100).
    pub l: Channel,
    /// Green-to-red axis, conceptually in `[-1, 1]` (canonical a* divided
    /// by 128).
    pub a: Channel,
    /// Blue-to-yellow axis, conceptually in `[-1, 1]` (canonical b*
    /// divided by 128).
    pub b: Channel,
    /// Transparency: zero is fully transparent, one fully opaque.
    pub alpha: Channel,
}

impl Lab {
    /// Lightness and the two chromatic axes, fully opaque.
    pub fn lab(l: Channel, a: Channel, b: Channel) -> (c: Lab)
        ensures
            c.l == l,
            c.a == a,
            c.b == b,
            c.alpha.val() == SCALE as int,
    {
        Lab { l, a, b, alpha: Channel::one() }
    }

    /// Lightness, the two chromatic axes, and transparency.
    pub fn laba(l: Channel, a: Channel, b: Channel, alpha: Channel) -> (c: Lab)
        ensures
            c.l == l,
            c.a == a,
            c.b == b,
            c.alpha == alpha,
    {
        Lab { l, a, b, alpha }
    }

    /// Whether this value lies in the range the Lab-to-XYZ adapter takes:
    /// every channel within ten thousand units of zero. The cubic inverse
    /// of the Lab nonlinearity would overflow the channel storage width on
    /// values beyond that; in-range and moderately out-of-range colors all
    /// lie far inside this bound.
    pub open spec fn in_conversion_range(self) -> bool {
        &&& -10_000_000_000 <= self.l.val() <= 10_000_000_000
        &&& -10_000_000_000 <= self.a.val() <= 10_000_000_000
        &&& -10_000_000_000 <= self.b.val() <= 10_000_000_000
    }
}

} // verus!
