//! The capability contracts every color space satisfies.
//!
//! `ColorSpace` gives validity and clamping, `Mix` gives blending by a
//! factor, `Shade` gives lightening. Each trait names its behaviour in a
//! spec function that the implementing space defines for its own geometry,
//! and carries proof obligations for the laws every space must uphold.

use vstd::prelude::*;

verus! {

use crate::channel::{clamp_val, Channel, SCALE};

/// The base capability: a queryable validity state and an explicit clamp.
///
/// Validity is advisory: arithmetic may leave the declared ranges freely,
/// and clamping is a separate, explicit operation.
pub trait ColorSpace: Sized + Copy {
    /// Whether every channel of this value, alpha included, lies within its
    /// declared closed range.
    spec fn valid(self) -> bool;

    /// This value with every channel forced into its declared range.
    spec fn clamped(self) -> Self;

    /// True iff every channel, the alpha channel included, is in range.
    fn is_valid(&self) -> (r: bool)
        ensures
            r == (*self).valid(),
    ;

    /// A copy of this value with every channel clamped into range; the
    /// receiver is untouched.
    fn clamp(&self) -> (r: Self)
        ensures
            r == (*self).clamped(),
    ;

    /// Clamps every channel in place, to the same effect as `clamp`.
    fn clamp_self(&mut self)
        ensures
            *final(self) == (*old(self)).clamped(),
    ;

    /// Clamping is idempotent: clamping an already clamped value changes
    /// nothing.
    proof fn lemma_clamp_idempotent(v: Self)
        ensures
            v.clamped().clamped() == v.clamped(),
    ;

    /// A clamped value is valid.
    proof fn lemma_clamp_valid(v: Self)
        ensures
            v.clamped().valid(),
    ;
}

/// Blending: the per-channel affine combination of two values of one space.
pub trait Mix: Sized + Copy {
    /// The blend of `self` toward `other` by `factor`, after the factor is
    /// clamped to the unit range: per-channel linear interpolation, the
    /// alpha channel included.
    spec fn mixed(self, other: Self, factor: Channel) -> Self;

    /// Blends `self` toward `other`: factors outside the unit range are
    /// clamped to it first.
    fn mix(&self, other: &Self, factor: Channel) -> (r: Self)
        ensures
            r == (*self).mixed(*other, factor),
    ;

    /// A factor of zero returns the receiver unchanged.
    proof fn lemma_mix_zero(a: Self, b: Self, f: Channel)
        requires
            f.val() == 0,
        ensures
            a.mixed(b, f) == a,
    ;

    /// A factor of one returns the other color.
    proof fn lemma_mix_one(a: Self, b: Self, f: Channel)
        requires
            f.val() == SCALE as int,
        ensures
            a.mixed(b, f) == b,
    ;

    /// Mixing a color with itself changes nothing, whatever the factor.
    proof fn lemma_mix_same(a: Self, f: Channel)
        ensures
            a.mixed(a, f) == a,
    ;

    /// The factor is clamped to the unit range before use: a factor outside
    /// it blends exactly as the nearest endpoint does.
    proof fn lemma_mix_factor_clamped(a: Self, b: Self, f: Channel, g: Channel)
        requires
            g.val() == clamp_val(f.val(), 0, SCALE as int),
        ensures
            a.mixed(b, f) == a.mixed(b, g),
    ;
}

/// Lightening: a raw additive shift of the one channel that carries
/// perceptual lightness in the implementing space.
pub trait Shade: Sized + Copy {
    /// Whether the lightness channel can take `amount` without leaving the
    /// channel storage width.
    spec fn can_lighten(self, amount: Channel) -> bool;

    /// This value with `amount` added to its lightness channel and every
    /// other channel untouched.
    spec fn lightened(self, amount: Channel) -> Self;

    /// Adds `amount` to the lightness channel. No clamping is applied:
    /// lighten is a raw additive operator, and callers clamp separately
    /// when a normalized result is required.
    fn lighten(&self, amount: Channel) -> (r: Self)
        requires
            (*self).can_lighten(amount),
        ensures
            r == (*self).lightened(amount),
    ;
}

} // verus!
