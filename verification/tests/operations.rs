//! The shared capabilities and the arithmetic overlay on the hub space.

use palette::{clamp, Channel, ColorSpace, Mix, Shade, Xyz, SCALE};

/// A channel from a value in units (1.0 is full intensity).
fn ch(v: f64) -> Channel {
    Channel::from_raw((v * 1_000_000.0).round() as i64)
}

#[test]
fn default_is_opaque_black() {
    let d = Xyz::default();
    assert_eq!(d.x, ch(0.0));
    assert_eq!(d.y, ch(0.0));
    assert_eq!(d.z, ch(0.0));
    assert_eq!(d.alpha, ch(1.0));
}

#[test]
fn validity_covers_the_closed_unit_range() {
    assert!(Xyz::xyz(ch(0.0), ch(0.0), ch(0.0)).is_valid());
    assert!(Xyz::xyz(ch(1.0), ch(1.0), ch(1.0)).is_valid());
    assert!(!Xyz::xyz(ch(1.000001), ch(0.5), ch(0.5)).is_valid());
    assert!(!Xyz::xyz(ch(0.5), ch(-0.000001), ch(0.5)).is_valid());
    assert!(!Xyz::xyza(ch(0.5), ch(0.5), ch(0.5), ch(1.5)).is_valid());
}

#[test]
fn clamp_forces_every_channel_into_range() {
    let v = Xyz::xyza(ch(-0.5), ch(0.25), ch(2.0), ch(1.25));
    let c = v.clamp();
    assert_eq!(c, Xyz::xyza(ch(0.0), ch(0.25), ch(1.0), ch(1.0)));
    // the receiver is untouched
    assert_eq!(v.x, ch(-0.5));
}

#[test]
fn clamp_is_idempotent_and_yields_validity() {
    let v = Xyz::xyza(ch(-3.0), ch(0.5), ch(7.0), ch(-0.25));
    let once = v.clamp();
    assert_eq!(once.clamp(), once);
    assert!(once.is_valid());
}

#[test]
fn clamp_self_matches_clamp() {
    let v = Xyz::xyza(ch(1.5), ch(-1.5), ch(0.75), ch(0.5));
    let mut w = v;
    w.clamp_self();
    assert_eq!(w, v.clamp());
}

#[test]
fn clamp_utility_bounds_both_sides() {
    assert_eq!(clamp(ch(5.0), ch(0.0), ch(1.0)), ch(1.0));
    assert_eq!(clamp(ch(-5.0), ch(0.0), ch(1.0)), ch(0.0));
    assert_eq!(clamp(ch(0.5), ch(0.0), ch(1.0)), ch(0.5));
}

#[test]
fn mix_at_zero_returns_the_receiver() {
    let a = Xyz::xyza(ch(0.1), ch(0.2), ch(0.3), ch(0.4));
    let b = Xyz::xyza(ch(0.9), ch(0.8), ch(0.7), ch(0.6));
    assert_eq!(a.mix(&b, ch(0.0)), a);
}

#[test]
fn mix_at_one_returns_the_other() {
    let a = Xyz::xyza(ch(0.1), ch(0.2), ch(0.3), ch(0.4));
    let b = Xyz::xyza(ch(0.9), ch(0.8), ch(0.7), ch(0.6));
    assert_eq!(a.mix(&b, ch(1.0)), b);
}

#[test]
fn mix_with_itself_changes_nothing() {
    let a = Xyz::xyza(ch(0.1), ch(0.2), ch(0.3), ch(0.4));
    assert_eq!(a.mix(&a, ch(0.37)), a);
}

#[test]
fn mix_halfway_averages_channels() {
    let a = Xyz::xyz(ch(0.0), ch(0.2), ch(1.0));
    let b = Xyz::xyz(ch(1.0), ch(0.6), ch(0.0));
    let m = a.mix(&b, ch(0.5));
    assert_eq!(m.x, ch(0.5));
    assert_eq!(m.y, ch(0.4));
    assert_eq!(m.z, ch(0.5));
    assert_eq!(m.alpha, ch(1.0));
}

#[test]
fn mix_clamps_the_factor() {
    let a = Xyz::xyza(ch(0.1), ch(0.2), ch(0.3), ch(0.4));
    let b = Xyz::xyza(ch(0.9), ch(0.8), ch(0.7), ch(0.6));
    assert_eq!(a.mix(&b, ch(1.5)), a.mix(&b, ch(1.0)));
    assert_eq!(a.mix(&b, ch(-0.5)), a.mix(&b, ch(0.0)));
}

#[test]
fn lighten_shifts_only_luminance() {
    let a = Xyz::xyza(ch(0.3), ch(0.4), ch(0.5), ch(0.6));
    let lighter = a.lighten(ch(0.2));
    assert_eq!(lighter, Xyz::xyza(ch(0.3), ch(0.6), ch(0.5), ch(0.6)));
    // no clamping: lighten is a raw additive operator
    let over = a.lighten(ch(0.8));
    assert_eq!(over.y, ch(1.2));
    let darker = a.lighten(ch(-0.3));
    assert_eq!(darker.y, ch(0.1));
}

#[test]
fn add_is_channel_wise() {
    let a = Xyz::xyza(ch(0.1), ch(0.2), ch(0.3), ch(0.4));
    let b = Xyz::xyza(ch(0.4), ch(0.3), ch(0.2), ch(0.1));
    assert_eq!(a.add(b), Xyz::xyza(ch(0.5), ch(0.5), ch(0.5), ch(0.5)));
}

#[test]
fn sub_undoes_add_exactly() {
    let a = Xyz::xyza(ch(0.15), ch(0.25), ch(0.35), ch(0.45));
    let b = Xyz::xyza(ch(0.75), ch(-0.5), ch(12.0), ch(0.125));
    assert_eq!(a.add(b).sub(b), a);
    assert_eq!(a.add_scalar(ch(0.3)).sub_scalar(ch(0.3)), a);
}

#[test]
fn mul_is_the_scaled_product() {
    let a = Xyz::xyza(ch(0.5), ch(0.25), ch(2.0), ch(1.0));
    let b = Xyz::xyza(ch(0.5), ch(0.5), ch(0.5), ch(1.0));
    assert_eq!(a.mul(b), Xyz::xyza(ch(0.25), ch(0.125), ch(1.0), ch(1.0)));
    assert_eq!(a.mul_scalar(ch(2.0)), Xyz::xyza(ch(1.0), ch(0.5), ch(4.0), ch(2.0)));
}

#[test]
fn div_by_itself_gives_one_everywhere() {
    let a = Xyz::xyza(ch(0.3), ch(-0.7), ch(12.5), ch(0.1));
    let unit = a.div(a);
    assert_eq!(unit, Xyz::xyza(ch(1.0), ch(1.0), ch(1.0), ch(1.0)));
}

#[test]
fn div_is_the_scaled_quotient() {
    let a = Xyz::xyza(ch(0.5), ch(1.0), ch(0.25), ch(1.0));
    let b = Xyz::xyza(ch(2.0), ch(4.0), ch(0.5), ch(1.0));
    assert_eq!(a.div(b), Xyz::xyza(ch(0.25), ch(0.25), ch(0.5), ch(1.0)));
    assert_eq!(a.div_scalar(ch(2.0)), Xyz::xyza(ch(0.25), ch(0.5), ch(0.125), ch(0.5)));
}

#[test]
fn mul_div_round_trip_stays_within_the_stated_bound() {
    // 0.333333 * 0.3 / 0.3: each scaled operation rounds down, so the
    // round trip may undershoot, by at most SCALE / b + 1 raw steps, and
    // never overshoots.
    let a = Channel::from_raw(333_333);
    let b = Channel::from_raw(300_000);
    let back = a.mul(b).div(b);
    assert_eq!(back.raw, 333_330);
    assert!(back.raw <= a.raw);
    assert!(back.raw >= a.raw - (SCALE / b.raw) - 1);
    // an exact case: 0.3 * 0.7 / 0.7 loses nothing
    let c = Channel::from_raw(300_000);
    let d = Channel::from_raw(700_000);
    assert_eq!(c.mul(d).div(d), c);
}

#[test]
fn scale_is_one_unit() {
    assert_eq!(SCALE, 1_000_000);
    assert_eq!(Channel::one().raw, SCALE);
    assert_eq!(Channel::zero().raw, 0);
}
