//! Conversion edges into the hub: golden reference data and round trips.

use palette::{Channel, Lab, Luma, Rgb, Xyz};

/// A channel from a value in units (1.0 is full intensity).
fn ch(v: f64) -> Channel {
    Channel::from_raw((v * 1_000_000.0).round() as i64)
}

/// Approximate channel equality within 1e-4 units, the tolerance of the
/// reference data.
fn assert_approx(a: Channel, b: Channel) {
    assert!((a.raw - b.raw).abs() <= 100, "channels differ: {} vs {}", a.raw, b.raw);
}

#[test]
fn red() {
    let a = Xyz::from_rgb(&Rgb::linear_rgb(ch(1.0), ch(0.0), ch(0.0)));
    let b = Xyz::xyz(ch(0.41240), ch(0.21260), ch(0.01930));
    assert_approx(a.x, b.x);
    assert_approx(a.y, b.y);
    assert_approx(a.z, b.z);
}

#[test]
fn green() {
    let a = Xyz::from_rgb(&Rgb::linear_rgb(ch(0.0), ch(1.0), ch(0.0)));
    let b = Xyz::xyz(ch(0.35760), ch(0.71520), ch(0.11920));
    assert_approx(a.x, b.x);
    assert_approx(a.y, b.y);
    assert_approx(a.z, b.z);
}

#[test]
fn blue() {
    let a = Xyz::from_rgb(&Rgb::linear_rgb(ch(0.0), ch(0.0), ch(1.0)));
    let b = Xyz::xyz(ch(0.18050), ch(0.07220), ch(0.95050));
    assert_approx(a.x, b.x);
    assert_approx(a.y, b.y);
    assert_approx(a.z, b.z);
}

#[test]
fn rgb_alpha_passes_through() {
    let a = Xyz::from_rgb(&Rgb::linear_rgba(ch(0.5), ch(0.5), ch(0.5), ch(0.25)));
    assert_eq!(a.alpha, ch(0.25));
}

#[test]
fn rgb_white_is_the_white_point() {
    let a = Xyz::from_rgb(&Rgb::linear_rgb(ch(1.0), ch(1.0), ch(1.0)));
    let b = Xyz::xyz(ch(0.95050), ch(1.0), ch(1.08900));
    assert_approx(a.x, b.x);
    assert_approx(a.y, b.y);
    assert_approx(a.z, b.z);
}

#[test]
fn luma_becomes_luminance() {
    let a = Xyz::from_luma(&Luma::with_alpha(ch(0.75), ch(0.5)));
    assert_eq!(a.x, ch(0.0));
    assert_eq!(a.y, ch(0.75));
    assert_eq!(a.z, ch(0.0));
    assert_eq!(a.alpha, ch(0.5));
}

#[test]
fn luma_round_trip_is_exact() {
    let l = Luma::with_alpha(ch(0.3125), ch(0.875));
    assert_eq!(Xyz::from_luma(&l).into_luma(), l);
    let opaque = Luma::new(ch(0.6));
    assert_eq!(Xyz::from_luma(&opaque).into_luma(), opaque);
}

#[test]
fn lab_white_is_the_white_point() {
    // L = 1 (canonical L* = 100) at the neutral axis: fy is exactly one,
    // the cube branch gives one, and each coordinate is the illuminant's
    // tristimulus value, exactly.
    let a = Xyz::from_lab(&Lab::lab(ch(1.0), ch(0.0), ch(0.0)));
    assert_eq!(a.x.raw, 950_470);
    assert_eq!(a.y.raw, 1_000_000);
    assert_eq!(a.z.raw, 1_088_830);
    assert_eq!(a.alpha, ch(1.0));
}

#[test]
fn lab_black_is_black() {
    // L = 0 falls on the linear branch of the inverse nonlinearity.
    let a = Xyz::from_lab(&Lab::lab(ch(0.0), ch(0.0), ch(0.0)));
    assert_approx(a.x, ch(0.0));
    assert_approx(a.y, ch(0.0));
    assert_approx(a.z, ch(0.0));
}

#[test]
fn lab_alpha_passes_through() {
    let a = Xyz::from_lab(&Lab::laba(ch(0.5), ch(0.1), ch(-0.1), ch(0.125)));
    assert_eq!(a.alpha, ch(0.125));
}
