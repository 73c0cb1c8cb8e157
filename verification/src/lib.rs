//! A color-space library built around the CIE 1931 XYZ hub space.
//!
//! Color values are records of fixed-point channels; the hub space `Xyz`
//! carries conversions in from the neighboring spaces (`Rgb`, `Luma`, `Lab`),
//! and the capability traits (`ColorSpace`, `Mix`, `Shade`) state the
//! operations every space offers: validity, clamping, blending, lightening.

pub mod channel;
pub mod tristimulus;
pub mod space;
pub mod spaces;
pub mod xyz;

pub use channel::{Channel, SCALE, clamp};
pub use space::{ColorSpace, Mix, Shade};
pub use spaces::{Rgb, Luma, Lab};
pub use xyz::Xyz;
