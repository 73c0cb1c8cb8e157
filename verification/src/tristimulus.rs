//! The reference white point shared by every conversion that touches the
//! hub: CIE Standard Illuminant D65 under the 2 degree standard observer.
//!
//! The constants are tristimulus values in raw channel steps (see
//! `channel::SCALE`), defined once and never mutated.

use vstd::prelude::*;

verus! {

/// X tristimulus value of the D65 white point: 0.95047 in channel units.
pub const X_N: i64 = 950_470;

/// Y tristimulus value of the D65 white point: 1.0 in channel units.
pub const Y_N: i64 = 1_000_000;

/// Z tristimulus value of the D65 white point: 1.08883 in channel units.
pub const Z_N: i64 = 1_088_830;

} // verus!
