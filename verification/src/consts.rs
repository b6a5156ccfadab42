//! The fixed configuration values of the demo: clipping planes, tolerance,
//! world-up, light direction, colors, frame cadence.

use vstd::prelude::*;
use crate::fixed::SCALE;
use crate::types::{Color, Vector3};

verus! {

/// Near clipping distance (0.1 real units).
pub const NEAR: i64 = 100_000;

/// Far clipping distance (1024 real units).
pub const FAR: i64 = 1_024_000_000;

/// `normalize` rejects vectors whose squared length is below this; one
/// fixed-point unit squared, i.e. a length tolerance of `1 / SCALE`.
pub const NORM_EPS_SQ: i64 = 1;

/// Target frame cadence: one sixtieth of a second, in nanoseconds.
pub const FRAME_INTERVAL_NS: u64 = 16_666_667;

/// The fixed world-up axis.
pub open spec fn up_spec() -> Vector3 {
    Vector3 { x: 0i64, y: SCALE, z: 0i64 }
}

pub fn up() -> (r: Vector3)
    ensures
        r == up_spec(),
{
    Vector3 { x: 0, y: SCALE, z: 0 }
}

/// The fixed directional light vector (-1.0, 0.4, 0.9).
pub open spec fn light_spec() -> Vector3 {
    Vector3 { x: -1_000_000i64, y: 400_000i64, z: 900_000i64 }
}

pub fn light() -> (r: Vector3)
    ensures
        r == light_spec(),
{
    Vector3 { x: -1_000_000, y: 400_000, z: 900_000 }
}

pub fn white() -> (c: Color)
    ensures
        c == (Color { r: SCALE, g: SCALE, b: SCALE }),
{
    Color { r: SCALE, g: SCALE, b: SCALE }
}

pub fn black() -> (c: Color)
    ensures
        c == (Color { r: 0i64, g: 0i64, b: 0i64 }),
{
    Color { r: 0, g: 0, b: 0 }
}

pub fn blue() -> (c: Color)
    ensures
        c == (Color { r: 200_000i64, g: 200_000i64, b: 700_000i64 }),
{
    Color { r: 200_000, g: 200_000, b: 700_000 }
}

} // verus!
