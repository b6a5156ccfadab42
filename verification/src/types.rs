//! Core value types: scalars, vectors, matrices, colors, mesh attributes,
//! and the error taxonomy.

use vstd::prelude::*;
use crate::fixed::{SCALE, tdiv};

verus! {

/// A scalar is a fixed-point number: the real value times `fixed::SCALE`.
pub type Scalar = i64;

/// A 4x4 matrix of scalars, row-major; only a transport format for the
/// perspective, view and model transforms.
pub type Matrix4 = [[Scalar; 4]; 4];

/// Largest coordinate magnitude the vector operations accept; keeps every
/// intermediate product of three coordinates inside `i64`.
pub const MAX_COORD: i64 = 1_000_000_000;

#[derive(Clone, Copy, PartialEq, Eq, Structural, Debug)]
pub struct Vector3 {
    pub x: Scalar,
    pub y: Scalar,
    pub z: Scalar,
}

/// The squared length of `v`, in squared fixed-point units.
pub open spec fn norm_sq(v: Vector3) -> int {
    v.x * v.x + v.y * v.y + v.z * v.z
}

/// All three coordinates within `MAX_COORD` in magnitude.
pub open spec fn in_range(v: Vector3) -> bool {
    &&& -MAX_COORD <= v.x <= MAX_COORD
    &&& -MAX_COORD <= v.y <= MAX_COORD
    &&& -MAX_COORD <= v.z <= MAX_COORD
}

/// Fixed-point dot product: the coordinate products are rescaled once.
pub open spec fn dot_spec(a: Vector3, b: Vector3) -> int {
    tdiv(a.x * b.x + a.y * b.y + a.z * b.z, SCALE as int)
}

pub open spec fn cross_x(a: Vector3, b: Vector3) -> int {
    tdiv(a.y * b.z - a.z * b.y, SCALE as int)
}

pub open spec fn cross_y(a: Vector3, b: Vector3) -> int {
    tdiv(a.z * b.x - a.x * b.z, SCALE as int)
}

pub open spec fn cross_z(a: Vector3, b: Vector3) -> int {
    tdiv(a.x * b.y - a.y * b.x, SCALE as int)
}

impl Vector3 {
    pub fn new(x: Scalar, y: Scalar, z: Scalar) -> (r: Vector3)
        ensures
            r == (Vector3 { x, y, z }),
    {
        Vector3 { x, y, z }
    }

    pub fn zeros() -> (r: Vector3)
        ensures
            r == (Vector3 { x: 0i64, y: 0i64, z: 0i64 }),
    {
        Vector3 { x: 0, y: 0, z: 0 }
    }

    /// Component-wise addition; exact.
    pub fn add(&self, o: &Vector3) -> (r: Vector3)
        requires
            in_range(*self),
            in_range(*o),
        ensures
            r.x == self.x + o.x,
            r.y == self.y + o.y,
            r.z == self.z + o.z,
    {
        Vector3 { x: self.x + o.x, y: self.y + o.y, z: self.z + o.z }
    }

    /// Right-handed dot product of two fixed-point vectors.
    pub fn dot(&self, o: &Vector3) -> (r: Scalar)
        requires
            in_range(*self),
            in_range(*o),
        ensures
            r == dot_spec(*self, *o),
    {
        proof {
            crate::fixed::lemma_abs_mul_bound(self.x as int, o.x as int, MAX_COORD as int, MAX_COORD as int);
            crate::fixed::lemma_abs_mul_bound(self.y as int, o.y as int, MAX_COORD as int, MAX_COORD as int);
            crate::fixed::lemma_abs_mul_bound(self.z as int, o.z as int, MAX_COORD as int, MAX_COORD as int);
            assert(MAX_COORD as int * MAX_COORD as int == 1_000_000_000_000_000_000int)
                by (nonlinear_arith);
        }
        let n: i64 = self.x * o.x + self.y * o.y + self.z * o.z;
        crate::fixed::div_scalar(n, SCALE)
    }

    /// Right-handed cross product of two fixed-point vectors.
    pub fn cross(&self, o: &Vector3) -> (r: Vector3)
        requires
            in_range(*self),
            in_range(*o),
        ensures
            r.x == cross_x(*self, *o),
            r.y == cross_y(*self, *o),
            r.z == cross_z(*self, *o),
    {
        proof {
            crate::fixed::lemma_abs_mul_bound(self.y as int, o.z as int, MAX_COORD as int, MAX_COORD as int);
            crate::fixed::lemma_abs_mul_bound(self.z as int, o.y as int, MAX_COORD as int, MAX_COORD as int);
            crate::fixed::lemma_abs_mul_bound(self.z as int, o.x as int, MAX_COORD as int, MAX_COORD as int);
            crate::fixed::lemma_abs_mul_bound(self.x as int, o.z as int, MAX_COORD as int, MAX_COORD as int);
            crate::fixed::lemma_abs_mul_bound(self.x as int, o.y as int, MAX_COORD as int, MAX_COORD as int);
            crate::fixed::lemma_abs_mul_bound(self.y as int, o.x as int, MAX_COORD as int, MAX_COORD as int);
            assert(MAX_COORD as int * MAX_COORD as int == 1_000_000_000_000_000_000int)
                by (nonlinear_arith);
        }
        Vector3 {
            x: crate::fixed::div_scalar(self.y * o.z - self.z * o.y, SCALE),
            y: crate::fixed::div_scalar(self.z * o.x - self.x * o.z, SCALE),
            z: crate::fixed::div_scalar(self.x * o.y - self.y * o.x, SCALE),
        }
    }

    /// Scales every coordinate by the fixed-point factor `s`.
    pub fn scaled(&self, s: Scalar) -> (r: Vector3)
        requires
            in_range(*self),
            -MAX_COORD <= s <= MAX_COORD,
        ensures
            r.x == tdiv(self.x * s, SCALE as int),
            r.y == tdiv(self.y * s, SCALE as int),
            r.z == tdiv(self.z * s, SCALE as int),
    {
        proof {
            crate::fixed::lemma_abs_mul_bound(self.x as int, s as int, MAX_COORD as int, MAX_COORD as int);
            crate::fixed::lemma_abs_mul_bound(self.y as int, s as int, MAX_COORD as int, MAX_COORD as int);
            crate::fixed::lemma_abs_mul_bound(self.z as int, s as int, MAX_COORD as int, MAX_COORD as int);
            assert(MAX_COORD as int * MAX_COORD as int == 1_000_000_000_000_000_000int)
                by (nonlinear_arith);
        }
        Vector3 {
            x: crate::fixed::div_scalar(self.x * s, SCALE),
            y: crate::fixed::div_scalar(self.y * s, SCALE),
            z: crate::fixed::div_scalar(self.z * s, SCALE),
        }
    }
}

/// A vector of (approximately) unit length.  Built only by
/// `common::normalize`; treat the wrapped vector as read-only.
#[derive(Clone, Copy, PartialEq, Eq, Structural, Debug)]
pub struct UnitVector3 {
    pub v: Vector3,
}

/// A unit vector's coordinates lie within one real unit, and its squared
/// length is within `6 * SCALE` of `SCALE * SCALE`: unit length to within
/// six parts in a million.
pub open spec fn unit_range(u: UnitVector3) -> bool {
    &&& -SCALE <= u.v.x <= SCALE
    &&& -SCALE <= u.v.y <= SCALE
    &&& -SCALE <= u.v.z <= SCALE
    &&& SCALE * SCALE - 6 * SCALE <= norm_sq(u.v) <= SCALE * SCALE + 6 * SCALE
}

/// The vector handed to `normalize` was shorter than the tolerance.
#[derive(Clone, Copy, PartialEq, Eq, Structural, Debug)]
pub struct DegenerateVectorError;

/// Why `Camera::new` refused its arguments.
#[derive(Clone, Copy, PartialEq, Eq, Structural, Debug)]
pub enum CameraError {
    /// The requested view direction was shorter than the tolerance.
    DegenerateDirection,
    /// A resolution whose aspect ratio cannot be represented: a zero side,
    /// or a height more than `SCALE` times the width.
    InvalidResolution,
}

#[derive(Clone, Copy, PartialEq, Eq, Structural, Debug)]
pub struct Color {
    pub r: Scalar,
    pub g: Scalar,
    pub b: Scalar,
}

impl Color {
    pub fn new(r: Scalar, g: Scalar, b: Scalar) -> (c: Color)
        ensures
            c == (Color { r, g, b }),
    {
        Color { r, g, b }
    }
}

/// A mesh vertex position, in fixed-point model units.
#[derive(Clone, Copy, PartialEq, Eq, Debug)]
pub struct Vertex {
    pub position: (Scalar, Scalar, Scalar),
}

/// A mesh vertex normal, in fixed-point model units.
#[derive(Clone, Copy, PartialEq, Eq, Debug)]
pub struct Normal {
    pub normal: (Scalar, Scalar, Scalar),
}

/// Depth-test mode for a draw call.
#[derive(Clone, Copy, PartialEq, Eq, Structural, Debug)]
pub enum DepthTest {
    Overwrite,
    IfLess,
}

/// Which triangle winding is culled in a draw call.
#[derive(Clone, Copy, PartialEq, Eq, Structural, Debug)]
pub enum BackfaceCulling {
    CullingDisabled,
    CullClockwise,
}

/// The fixed draw-state configuration shared by every draw call.
#[derive(Clone, Copy, PartialEq, Eq, Structural, Debug)]
pub struct DrawConfig {
    pub depth_test: DepthTest,
    pub depth_write: bool,
    pub backface_culling: BackfaceCulling,
}

/// The complete uniform set for one draw call of one object.
#[derive(Clone, Copy)]
pub struct DrawCall {
    /// Handle of the GPU-resident mesh to bind.
    pub mesh: u64,
    pub model: Matrix4,
    pub view: Matrix4,
    pub perspective: Matrix4,
    /// Directional light vector.
    pub light: Vector3,
}

} // verus!
