//! The camera: viewpoint state, and the perspective and view matrices
//! derived from it each frame.

use vstd::prelude::*;
use vstd::arithmetic::div_mod::*;
use crate::fixed::{SCALE, tdiv, div_scalar, lemma_abs_mul_bound, lemma_tdiv_magnitude};
use crate::types::{Matrix4, Scalar, Vector3, UnitVector3, CameraError, DegenerateVectorError,
    in_range, unit_range, norm_sq, dot_spec, cross_x, cross_y, cross_z, MAX_COORD};
use crate::common::{normalize, normalized_x, normalized_y, normalized_z};
use crate::consts::{NEAR, FAR, NORM_EPS_SQ, up_spec, up};
use crate::trig::{persp_f, perspective_factor};

verus! {

/// The fixed near and far clipping distances.
#[derive(Clone, Copy, PartialEq, Eq, Structural, Debug)]
pub struct ClippingPlanes {
    pub near: Scalar,
    pub far: Scalar,
}

impl ClippingPlanes {
    pub fn new(near: Scalar, far: Scalar) -> (r: ClippingPlanes)
        ensures
            r.near == near,
            r.far == far,
    {
        ClippingPlanes { near, far }
    }
}

pub struct Camera {
    pub position: Vector3,
    pub direction: UnitVector3,
    /// Viewport width and height in pixels.
    pub resolution: (u32, u32),
    /// Field of view, in whole degrees, strictly between 0 and 180.
    pub fov: u32,
    /// Width over height, fixed-point; recomputed on every resolution
    /// change.
    pub aspect_ratio: Scalar,
    pub clipping_planes: ClippingPlanes,
}

/// A drawable size whose aspect ratio is representable: no zero side, and
/// a height of at most `SCALE` times the width.
pub open spec fn valid_resolution(r: (u32, u32)) -> bool {
    &&& 1 <= r.0
    &&& 1 <= r.1
    &&& r.1 <= r.0 * SCALE
}

/// The fixed-point aspect ratio of a resolution: width over height.
pub open spec fn aspect_spec(r: (u32, u32)) -> int {
    tdiv(r.0 * SCALE, r.1 as int)
}

/// The camera's invariant, established by `new` and preserved by
/// `update_resolution`.
pub open spec fn camera_wf(c: Camera) -> bool {
    &&& in_range(c.position)
    &&& unit_range(c.direction)
    &&& 1 <= c.fov <= 179
    &&& valid_resolution(c.resolution)
    &&& c.aspect_ratio == aspect_spec(c.resolution)
    &&& 1 <= c.aspect_ratio
    &&& c.clipping_planes.near == NEAR
    &&& c.clipping_planes.far == FAR
}

/// The raw camera-right axis: world-up crossed with the view direction,
/// before normalization.
pub open spec fn side_vec(c: Camera) -> Vector3 {
    Vector3 {
        x: cross_x(up_spec(), c.direction.v) as i64,
        y: cross_y(up_spec(), c.direction.v) as i64,
        z: cross_z(up_spec(), c.direction.v) as i64,
    }
}

/// The view matrix exists unless the direction is parallel to world-up.
pub open spec fn view_ok(c: Camera) -> bool {
    norm_sq(side_vec(c)) >= NORM_EPS_SQ
}

/// The camera-right axis `s`: the raw side vector scaled to unit length.
pub open spec fn view_side(c: Camera) -> Vector3 {
    Vector3 {
        x: normalized_x(side_vec(c)) as i64,
        y: normalized_y(side_vec(c)) as i64,
        z: normalized_z(side_vec(c)) as i64,
    }
}

/// The camera-up axis `u = direction x s`.
pub open spec fn view_up(c: Camera) -> Vector3 {
    Vector3 {
        x: cross_x(c.direction.v, view_side(c)) as i64,
        y: cross_y(c.direction.v, view_side(c)) as i64,
        z: cross_z(c.direction.v, view_side(c)) as i64,
    }
}

/// The translation row of the view matrix: the position projected on the
/// camera basis, negated.
pub open spec fn view_translation(c: Camera) -> (int, int, int) {
    (
        -dot_spec(c.position, view_side(c)),
        -dot_spec(c.position, view_up(c)),
        -dot_spec(c.position, c.direction.v),
    )
}

/// Coordinates of a cross product of two unit-range vectors stay within
/// two units.
pub(crate) proof fn lemma_cross_unit_bound(a: Vector3, b: Vector3)
    requires
        -SCALE <= a.x <= SCALE && -SCALE <= a.y <= SCALE && -SCALE <= a.z <= SCALE,
        -SCALE <= b.x <= SCALE && -SCALE <= b.y <= SCALE && -SCALE <= b.z <= SCALE,
    ensures
        -2 * SCALE <= cross_x(a, b) <= 2 * SCALE,
        -2 * SCALE <= cross_y(a, b) <= 2 * SCALE,
        -2 * SCALE <= cross_z(a, b) <= 2 * SCALE,
{
    lemma_abs_mul_bound(a.x as int, b.y as int, SCALE as int, SCALE as int);
    lemma_abs_mul_bound(a.x as int, b.z as int, SCALE as int, SCALE as int);
    lemma_abs_mul_bound(a.y as int, b.x as int, SCALE as int, SCALE as int);
    lemma_abs_mul_bound(a.y as int, b.z as int, SCALE as int, SCALE as int);
    lemma_abs_mul_bound(a.z as int, b.x as int, SCALE as int, SCALE as int);
    lemma_abs_mul_bound(a.z as int, b.y as int, SCALE as int, SCALE as int);
    assert(SCALE as int * SCALE as int == 1_000_000_000_000int) by (nonlinear_arith);
    assert(SCALE as int * (2 * SCALE) == 2_000_000_000_000int) by (nonlinear_arith);
    lemma_tdiv_magnitude(a.y * b.z - a.z * b.y, SCALE as int, 2 * SCALE as int);
    lemma_tdiv_magnitude(a.z * b.x - a.x * b.z, SCALE as int, 2 * SCALE as int);
    lemma_tdiv_magnitude(a.x * b.y - a.y * b.x, SCALE as int, 2 * SCALE as int);
}

/// A dot product of an in-range vector with a vector within two units
/// stays within six billion fixed-point units.
pub(crate) proof fn lemma_dot_bound(a: Vector3, b: Vector3)
    requires
        in_range(a),
        -2 * SCALE <= b.x <= 2 * SCALE,
        -2 * SCALE <= b.y <= 2 * SCALE,
        -2 * SCALE <= b.z <= 2 * SCALE,
    ensures
        -6_000_000_000 <= dot_spec(a, b) <= 6_000_000_000,
{
    lemma_abs_mul_bound(a.x as int, b.x as int, MAX_COORD as int, 2 * SCALE as int);
    lemma_abs_mul_bound(a.y as int, b.y as int, MAX_COORD as int, 2 * SCALE as int);
    lemma_abs_mul_bound(a.z as int, b.z as int, MAX_COORD as int, 2 * SCALE as int);
    assert(MAX_COORD as int * (2 * SCALE) == 2_000_000_000_000_000int) by (nonlinear_arith);
    assert(SCALE as int * 6_000_000_000int == 6_000_000_000_000_000int) by (nonlinear_arith);
    lemma_tdiv_magnitude(
        a.x * b.x + a.y * b.y + a.z * b.z,
        SCALE as int,
        6_000_000_000int,
    );
}

/// Computes the fixed-point aspect ratio width / height.
fn compute_aspect(resolution: (u32, u32)) -> (r: i64)
    requires
        valid_resolution(resolution),
    ensures
        r == aspect_spec(resolution),
        1 <= r <= 5_000_000_000_000_000,
{
    let num: u64 = (resolution.0 as u64) * (SCALE as u64);
    proof {
        assert(num <= 5_000_000_000_000_000u64) by (nonlinear_arith)
            requires
                num == resolution.0 as int * SCALE,
                resolution.0 <= 4_294_967_295u32,
                SCALE == 1_000_000,
        ;
        lemma_div_by_self(resolution.1 as int);
        lemma_div_is_ordered(resolution.1 as int, num as int, resolution.1 as int);
        lemma_div_nonincreasing(num as int, resolution.1 as int);
    }
    let r: u64 = num / (resolution.1 as u64);
    r as i64
}

impl Camera {
    /// A camera looking along `direction` from `position`, with the fixed
    /// clipping planes and the aspect ratio of `resolution`.  Fails on a
    /// direction below the length tolerance and on a resolution whose
    /// aspect ratio cannot be formed.
    pub fn new(position: Vector3, direction: Vector3, resolution: (u32, u32), fov: u32) -> (r:
        Result<Camera, CameraError>)
        requires
            in_range(position),
            in_range(direction),
            1 <= fov <= 179,
        ensures
            match r {
                Ok(c) => {
                    &&& norm_sq(direction) >= NORM_EPS_SQ
                    &&& valid_resolution(resolution)
                    &&& c.position == position
                    &&& c.direction.v.x == normalized_x(direction)
                    &&& c.direction.v.y == normalized_y(direction)
                    &&& c.direction.v.z == normalized_z(direction)
                    &&& c.resolution == resolution
                    &&& c.fov == fov
                    &&& c.aspect_ratio == aspect_spec(resolution)
                    &&& camera_wf(c)
                },
                Err(e) => {
                    &&& (e is DegenerateDirection <==> norm_sq(direction) < NORM_EPS_SQ)
                    &&& (e is InvalidResolution <==> (norm_sq(direction) >= NORM_EPS_SQ
                        && !valid_resolution(resolution)))
                },
            },
    {
        let dir = match normalize(direction) {
            Ok(u) => u,
            Err(_) => {
                return Err(CameraError::DegenerateDirection);
            },
        };
        if resolution.0 < 1 || resolution.1 < 1
            || (resolution.1 as u64) > (resolution.0 as u64) * (SCALE as u64) {
            proof {
                assert(resolution.0 as int * SCALE == resolution.0 as u64 as int * SCALE)
                    by (nonlinear_arith)
                    requires
                        resolution.0 as int == resolution.0 as u64 as int,
                ;
            }
            return Err(CameraError::InvalidResolution);
        }
        let aspect = compute_aspect(resolution);
        Ok(Camera {
            position,
            direction: dir,
            resolution,
            fov,
            aspect_ratio: aspect,
            clipping_planes: ClippingPlanes::new(NEAR, FAR),
        })
    }

    /// Replaces the resolution and recomputes the aspect ratio; everything
    /// else is preserved.
    pub fn update_resolution(&mut self, resolution: (u32, u32))
        requires
            camera_wf(*old(self)),
            valid_resolution(resolution),
        ensures
            camera_wf(*final(self)),
            final(self).resolution == resolution,
            final(self).aspect_ratio == aspect_spec(resolution),
            final(self).position == old(self).position,
            final(self).direction == old(self).direction,
            final(self).fov == old(self).fov,
            final(self).clipping_planes == old(self).clipping_planes,
    {
        self.resolution = resolution;
        self.aspect_ratio = compute_aspect(resolution);
    }

    /// Builds the perspective projection from the field of view, the
    /// aspect ratio and the fixed clipping planes.  The factor
    /// `f = 1 / tan(fov / 2)` lands at `[1][1]`, and divided by the
    /// aspect ratio at `[0][0]`; no entry depends on the camera's
    /// position or direction.
    pub fn get_perspective_matrix(&self) -> (m: Matrix4)
        requires
            camera_wf(*self),
        ensures
            m@[0]@[0] == tdiv(persp_f(self.fov as int) * SCALE, self.aspect_ratio as int),
            m@[1]@[1] == persp_f(self.fov as int),
            m@[2]@[2] == tdiv((FAR + NEAR) * SCALE, FAR - NEAR),
            m@[2]@[3] == SCALE,
            m@[3]@[2] == -tdiv(2 * FAR * NEAR, FAR - NEAR),
            m@[0]@[1] == 0 && m@[0]@[2] == 0 && m@[0]@[3] == 0,
            m@[1]@[0] == 0 && m@[1]@[2] == 0 && m@[1]@[3] == 0,
            m@[2]@[0] == 0 && m@[2]@[1] == 0,
            m@[3]@[0] == 0 && m@[3]@[1] == 0 && m@[3]@[3] == 0,
            m@[1]@[1] >= 1,
            m@[2]@[2] > SCALE,
            m@[3]@[2] <= -1,
            self.aspect_ratio <= persp_f(self.fov as int) * SCALE ==> m@[0]@[0] >= 1,
    {
        let f = perspective_factor(self.fov);
        proof {
            assert(0 <= f * SCALE <= 1_000_000_000_000_000_000int) by (nonlinear_arith)
                requires
                    0 <= f <= 1_000_000_000_000,
                    SCALE == 1_000_000,
            ;
            // The aspect ratio divides out to at least 1 whenever it does
            // not exceed the scaled factor.
            if self.aspect_ratio <= f * SCALE {
                lemma_div_by_self(self.aspect_ratio as int);
                lemma_div_is_ordered(
                    self.aspect_ratio as int,
                    f * SCALE,
                    self.aspect_ratio as int,
                );
            }
            // [2][2] exceeds one: the numerator exceeds (SCALE+1) times
            // the denominator.
            assert((SCALE + 1) * (FAR - NEAR) == 1_023_901_023_900_000int) by (nonlinear_arith)
                requires
                    FAR == 1_024_000_000,
                    NEAR == 100_000,
                    SCALE == 1_000_000,
            ;
            vstd::arithmetic::mul::lemma_mul_is_commutative(SCALE + 1, (FAR - NEAR) as int);
            lemma_div_by_multiple(SCALE as int + 1, (FAR - NEAR) as int);
            lemma_div_is_ordered((SCALE + 1) * (FAR - NEAR), (FAR + NEAR) * SCALE,
                (FAR - NEAR) as int);
            // [3][2] is strictly negative: its magnitude is at least one.
            lemma_div_by_self((FAR - NEAR) as int);
            lemma_div_is_ordered((FAR - NEAR) as int, 2 * FAR * NEAR, (FAR - NEAR) as int);
            assert((FAR + NEAR) * SCALE == 1_024_100_000_000_000int) by (nonlinear_arith)
                requires
                    FAR == 1_024_000_000,
                    NEAR == 100_000,
                    SCALE == 1_000_000,
            ;
            assert(2 * FAR * NEAR == 204_800_000_000_000int) by (nonlinear_arith)
                requires
                    FAR == 1_024_000_000,
                    NEAR == 100_000,
            ;
            lemma_div_pos_is_pos((FAR + NEAR) * SCALE, FAR - NEAR);
            lemma_div_nonincreasing((FAR + NEAR) as int * SCALE, (FAR - NEAR) as int);
            lemma_div_pos_is_pos(2 * FAR * NEAR, FAR - NEAR);
            lemma_div_nonincreasing(2 * (FAR as int) * NEAR, (FAR - NEAR) as int);
        }
        let m00 = div_scalar(f * SCALE, self.aspect_ratio);
        let m22 = div_scalar((FAR + NEAR) * SCALE, FAR - NEAR);
        let m32 = div_scalar(2 * FAR * NEAR, FAR - NEAR);
        [
            [m00, 0, 0, 0],
            [0, f, 0, 0],
            [0, 0, m22, SCALE],
            [0, 0, -m32, 0],
        ]
    }

    /// Builds the view matrix by Gram-Schmidt against the fixed world-up
    /// axis: columns are the camera-right, camera-up and view-direction
    /// axes, with the projected position as translation row.  Fails when
    /// the direction is parallel to world-up.
    pub fn get_view_matrix(&self) -> (r: Result<Matrix4, DegenerateVectorError>)
        requires
            camera_wf(*self),
        ensures
            match r {
                Ok(m) => {
                    &&& view_ok(*self)
                    &&& m@[0]@[0] == view_side(*self).x
                    &&& m@[1]@[0] == view_side(*self).y
                    &&& m@[2]@[0] == view_side(*self).z
                    &&& m@[0]@[1] == view_up(*self).x
                    &&& m@[1]@[1] == view_up(*self).y
                    &&& m@[2]@[1] == view_up(*self).z
                    &&& m@[0]@[2] == self.direction.v.x
                    &&& m@[1]@[2] == self.direction.v.y
                    &&& m@[2]@[2] == self.direction.v.z
                    &&& m@[3]@[0] == view_translation(*self).0
                    &&& m@[3]@[1] == view_translation(*self).1
                    &&& m@[3]@[2] == view_translation(*self).2
                    &&& m@[0]@[3] == 0 && m@[1]@[3] == 0 && m@[2]@[3] == 0
                    &&& m@[3]@[3] == SCALE
                },
                Err(_) => !view_ok(*self),
            },
    {
        let upv = up();
        let dir = self.direction.v;
        let s_raw = upv.cross(&dir);
        proof {
            assert(s_raw == side_vec(*self));
            lemma_cross_unit_bound(upv, dir);
        }
        let s_unit = match normalize(s_raw) {
            Ok(u) => u,
            Err(_) => {
                return Err(DegenerateVectorError);
            },
        };
        let s = s_unit.v;
        proof {
            assert(s == view_side(*self));
        }
        let u = dir.cross(&s);
        proof {
            assert(u == view_up(*self));
            lemma_cross_unit_bound(dir, s);
            lemma_dot_bound(self.position, s);
            lemma_dot_bound(self.position, u);
            lemma_dot_bound(self.position, dir);
        }
        let px = -self.position.dot(&s);
        let py = -self.position.dot(&u);
        let pz = -self.position.dot(&dir);
        Ok([
            [s.x, u.x, dir.x, 0],
            [s.y, u.y, dir.y, 0],
            [s.z, u.z, dir.z, 0],
            [px, py, pz, SCALE],
        ])
    }
}

/// The perspective matrix depends only on the field of view and the
/// aspect ratio: two cameras agreeing on those yield the same distinctive
/// entries, whatever their position and direction.
pub proof fn lemma_perspective_independent_of_pose(a: Camera, b: Camera)
    requires
        a.fov == b.fov,
        a.aspect_ratio == b.aspect_ratio,
    ensures
        tdiv(persp_f(a.fov as int) * SCALE, a.aspect_ratio as int) == tdiv(
            persp_f(b.fov as int) * SCALE,
            b.aspect_ratio as int,
        ),
        persp_f(a.fov as int) == persp_f(b.fov as int),
{
}

} // verus!
