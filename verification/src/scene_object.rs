//! A renderable object: a GPU-resident mesh handle plus its transform.

use vstd::prelude::*;
use vstd::arithmetic::div_mod::{lemma_fundamental_div_mod, lemma_mod_bound, lemma_div_pos_is_pos};
use crate::fixed::{SCALE, tdiv, div_scalar, lemma_abs_mul_bound};
use crate::types::{Matrix4, Scalar, Vector3};

verus! {

/// Largest scale magnitude `scale_up` and `scale_down` accept; keeps the
/// scale step's intermediate product inside `i64`.
pub const MAX_SCALE: i64 = 90_000_000_000_000_000;

/// An object's local transform: a position (held for future placement, not
/// yet applied to the model matrix) and a uniform scale.
#[derive(Clone, Copy, PartialEq, Eq, Structural, Debug)]
pub struct Transform {
    pub position: Vector3,
    pub scale: Scalar,
}

/// A renderable entity: opaque handles of its GPU-resident mesh buffers,
/// and exactly one transform.
#[derive(Clone, Copy, PartialEq, Eq, Structural, Debug)]
pub struct SceneObject {
    /// Opaque handle of the mesh's vertex, normal and index buffers, owned
    /// by this object's GPU-side counterpart.
    pub mesh: u64,
    pub transform: Transform,
}

/// The scale after one `scale_up` step: multiplied by 1.01, rounded toward
/// zero.
pub open spec fn scaled_up(s: int) -> int {
    tdiv(s * 101, 100)
}

/// The scale after one `scale_down` step: divided by 1.01, rounded toward
/// zero.
pub open spec fn scaled_down(s: int) -> int {
    tdiv(s * 100, 101)
}

proof fn lemma_scale_round_trip_nonneg(s: int)
    requires
        s >= 0,
    ensures
        s - 1 <= scaled_down(scaled_up(s)) <= s,
{
    let t = scaled_up(s);
    lemma_div_pos_is_pos(s * 101, 100);
    lemma_fundamental_div_mod(s * 101, 100);
    lemma_mod_bound(s * 101, 100);
    let r1 = (s * 101) % 100;
    assert(100 * t == s * 101 - r1);
    let b = scaled_down(t);
    lemma_div_pos_is_pos(t * 100, 101);
    lemma_fundamental_div_mod(t * 100, 101);
    lemma_mod_bound(t * 100, 101);
    let r2 = (t * 100) % 101;
    assert(101 * b == t * 100 - r2);
    assert(100 * (t * 100) == (100 * t) * 100) by (nonlinear_arith);
    assert(100 * (101 * b) == 101 * (100 * b)) by (nonlinear_arith);
    assert(100 * (s * 101) == 101 * (100 * s)) by (nonlinear_arith);
    // 101 * (100 * (s - b)) == 100 * (r1 + r2 * ... ), all linear from here.
    assert(101 * (100 * s - 100 * b) == 100 * r1 + 100 * r2) by (nonlinear_arith)
        requires
            100 * t == s * 101 - r1,
            101 * b == t * 100 - r2,
    ;
    assert(0 <= 100 * r1 + 100 * r2 <= 19_900);
    assert(s - b >= 0) by (nonlinear_arith)
        requires
            101 * (100 * s - 100 * b) == 100 * r1 + 100 * r2,
            0 <= 100 * r1 + 100 * r2,
    ;
    assert(s - b <= 1) by (nonlinear_arith)
        requires
            101 * (100 * s - 100 * b) == 100 * r1 + 100 * r2,
            100 * r1 + 100 * r2 <= 19_900,
    ;
}

/// One `scale_up` step followed by one `scale_down` step returns the
/// scale to its original value, to within one fixed-point unit (the
/// rounding of the two steps).
pub proof fn lemma_scale_round_trip(s: int)
    ensures
        s - 1 <= scaled_down(scaled_up(s)) <= s + 1,
        s >= 0 ==> scaled_down(scaled_up(s)) <= s,
        s <= 0 ==> scaled_down(scaled_up(s)) >= s,
{
    if s >= 0 {
        lemma_scale_round_trip_nonneg(s);
    } else {
        let m = -s;
        lemma_scale_round_trip_nonneg(m);
        assert(-(s * 101) == m * 101) by (nonlinear_arith)
            requires
                m == -s,
        ;
        assert(scaled_up(s) == -scaled_up(m));
        let t = scaled_up(m);
        assert(-((-t) * 100) == t * 100) by (nonlinear_arith);
        if t == 0 {
            assert(scaled_down(scaled_up(s)) == -scaled_down(t));
        } else {
            lemma_div_pos_is_pos(m * 101, 100);
            assert(t >= 0);
            assert(scaled_down(scaled_up(s)) == -scaled_down(t));
        }
        assert(m - 1 <= scaled_down(t) <= m);
    }
}

impl SceneObject {
    /// A fresh object over the given mesh handle, at the origin with unit
    /// scale.
    pub fn new(mesh: u64) -> (r: SceneObject)
        ensures
            r.mesh == mesh,
            r.transform.position == (Vector3 { x: 0i64, y: 0i64, z: 0i64 }),
            r.transform.scale == SCALE,
    {
        SceneObject {
            mesh,
            transform: Transform { position: Vector3 { x: 0, y: 0, z: 0 }, scale: SCALE },
        }
    }

    pub fn set_transform(&mut self, transform: Transform)
        ensures
            final(self).transform == transform,
            final(self).mesh == old(self).mesh,
    {
        self.transform = transform;
    }

    pub fn set_position(&mut self, position: Vector3)
        ensures
            final(self).transform.position == position,
            final(self).transform.scale == old(self).transform.scale,
            final(self).mesh == old(self).mesh,
    {
        self.transform.position = position;
    }

    pub fn set_scale(&mut self, scale: Scalar)
        ensures
            final(self).transform.scale == scale,
            final(self).transform.position == old(self).transform.position,
            final(self).mesh == old(self).mesh,
    {
        self.transform.scale = scale;
    }

    /// Multiplies the scale by the fixed step 1.01.
    pub fn scale_up(&mut self)
        requires
            -MAX_SCALE <= old(self).transform.scale <= MAX_SCALE,
        ensures
            final(self).transform.scale == scaled_up(old(self).transform.scale as int),
            final(self).transform.position == old(self).transform.position,
            final(self).mesh == old(self).mesh,
    {
        proof {
            lemma_abs_mul_bound(self.transform.scale as int, 101, MAX_SCALE as int, 101);
            assert(MAX_SCALE as int * 101 < i64::MAX) by (nonlinear_arith);
        }
        self.transform.scale = div_scalar(self.transform.scale * 101, 100);
    }

    /// Divides the scale by the fixed step 1.01.
    pub fn scale_down(&mut self)
        requires
            -MAX_SCALE <= old(self).transform.scale <= MAX_SCALE,
        ensures
            final(self).transform.scale == scaled_down(old(self).transform.scale as int),
            final(self).transform.position == old(self).transform.position,
            final(self).mesh == old(self).mesh,
    {
        proof {
            lemma_abs_mul_bound(self.transform.scale as int, 100, MAX_SCALE as int, 100);
            assert(MAX_SCALE as int * 100 < i64::MAX) by (nonlinear_arith);
        }
        self.transform.scale = div_scalar(self.transform.scale * 100, 101);
    }

    /// The demo object: the fixed mesh scaled down to 0.01.
    pub fn teapot(mesh: u64) -> (r: SceneObject)
        ensures
            r.mesh == mesh,
            r.transform.position == (Vector3 { x: 0i64, y: 0i64, z: 0i64 }),
            r.transform.scale == 10_000,
    {
        let mut obj = SceneObject::new(mesh);
        obj.set_scale(10_000);
        obj
    }

    /// The pure uniform-scale model matrix `diag(scale, scale, scale, 1)`.
    /// The position is deliberately not applied: the translation row stays
    /// zero, as the demo keeps its one object at the origin.
    pub fn get_model_matrix(&self) -> (m: Matrix4)
        ensures
            m@[0]@[0] == self.transform.scale,
            m@[1]@[1] == self.transform.scale,
            m@[2]@[2] == self.transform.scale,
            m@[3]@[3] == SCALE,
            m@[0]@[1] == 0 && m@[0]@[2] == 0 && m@[0]@[3] == 0,
            m@[1]@[0] == 0 && m@[1]@[2] == 0 && m@[1]@[3] == 0,
            m@[2]@[0] == 0 && m@[2]@[1] == 0 && m@[2]@[3] == 0,
            m@[3]@[0] == 0 && m@[3]@[1] == 0 && m@[3]@[2] == 0,
    {
        let s = self.transform.scale;
        [
            [s, 0, 0, 0],
            [0, s, 0, 0],
            [0, 0, s, 0],
            [0, 0, 0, SCALE],
        ]
    }
}

} // verus!
