//! Normalization of vectors to unit length.
//!
//! The length is computed on the scaled radicand `norm_sq * SCALE^2`, so
//! even the shortest admitted vectors keep full fixed-point precision: the
//! unit-length bound below holds for every vector `normalize` accepts.

use vstd::prelude::*;
use vstd::arithmetic::div_mod::{lemma_fundamental_div_mod, lemma_mod_bound};
use vstd::arithmetic::mul::{lemma_mul_inequality, lemma_mul_nonnegative};
use crate::fixed::{SCALE, tdiv, sqrt_floor, isqrt, div_wide, lemma_abs_mul_bound,
    lemma_tdiv_magnitude, lemma_sqrt_floor};
use crate::types::{Vector3, UnitVector3, DegenerateVectorError, in_range, unit_range, norm_sq,
    MAX_COORD};
use crate::consts::NORM_EPS_SQ;

verus! {

/// The length of `v`, in sub-units of `1 / SCALE` (that is, `SCALE` times
/// the fixed-point length), rounded down.
pub open spec fn unit_len(v: Vector3) -> int {
    sqrt_floor(norm_sq(v) * SCALE * SCALE)
}

pub open spec fn normalized_x(v: Vector3) -> int {
    tdiv(v.x * SCALE * SCALE, unit_len(v))
}

pub open spec fn normalized_y(v: Vector3) -> int {
    tdiv(v.y * SCALE * SCALE, unit_len(v))
}

pub open spec fn normalized_z(v: Vector3) -> int {
    tdiv(v.z * SCALE * SCALE, unit_len(v))
}

/// The squared length of the normalized image of `v`.
pub open spec fn normalized_norm_sq(v: Vector3) -> int {
    normalized_x(v) * normalized_x(v) + normalized_y(v) * normalized_y(v) + normalized_z(v)
        * normalized_z(v)
}

/// The remainder of the truncating division lies in `[0, b)` for a
/// non-negative dividend and in `(-b, 0]` for a negative one.
proof fn lemma_tdiv_decompose(a: int, b: int)
    requires
        b >= 1,
    ensures
        a >= 0 ==> 0 <= a - tdiv(a, b) * b < b,
        a < 0 ==> -b < a - tdiv(a, b) * b <= 0,
{
    if a >= 0 {
        lemma_fundamental_div_mod(a, b);
        lemma_mod_bound(a, b);
        assert(b * (a / b) == (a / b) * b) by (nonlinear_arith);
    } else {
        lemma_fundamental_div_mod(-a, b);
        lemma_mod_bound(-a, b);
        let q = (-a) / b;
        assert(b * q == q * b) by (nonlinear_arith);
        assert((-q) * b == -(q * b)) by (nonlinear_arith);
    }
}

/// One component's contribution: squaring `r * l == x * s - d`.
proof fn lemma_component_identity(r: int, l: int, x: int, s: int, d: int)
    requires
        r * l == x * s - d,
    ensures
        (r * r) * (l * l) == (x * x) * (s * s) - (x * d) * (2 * s) + d * d,
{
    assert((r * l) * (r * l) == (r * r) * (l * l)) by (nonlinear_arith);
    assert((x * s - d) * (x * s - d) == (x * x) * (s * s) - (x * d) * (2 * s) + d * d)
        by (nonlinear_arith);
}

proof fn lemma_distribute3(a: int, b: int, c: int, m: int)
    ensures
        (a + b + c) * m == a * m + b * m + c * m,
{
    assert((a + b + c) * m == a * m + b * m + c * m) by (nonlinear_arith);
}

/// The core bound, over plain integers: components `x1, x2, x3` whose
/// squares sum to `n >= SCALE^2`, each divided by `sqrt_floor(n)` after a
/// `SCALE` rescale, give a vector whose squared length is within
/// `6 * SCALE` of `SCALE^2`.
proof fn lemma_normalized_sum_bound(x1: int, x2: int, x3: int)
    requires
        x1 * x1 + x2 * x2 + x3 * x3 >= SCALE * SCALE,
    ensures
        ({
            let el = sqrt_floor(x1 * x1 + x2 * x2 + x3 * x3);
            let r1 = tdiv(x1 * SCALE, el);
            let r2 = tdiv(x2 * SCALE, el);
            let r3 = tdiv(x3 * SCALE, el);
            SCALE * SCALE - 6 * SCALE <= r1 * r1 + r2 * r2 + r3 * r3 <= SCALE * SCALE + 6
                * SCALE
        }),
{
    let n = x1 * x1 + x2 * x2 + x3 * x3;
    assert(x1 * x1 >= 0) by (nonlinear_arith);
    assert(x2 * x2 >= 0) by (nonlinear_arith);
    assert(x3 * x3 >= 0) by (nonlinear_arith);
    let el = sqrt_floor(n);
    lemma_sqrt_floor(n);
    assert(el >= SCALE) by (nonlinear_arith)
        requires
            el >= 0,
            n >= SCALE * SCALE,
            n < (el + 1) * (el + 1),
            SCALE == 1_000_000,
    ;
    assert(-el <= x1 <= el) by (nonlinear_arith)
        requires
            x1 * x1 <= n,
            n < (el + 1) * (el + 1),
            el >= 0,
    ;
    assert(-el <= x2 <= el) by (nonlinear_arith)
        requires
            x2 * x2 <= n,
            n < (el + 1) * (el + 1),
            el >= 0,
    ;
    assert(-el <= x3 <= el) by (nonlinear_arith)
        requires
            x3 * x3 <= n,
            n < (el + 1) * (el + 1),
            el >= 0,
    ;
    let r1 = tdiv(x1 * SCALE, el);
    let r2 = tdiv(x2 * SCALE, el);
    let r3 = tdiv(x3 * SCALE, el);
    lemma_tdiv_decompose(x1 * SCALE, el);
    lemma_tdiv_decompose(x2 * SCALE, el);
    lemma_tdiv_decompose(x3 * SCALE, el);
    let d1 = x1 * SCALE - r1 * el;
    let d2 = x2 * SCALE - r2 * el;
    let d3 = x3 * SCALE - r3 * el;
    assert(x1 * d1 >= 0 && -(el - 1) <= d1 <= el - 1) by (nonlinear_arith)
        requires
            x1 * SCALE >= 0 ==> 0 <= d1 < el,
            x1 * SCALE < 0 ==> -el < d1 <= 0,
            SCALE >= 1,
            -el <= x1 <= el,
    ;
    assert(x2 * d2 >= 0 && -(el - 1) <= d2 <= el - 1) by (nonlinear_arith)
        requires
            x2 * SCALE >= 0 ==> 0 <= d2 < el,
            x2 * SCALE < 0 ==> -el < d2 <= 0,
            SCALE >= 1,
            -el <= x2 <= el,
    ;
    assert(x3 * d3 >= 0 && -(el - 1) <= d3 <= el - 1) by (nonlinear_arith)
        requires
            x3 * SCALE >= 0 ==> 0 <= d3 < el,
            x3 * SCALE < 0 ==> -el < d3 <= 0,
            SCALE >= 1,
            -el <= x3 <= el,
    ;
    let dd = x1 * d1 + x2 * d2 + x3 * d3;
    let ee = d1 * d1 + d2 * d2 + d3 * d3;
    let sum = r1 * r1 + r2 * r2 + r3 * r3;
    let m = el * el;
    // The exact algebraic identity behind the bound.
    lemma_component_identity(r1, el, x1, SCALE as int, d1);
    lemma_component_identity(r2, el, x2, SCALE as int, d2);
    lemma_component_identity(r3, el, x3, SCALE as int, d3);
    lemma_distribute3(r1 * r1, r2 * r2, r3 * r3, m);
    lemma_distribute3(x1 * x1, x2 * x2, x3 * x3, (SCALE as int) * (SCALE as int));
    lemma_distribute3(x1 * d1, x2 * d2, x3 * d3, 2 * (SCALE as int));
    assert(sum * m == n * (SCALE * SCALE) - dd * (2 * SCALE) + ee);
    // Bounds on the error terms.
    assert(0 <= x1 * d1 <= el * (el - 1)) by (nonlinear_arith)
        requires
            x1 * d1 >= 0,
            -el <= x1 <= el,
            -(el - 1) <= d1 <= el - 1,
            el >= 1,
    ;
    assert(0 <= x2 * d2 <= el * (el - 1)) by (nonlinear_arith)
        requires
            x2 * d2 >= 0,
            -el <= x2 <= el,
            -(el - 1) <= d2 <= el - 1,
            el >= 1,
    ;
    assert(0 <= x3 * d3 <= el * (el - 1)) by (nonlinear_arith)
        requires
            x3 * d3 >= 0,
            -el <= x3 <= el,
            -(el - 1) <= d3 <= el - 1,
            el >= 1,
    ;
    assert(0 <= d1 * d1 <= (el - 1) * (el - 1)) by (nonlinear_arith)
        requires
            -(el - 1) <= d1 <= el - 1,
    ;
    assert(0 <= d2 * d2 <= (el - 1) * (el - 1)) by (nonlinear_arith)
        requires
            -(el - 1) <= d2 <= el - 1,
    ;
    assert(0 <= d3 * d3 <= (el - 1) * (el - 1)) by (nonlinear_arith)
        requires
            -(el - 1) <= d3 <= el - 1,
    ;
    assert(m >= 1) by (nonlinear_arith)
        requires
            el >= 1,
            m == el * el,
    ;
    // Upper bound: drop the dd term, overestimate n and ee.
    lemma_mul_inequality(n, (el + 1) * (el + 1) - 1, (SCALE as int) * (SCALE as int));
    lemma_mul_nonnegative(dd, 2 * (SCALE as int));
    assert(sum * m <= ((el + 1) * (el + 1) - 1) * (SCALE * SCALE) + 3 * ((el - 1) * (el - 1)));
    assert(((el + 1) * (el + 1) - 1) * ((SCALE as int) * (SCALE as int)) + 3 * ((el - 1) * (el
        - 1)) <= (SCALE * SCALE + 6 * SCALE) * m) by (nonlinear_arith)
        requires
            m == el * el,
            el >= SCALE,
            SCALE == 1_000_000,
    ;
    assert(sum <= SCALE * SCALE + 6 * SCALE) by (nonlinear_arith)
        requires
            sum * m <= (SCALE * SCALE + 6 * SCALE) * m,
            m >= 1,
    ;
    // Lower bound: drop ee, underestimate n, overestimate dd.
    lemma_mul_inequality(m, n, (SCALE as int) * (SCALE as int));
    lemma_mul_inequality(dd, 3 * (el * (el - 1)), 2 * (SCALE as int));
    assert(sum * m >= m * (SCALE * SCALE) - (3 * (el * (el - 1))) * (2 * SCALE));
    assert(m * ((SCALE as int) * (SCALE as int)) - (3 * (el * (el - 1))) * (2 * (SCALE as int))
        >= (SCALE * SCALE - 6 * SCALE) * m) by (nonlinear_arith)
        requires
            m == el * el,
            el >= SCALE,
            SCALE == 1_000_000,
    ;
    assert(sum >= SCALE * SCALE - 6 * SCALE) by (nonlinear_arith)
        requires
            sum * m >= (SCALE * SCALE - 6 * SCALE) * m,
            m >= 1,
    ;
}

/// Every vector `normalize` accepts, once normalized, has unit length to
/// within six parts in `SCALE`: the squared length of the result differs
/// from `SCALE * SCALE` by at most `6 * SCALE`.
pub proof fn lemma_normalize_unit_length(v: Vector3)
    requires
        in_range(v),
        norm_sq(v) >= NORM_EPS_SQ,
    ensures
        SCALE * SCALE - 6 * SCALE <= normalized_norm_sq(v) <= SCALE * SCALE + 6 * SCALE,
{
    let s = SCALE as int;
    let x1 = v.x * s;
    let x2 = v.y * s;
    let x3 = v.z * s;
    assert((v.x * s) * (v.x * s) == (v.x * v.x) * (s * s)) by (nonlinear_arith);
    assert((v.y * s) * (v.y * s) == (v.y * v.y) * (s * s)) by (nonlinear_arith);
    assert((v.z * s) * (v.z * s) == (v.z * v.z) * (s * s)) by (nonlinear_arith);
    assert(((v.x * v.x + v.y * v.y + v.z * v.z) * s) * s == (v.x * v.x) * (s * s) + (v.y * v.y)
        * (s * s) + (v.z * v.z) * (s * s)) by (nonlinear_arith);
    assert(x1 * x1 + x2 * x2 + x3 * x3 == ((v.x * v.x + v.y * v.y + v.z * v.z) * s) * s);
    assert(((v.x * v.x + v.y * v.y + v.z * v.z) * s) * s >= s * s) by (nonlinear_arith)
        requires
            v.x * v.x + v.y * v.y + v.z * v.z >= 1,
            s >= 1,
    ;
    lemma_normalized_sum_bound(x1, x2, x3);
    assert(unit_len(v) == sqrt_floor(x1 * x1 + x2 * x2 + x3 * x3));
}

/// Scales `v` to unit length; fails on vectors shorter than the tolerance.
pub fn normalize(v: Vector3) -> (r: Result<UnitVector3, DegenerateVectorError>)
    requires
        in_range(v),
    ensures
        match r {
            Ok(u) => {
                &&& norm_sq(v) >= NORM_EPS_SQ
                &&& u.v.x == normalized_x(v)
                &&& u.v.y == normalized_y(v)
                &&& u.v.z == normalized_z(v)
                &&& unit_range(u)
            },
            Err(_) => norm_sq(v) < NORM_EPS_SQ,
        },
{
    proof {
        lemma_abs_mul_bound(v.x as int, v.x as int, MAX_COORD as int, MAX_COORD as int);
        lemma_abs_mul_bound(v.y as int, v.y as int, MAX_COORD as int, MAX_COORD as int);
        lemma_abs_mul_bound(v.z as int, v.z as int, MAX_COORD as int, MAX_COORD as int);
        assert(MAX_COORD as int * MAX_COORD as int == 1_000_000_000_000_000_000int)
            by (nonlinear_arith);
        assert(v.x * v.x >= 0) by (nonlinear_arith);
        assert(v.y * v.y >= 0) by (nonlinear_arith);
        assert(v.z * v.z >= 0) by (nonlinear_arith);
    }
    let n: i64 = v.x * v.x + v.y * v.y + v.z * v.z;
    if n < NORM_EPS_SQ {
        return Err(DegenerateVectorError);
    }
    proof {
        assert((n as int) * SCALE <= 3_000_000_000_000_000_000_000_000int) by (nonlinear_arith)
            requires
                0 <= n <= 3_000_000_000_000_000_000,
                SCALE == 1_000_000,
        ;
        assert(((n as int) * SCALE) * SCALE <= 3_000_000_000_000_000_000_000_000_000_000int)
            by (nonlinear_arith)
            requires
                0 <= (n as int) * SCALE <= 3_000_000_000_000_000_000_000_000int,
                SCALE == 1_000_000,
        ;
        assert((n as int) * SCALE >= 0) by (nonlinear_arith)
            requires
                n >= 0,
                SCALE >= 0,
        ;
        assert(((n as int) * SCALE) * SCALE >= SCALE * SCALE) by (nonlinear_arith)
            requires
                (n as int) * SCALE >= SCALE,
                SCALE >= 1,
        ;
        assert((n as int) * SCALE >= SCALE) by (nonlinear_arith)
            requires
                n >= 1,
                SCALE >= 1,
        ;
    }
    let nw: u128 = (n as u128) * (SCALE as u128) * (SCALE as u128);
    let l: u64 = isqrt(nw);
    proof {
        assert(l >= SCALE) by (nonlinear_arith)
            requires
                l >= 0,
                nw >= SCALE * SCALE,
                nw < (l + 1) * (l + 1),
                SCALE == 1_000_000,
        ;
        assert(l <= 2_000_000_000_000_000u64) by (nonlinear_arith)
            requires
                l * l <= nw,
                nw <= 3_000_000_000_000_000_000_000_000_000_000int,
                l >= 0,
        ;
        assert((v.x * SCALE) * (v.x * SCALE) <= nw) by (nonlinear_arith)
            requires
                v.x * v.x <= n,
                nw == ((n as int) * SCALE) * SCALE,
                SCALE >= 0,
        ;
        assert((v.y * SCALE) * (v.y * SCALE) <= nw) by (nonlinear_arith)
            requires
                v.y * v.y <= n,
                nw == ((n as int) * SCALE) * SCALE,
                SCALE >= 0,
        ;
        assert((v.z * SCALE) * (v.z * SCALE) <= nw) by (nonlinear_arith)
            requires
                v.z * v.z <= n,
                nw == ((n as int) * SCALE) * SCALE,
                SCALE >= 0,
        ;
        assert(-(l as int) <= v.x * SCALE <= l as int) by (nonlinear_arith)
            requires
                (v.x * SCALE) * (v.x * SCALE) <= nw,
                nw < (l + 1) * (l + 1),
                l >= 0,
        ;
        assert(-(l as int) <= v.y * SCALE <= l as int) by (nonlinear_arith)
            requires
                (v.y * SCALE) * (v.y * SCALE) <= nw,
                nw < (l + 1) * (l + 1),
                l >= 0,
        ;
        assert(-(l as int) <= v.z * SCALE <= l as int) by (nonlinear_arith)
            requires
                (v.z * SCALE) * (v.z * SCALE) <= nw,
                nw < (l + 1) * (l + 1),
                l >= 0,
        ;
        lemma_abs_mul_bound(v.x * SCALE, SCALE as int, l as int, SCALE as int);
        lemma_abs_mul_bound(v.y * SCALE, SCALE as int, l as int, SCALE as int);
        lemma_abs_mul_bound(v.z * SCALE, SCALE as int, l as int, SCALE as int);
        lemma_tdiv_magnitude((v.x * SCALE) * SCALE, l as int, SCALE as int);
        lemma_tdiv_magnitude((v.y * SCALE) * SCALE, l as int, SCALE as int);
        lemma_tdiv_magnitude((v.z * SCALE) * SCALE, l as int, SCALE as int);
        assert((l as int) * SCALE <= 2_000_000_000_000_000_000_000int) by (nonlinear_arith)
            requires
                0 <= l <= 2_000_000_000_000_000u64,
                SCALE == 1_000_000,
        ;
    }
    let li: i128 = l as i128;
    let rx: i128 = div_wide((v.x as i128) * (SCALE as i128) * (SCALE as i128), li);
    let ry: i128 = div_wide((v.y as i128) * (SCALE as i128) * (SCALE as i128), li);
    let rz: i128 = div_wide((v.z as i128) * (SCALE as i128) * (SCALE as i128), li);
    let u = UnitVector3 { v: Vector3 { x: rx as i64, y: ry as i64, z: rz as i64 } };
    proof {
        assert(unit_len(v) == l);
        lemma_normalize_unit_length(v);
        assert(norm_sq(u.v) == normalized_norm_sq(v));
    }
    Ok(u)
}

} // verus!
