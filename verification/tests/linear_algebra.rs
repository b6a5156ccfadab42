use opengl_window::fixed::{div_scalar, isqrt, SCALE};
use opengl_window::normalize;
use opengl_window::types::{DegenerateVectorError, Vector3};

#[test]
fn normalize_axis_exact() {
    let v = Vector3::new(3 * SCALE, 0, 0);
    let u = normalize(v).unwrap();
    assert_eq!(u.v, Vector3::new(SCALE, 0, 0));
}

#[test]
fn normalize_diagonal_within_tolerance() {
    let v = Vector3::new(SCALE, SCALE, SCALE);
    let u = normalize(v).unwrap();
    assert_eq!(u.v, Vector3::new(577_350, 577_350, 577_350));
    let nsq: i64 = u.v.x * u.v.x + u.v.y * u.v.y + u.v.z * u.v.z;
    assert!((nsq - SCALE * SCALE).abs() <= 6 * SCALE);
}

#[test]
fn normalize_negative_component() {
    let v = Vector3::new(-707_107, 0, 0);
    let u = normalize(v).unwrap();
    assert_eq!(u.v, Vector3::new(-SCALE, 0, 0));
}

#[test]
fn normalize_tiny_vector_keeps_unit_length() {
    // The shortest admitted vectors keep full precision: (1e-6, 1e-6, 0)
    // normalizes to (0.707107, 0.707107, 0), unit within tolerance.
    let u = normalize(Vector3::new(1, 1, 0)).unwrap();
    assert_eq!(u.v, Vector3::new(707_107, 707_107, 0));
    let nsq: i64 = u.v.x * u.v.x + u.v.y * u.v.y + u.v.z * u.v.z;
    assert!((nsq - SCALE * SCALE).abs() <= 6 * SCALE);
}

#[test]
fn normalize_zero_vector_fails() {
    let r = normalize(Vector3::new(0, 0, 0));
    assert_eq!(r, Err(DegenerateVectorError));
}

#[test]
fn dot_product_reference_value() {
    let a = Vector3::new(1_000_000, 2_000_000, 3_000_000);
    let b = Vector3::new(4_000_000, 5_000_000, 6_000_000);
    assert_eq!(a.dot(&b), 32_000_000);
}

#[test]
fn cross_product_right_handed() {
    let x = Vector3::new(SCALE, 0, 0);
    let y = Vector3::new(0, SCALE, 0);
    assert_eq!(x.cross(&y), Vector3::new(0, 0, SCALE));
    assert_eq!(y.cross(&x), Vector3::new(0, 0, -SCALE));
}

#[test]
fn vector_add_and_scale() {
    let a = Vector3::new(1_000_000, -2_000_000, 500_000);
    let b = Vector3::new(250_000, 2_000_000, 500_000);
    assert_eq!(a.add(&b), Vector3::new(1_250_000, 0, 1_000_000));
    let s = Vector3::new(2_000_000, -4_000_000, 6_000_000).scaled(500_000);
    assert_eq!(s, Vector3::new(1_000_000, -2_000_000, 3_000_000));
}

#[test]
fn isqrt_exact_and_truncated() {
    assert_eq!(isqrt(0), 0);
    assert_eq!(isqrt(9), 3);
    assert_eq!(isqrt(10), 3);
    assert_eq!(isqrt(3_000_000_000_000), 1_732_050);
}

#[test]
fn div_scalar_truncates_toward_zero() {
    assert_eq!(div_scalar(7, 2), 3);
    assert_eq!(div_scalar(-7, 2), -3);
    assert_eq!(div_scalar(0, 5), 0);
}
