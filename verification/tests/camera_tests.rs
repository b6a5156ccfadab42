use opengl_window::types::{CameraError, Vector3};
use opengl_window::Camera;

fn demo_camera() -> Camera {
    Camera::new(
        Vector3::new(0, -2_000_000, 2_000_000),
        Vector3::new(0, 1_000_000, -1_000_000),
        (900, 700),
        60,
    )
    .unwrap()
}

#[test]
fn camera_new_sets_aspect_direction_and_planes() {
    let c = demo_camera();
    assert_eq!(c.aspect_ratio, 1_285_714);
    assert_eq!(c.resolution, (900, 700));
    assert_eq!(c.fov, 60);
    assert_eq!(c.clipping_planes.near, 100_000);
    assert_eq!(c.clipping_planes.far, 1_024_000_000);
    assert_eq!(c.direction.v, Vector3::new(0, 707_106, -707_106));
}

#[test]
fn camera_new_degenerate_direction_fails() {
    let r = Camera::new(Vector3::new(0, 0, 0), Vector3::new(0, 0, 0), (900, 700), 60);
    assert!(matches!(r, Err(CameraError::DegenerateDirection)));
}

#[test]
fn camera_new_zero_height_fails() {
    let r = Camera::new(
        Vector3::new(0, 0, 0),
        Vector3::new(0, 0, 1_000_000),
        (900, 0),
        60,
    );
    assert!(matches!(r, Err(CameraError::InvalidResolution)));
}

#[test]
fn update_resolution_recomputes_aspect() {
    let mut c = demo_camera();
    c.update_resolution((1920, 1080));
    assert_eq!(c.aspect_ratio, 1_777_777);
    c.update_resolution((100, 50));
    assert_eq!(c.aspect_ratio, 2_000_000);
    assert_eq!(c.resolution, (100, 50));
}

#[test]
fn perspective_matrix_entries() {
    let c = demo_camera();
    let m = c.get_perspective_matrix();
    // f = 1 / tan(30 degrees) = sqrt(3) ~ 1.7320508, truncated.
    assert_eq!(m[1][1], 1_732_050);
    assert_eq!(m[0][0], 1_347_150);
    assert_eq!(m[2][2], 1_000_195);
    assert_eq!(m[2][3], 1_000_000);
    assert_eq!(m[3][2], -200_019);
    assert_eq!(m[0][1], 0);
    assert_eq!(m[0][2], 0);
    assert_eq!(m[0][3], 0);
    assert_eq!(m[1][0], 0);
    assert_eq!(m[1][2], 0);
    assert_eq!(m[1][3], 0);
    assert_eq!(m[2][0], 0);
    assert_eq!(m[2][1], 0);
    assert_eq!(m[3][0], 0);
    assert_eq!(m[3][1], 0);
    assert_eq!(m[3][3], 0);
}

#[test]
fn perspective_independent_of_pose() {
    let a = demo_camera();
    let b = Camera::new(
        Vector3::new(5_000_000, 7_000_000, -3_000_000),
        Vector3::new(1_000_000, 0, 0),
        (900, 700),
        60,
    )
    .unwrap();
    assert_eq!(a.get_perspective_matrix(), b.get_perspective_matrix());
}

#[test]
fn view_matrix_axis_aligned_is_identity() {
    let c = Camera::new(
        Vector3::new(0, 0, 0),
        Vector3::new(0, 0, 1_000_000),
        (900, 700),
        60,
    )
    .unwrap();
    let m = c.get_view_matrix().unwrap();
    let identity: [[i64; 4]; 4] = [
        [1_000_000, 0, 0, 0],
        [0, 1_000_000, 0, 0],
        [0, 0, 1_000_000, 0],
        [0, 0, 0, 1_000_000],
    ];
    assert_eq!(m, identity);
}

#[test]
fn view_matrix_negative_z_direction() {
    // Looking along -z, the rotation block is diag(-1, 1, -1): the camera
    // basis flips the x and z axes; translation stays zero.
    let c = Camera::new(
        Vector3::new(0, 0, 0),
        Vector3::new(0, 0, -1_000_000),
        (900, 700),
        60,
    )
    .unwrap();
    let m = c.get_view_matrix().unwrap();
    let expected: [[i64; 4]; 4] = [
        [-1_000_000, 0, 0, 0],
        [0, 1_000_000, 0, 0],
        [0, 0, -1_000_000, 0],
        [0, 0, 0, 1_000_000],
    ];
    assert_eq!(m, expected);
}

#[test]
fn view_matrix_parallel_to_up_fails() {
    let c = Camera::new(
        Vector3::new(0, 0, 0),
        Vector3::new(0, 1_000_000, 0),
        (900, 700),
        60,
    )
    .unwrap();
    assert!(c.get_view_matrix().is_err());
}
