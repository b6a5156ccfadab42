use opengl_window::consts::{black, blue, light, white};
use opengl_window::types::{BackfaceCulling, Color, DepthTest, Normal, Vector3, Vertex};
use opengl_window::{draw_config, render, Camera, SceneObject};

fn demo_camera() -> Camera {
    Camera::new(
        Vector3::new(0, -2_000_000, 2_000_000),
        Vector3::new(0, 1_000_000, -1_000_000),
        (900, 700),
        60,
    )
    .unwrap()
}

#[test]
fn render_demo_scene_end_to_end() {
    let camera = demo_camera();
    let objects = vec![SceneObject::teapot(0)];
    let calls = render(&objects, &camera).unwrap();
    assert_eq!(calls.len(), 1);
    let call = &calls[0];
    assert_eq!(call.mesh, 0);
    let expected_model: [[i64; 4]; 4] = [
        [10_000, 0, 0, 0],
        [0, 10_000, 0, 0],
        [0, 0, 10_000, 0],
        [0, 0, 0, 1_000_000],
    ];
    assert_eq!(call.model, expected_model);
    // f = 1 / tan(30 degrees) = sqrt(3) ~ 1.7320508, truncated.
    assert_eq!(call.perspective[1][1], 1_732_050);
    assert_eq!(call.perspective[0][0], 1_347_150);
    // Camera basis: right (-1, 0, 0), up (0, 0.707106, 0.707106),
    // direction (0, 0.707106, -0.707106), translation (0, 0, 2.828424).
    let expected_view: [[i64; 4]; 4] = [
        [-1_000_000, 0, 0, 0],
        [0, 707_106, 707_106, 0],
        [0, 707_106, -707_106, 0],
        [0, 0, 2_828_424, 1_000_000],
    ];
    assert_eq!(call.view, expected_view);
    assert_eq!(call.light, Vector3::new(-1_000_000, 400_000, 900_000));
}

#[test]
fn render_preserves_object_order() {
    let camera = demo_camera();
    let mut a = SceneObject::new(11);
    a.set_scale(1);
    let mut b = SceneObject::new(22);
    b.set_scale(2);
    let mut c = SceneObject::new(33);
    c.set_scale(3);
    let objects = vec![a, b, c];
    let calls = render(&objects, &camera).unwrap();
    assert_eq!(calls.len(), 3);
    assert_eq!(calls[0].mesh, 11);
    assert_eq!(calls[1].mesh, 22);
    assert_eq!(calls[2].mesh, 33);
    assert_eq!(calls[0].model[0][0], 1);
    assert_eq!(calls[1].model[0][0], 2);
    assert_eq!(calls[2].model[0][0], 3);
    // The shared matrices are identical across calls.
    assert_eq!(calls[0].view, calls[2].view);
    assert_eq!(calls[0].perspective, calls[2].perspective);
}

#[test]
fn render_empty_scene() {
    let camera = demo_camera();
    let calls = render(&Vec::new(), &camera).unwrap();
    assert_eq!(calls.len(), 0);
}

#[test]
fn render_fails_when_direction_parallel_to_up() {
    let camera = Camera::new(
        Vector3::new(0, 0, 0),
        Vector3::new(0, 1_000_000, 0),
        (900, 700),
        60,
    )
    .unwrap();
    assert!(render(&vec![SceneObject::teapot(0)], &camera).is_err());
}

#[test]
fn draw_config_is_depth_less_cull_clockwise() {
    let c = draw_config();
    assert_eq!(c.depth_test, DepthTest::IfLess);
    assert!(c.depth_write);
    assert_eq!(c.backface_culling, BackfaceCulling::CullClockwise);
}

#[test]
fn mesh_attributes_hold_fixed_point_triples() {
    let v = Vertex { position: (1_000_000, 0, -500_000) };
    assert_eq!(v.position.2, -500_000);
    let n = Normal { normal: (0, 1_000_000, 0) };
    assert_eq!(n.normal.1, 1_000_000);
}

#[test]
fn color_constants() {
    assert_eq!(black(), Color { r: 0, g: 0, b: 0 });
    assert_eq!(white(), Color { r: 1_000_000, g: 1_000_000, b: 1_000_000 });
    assert_eq!(blue(), Color { r: 200_000, g: 200_000, b: 700_000 });
    assert_eq!(light(), Vector3::new(-1_000_000, 400_000, 900_000));
    assert_eq!(Color::new(1, 2, 3), Color { r: 1, g: 2, b: 3 });
}
