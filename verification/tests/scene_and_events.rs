use opengl_window::events::{apply_input, next_frame_deadline, Event, Key, LoopAction, Session};
use opengl_window::types::Vector3;
use opengl_window::{SceneObject, Transform};

#[test]
fn scene_object_new_and_teapot() {
    let o = SceneObject::new(7);
    assert_eq!(o.mesh, 7);
    assert_eq!(o.transform.position, Vector3::new(0, 0, 0));
    assert_eq!(o.transform.scale, 1_000_000);
    let t = SceneObject::teapot(3);
    assert_eq!(t.mesh, 3);
    assert_eq!(t.transform.scale, 10_000);
}

#[test]
fn setters_replace_fields() {
    let mut o = SceneObject::new(0);
    o.set_position(Vector3::new(1, 2, 3));
    assert_eq!(o.transform.position, Vector3::new(1, 2, 3));
    o.set_scale(42);
    assert_eq!(o.transform.scale, 42);
    o.set_transform(Transform { position: Vector3::new(9, 9, 9), scale: 5 });
    assert_eq!(o.transform.position, Vector3::new(9, 9, 9));
    assert_eq!(o.transform.scale, 5);
}

#[test]
fn scale_up_down_round_trip_exact() {
    let mut o = SceneObject::teapot(0);
    o.scale_up();
    assert_eq!(o.transform.scale, 10_100);
    o.scale_down();
    assert_eq!(o.transform.scale, 10_000);
}

#[test]
fn scale_round_trip_within_one_unit() {
    let mut o = SceneObject::new(0);
    o.set_scale(333_333);
    o.scale_up();
    assert_eq!(o.transform.scale, 336_666);
    o.scale_down();
    assert_eq!(o.transform.scale, 333_332);
    assert!((333_333i64 - o.transform.scale).abs() <= 1);
}

#[test]
fn model_matrix_is_uniform_scale_diagonal() {
    let o = SceneObject::teapot(0);
    let m = o.get_model_matrix();
    let expected: [[i64; 4]; 4] = [
        [10_000, 0, 0, 0],
        [0, 10_000, 0, 0],
        [0, 0, 10_000, 0],
        [0, 0, 0, 1_000_000],
    ];
    assert_eq!(m, expected);
}

#[test]
fn close_request_stops_rendering() {
    let mut s = Session::new();
    assert_eq!(s.dispatch(&Event::Resized(800, 600)), LoopAction::Render);
    assert!(!s.exited);
    // The close-requested iteration renders nothing ...
    assert_eq!(s.dispatch(&Event::CloseRequested), LoopAction::Skip);
    assert!(s.exited);
    // ... and neither does any later iteration.
    assert_eq!(s.dispatch(&Event::RedrawRequested), LoopAction::Skip);
    assert_eq!(s.dispatch(&Event::TimerElapsed), LoopAction::Skip);
    assert_eq!(s.dispatch(&Event::Resized(800, 600)), LoopAction::Skip);
}

#[test]
fn escape_key_exits_without_rendering() {
    let mut s = Session::new();
    let a = s.dispatch(&Event::KeyInput { key: Key::Escape, pressed: true });
    assert_eq!(a, LoopAction::Skip);
    assert!(s.exited);
}

#[test]
fn timer_tick_renders_a_frame() {
    let mut s = Session::new();
    assert_eq!(s.dispatch(&Event::TimerElapsed), LoopAction::Render);
    assert_eq!(s.dispatch(&Event::TimerElapsed), LoopAction::Render);
    assert!(!s.exited);
}

#[test]
fn ignored_events_do_not_render() {
    let mut s = Session::new();
    assert_eq!(s.dispatch(&Event::LoopDestroyed), LoopAction::Skip);
    assert_eq!(s.dispatch(&Event::Other), LoopAction::Skip);
    assert!(!s.exited);
    assert_eq!(s.dispatch(&Event::RedrawRequested), LoopAction::Render);
}

#[test]
fn apply_input_scales_first_object_only() {
    let mut objects = vec![SceneObject::new(0), SceneObject::new(1)];
    apply_input(&mut objects, &Event::KeyInput { key: Key::W, pressed: true });
    assert_eq!(objects[0].transform.scale, 1_010_000);
    assert_eq!(objects[1].transform.scale, 1_000_000);
    apply_input(&mut objects, &Event::KeyInput { key: Key::S, pressed: true });
    assert_eq!(objects[0].transform.scale, 1_000_000);
    // Released keys and other keys change nothing.
    apply_input(&mut objects, &Event::KeyInput { key: Key::W, pressed: false });
    apply_input(&mut objects, &Event::KeyInput { key: Key::Other, pressed: true });
    assert_eq!(objects[0].transform.scale, 1_000_000);
}

#[test]
fn next_frame_deadline_adds_one_interval() {
    assert_eq!(next_frame_deadline(100), 16_666_767);
}
