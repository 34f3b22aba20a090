//! The shared input state and the mesh registry.

use gloom::controls::Key;
use gloom::input_state::InputState;
use gloom::meshes::{MeshInfo, Meshes};

#[test]
fn pressing_a_key_twice_keeps_one_entry() {
    let mut s = InputState::new(800, 600);
    s.press(Key::W);
    s.press(Key::W);
    assert_eq!(s.pressed_keys.len(), 1);
    s.press(Key::A);
    assert_eq!(s.pressed_keys.len(), 2);
}

#[test]
fn releasing_removes_only_that_key() {
    let mut s = InputState::new(800, 600);
    s.press(Key::W);
    s.press(Key::A);
    s.press(Key::D);
    s.release(Key::A);
    assert_eq!(s.pressed_keys, vec![Key::W, Key::D]);
    s.release(Key::Space);
    assert_eq!(s.pressed_keys, vec![Key::W, Key::D]);
}

#[test]
fn mouse_delta_accumulates_and_is_consumed_once() {
    let mut s = InputState::new(800, 600);
    s.accumulate_mouse(10, -3);
    s.accumulate_mouse(5, 4);
    assert_eq!(s.take_mouse_delta(), (15, 1));
    assert_eq!(s.take_mouse_delta(), (0, 0));
}

#[test]
fn resize_is_flagged_until_observed() {
    let mut s = InputState::new(800, 600);
    assert_eq!(s.take_resize(), None);
    s.set_window_size(1024, 768);
    assert_eq!(s.take_resize(), Some((1024, 768)));
    assert_eq!(s.take_resize(), None);
    assert_eq!(s.width, 1024);
}

#[test]
fn mesh_registry_keeps_order() {
    let mut m = Meshes::new();
    m.add(MeshInfo { vertex_count: 9, index_count: 3 });
    let batch = vec![
        MeshInfo { vertex_count: 30, index_count: 12 },
        MeshInfo { vertex_count: 60, index_count: 24 },
    ];
    m.add_all(&batch);
    assert_eq!(m.len(), 3);
    assert_eq!(m.meshes[1].index_count, 12);
    m.add_vao(41);
    m.add_vao(42);
    assert_eq!(m.vaos, vec![41, 42]);
}
