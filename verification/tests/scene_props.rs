//! Scene graph construction, traversal order, and composed transforms.

use gloom::controls::Controls;
use gloom::fixed::FX_ONE;
use gloom::mat::{identity, vec3};
use gloom::scene_graph::{
    build_scene, handle_camera, helicopter_animation, traverse, DrawCall, Node, NodeKind,
    HELICOPTER_INDEX,
};

#[test]
fn traversal_is_preorder_in_insertion_order() {
    // root with children [A, B], A with child [C]: visited root, A, C, B.
    let mut root = Node::from_vao(1, 3);
    let mut a = Node::from_vao(2, 3);
    let c = Node::from_vao(3, 3);
    a.add_child(c);
    let b = Node::from_vao(4, 3);
    root.add_child(a);
    root.add_child(b);
    let mut out: Vec<DrawCall> = Vec::new();
    traverse(&root, &identity(), &mut out);
    let order: Vec<u32> = out.iter().map(|d| d.vao_id).collect();
    assert_eq!(order, vec![1, 2, 3, 4]);
}

#[test]
fn group_nodes_are_not_drawn() {
    let mut root = Node::new();
    root.add_child(Node::from_vao(7, 12));
    let camera = Node::new_camera();
    root.add_child(camera);
    let mut out: Vec<DrawCall> = Vec::new();
    traverse(&root, &identity(), &mut out);
    assert_eq!(out.len(), 1);
    assert_eq!(out[0].vao_id, 7);
    assert_eq!(out[0].index_count, 12);
}

#[test]
fn composed_transform_adds_parent_offsets() {
    // root at identity, child at (1,0,0), grandchild at (0,1,0): the
    // grandchild lands at world position (1,1,0).
    let mut root = Node::new();
    let mut child = Node::new();
    child.position = vec3(FX_ONE, 0, 0);
    let mut grandchild = Node::from_vao(9, 3);
    grandchild.position = vec3(0, FX_ONE, 0);
    child.add_child(grandchild);
    root.add_child(child);
    let mut out: Vec<DrawCall> = Vec::new();
    traverse(&root, &identity(), &mut out);
    assert_eq!(out.len(), 1);
    let m = out[0].transform;
    assert_eq!(m.r0.w, FX_ONE);
    assert_eq!(m.r1.w, FX_ONE);
    assert_eq!(m.r2.w, 0);
    assert_eq!(m.r0.x, FX_ONE);
    assert_eq!(m.r1.y, FX_ONE);
    assert_eq!(m.r2.z, FX_ONE);
}

#[test]
fn child_accessors() {
    let mut root = Node::new();
    root.add_child(Node::from_vao(5, 10));
    root.add_child(Node::from_vao(6, 20));
    assert_eq!(root.get_n_children(), 2);
    assert_eq!(root.get_child(1).vao_id, 6);
}

#[test]
fn built_scene_has_terrain_two_helicopters_and_camera() {
    let root = build_scene(1, 100, 2, 200, 3, 30, 4, 40, 5, 50);
    assert_eq!(root.get_n_children(), 3);
    assert_eq!(root.kind, NodeKind::Group);
    assert_eq!(root.get_child(0).vao_id, 1);
    assert_eq!(root.get_child(0).index_count, 100);
    let heli = root.get_child(1);
    assert_eq!(heli.vao_id, 2);
    assert_eq!(heli.get_n_children(), 4);
    assert_eq!(heli.get_child(3).kind, NodeKind::Camera);
    let other = root.get_child(2);
    assert_eq!(other.get_n_children(), 3);
    assert_eq!(other.get_child(1).vao_id, 4);
}

#[test]
fn helicopter_animation_moves_only_the_followed_helicopter() {
    let mut root = build_scene(1, 100, 2, 200, 3, 30, 4, 40, 5, 50);
    let terrain_before = root.get_child(0).position;
    let first_before = root.get_child(1).position;
    helicopter_animation(0, &mut root);
    assert_eq!(root.get_child(0).position, terrain_before);
    assert_eq!(root.get_child(1).position, first_before);
    let heli = root.get_child(HELICOPTER_INDEX);
    // The followed helicopter keeps its sibling's altitude.
    assert_eq!(heli.position.y, first_before.y);
    assert_eq!(heli.position, heli.reference_point);
    // At elapsed zero the rotors have not spun yet.
    assert_eq!(heli.get_child(0).rotation, vec3(0, 0, 0));
    assert_eq!(heli.get_child(1).rotation, vec3(0, 0, 0));
}

#[test]
fn rotors_spin_with_elapsed_time() {
    let mut root = build_scene(1, 100, 2, 200, 3, 30, 4, 40, 5, 50);
    helicopter_animation(FX_ONE, &mut root);
    let heli = root.get_child(HELICOPTER_INDEX);
    // 30 radians after one second, about the rotor axes.
    assert_eq!(heli.get_child(0).rotation, vec3(0, 30 * FX_ONE, 0));
    assert_eq!(heli.get_child(1).rotation, vec3(30 * FX_ONE, 0, 0));
}

#[test]
fn camera_follows_the_helicopter_at_an_offset() {
    let root = build_scene(1, 100, 2, 200, 3, 30, 4, 40, 5, 50);
    let mut controls = Controls::new();
    let offset = vec3(0, 10 * FX_ONE, 20 * FX_ONE);
    handle_camera(&mut controls, &root, &offset);
    let heli = root.get_child(HELICOPTER_INDEX);
    assert_eq!(controls.get_position().x, heli.position.x);
    assert_eq!(controls.get_position().y, heli.position.y + 10 * FX_ONE);
    assert_eq!(controls.get_position().z, heli.position.z + 20 * FX_ONE);
}
