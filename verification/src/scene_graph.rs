//! The scene graph: a tree of nodes, each owning a local transform and an
//! optional renderable, with depth-first pre-order traversal that composes
//! parent-to-child transforms and collects one draw call per drawable
//! node, children in insertion order.

use vstd::prelude::*;
use crate::fixed::{fx_add, fx_mul, fx_ok, spec_fx_add, spec_fx_mul, FX_ONE};
use crate::controls::Controls;
use crate::mat::{
    lemma_mat_mul_identity_left, mat_mul, spec_identity, spec_mat_mul, spec_translation,
    spec_vec3_add, vec3_add, wf_mat4, wf_vec3, Mat4, Vec3,
};
use crate::toolbox::{
    lemma_rotate_around_zero, lemma_scale_around_unit, rotate_around, scale_around,
    simple_heading_animation, spec_rotate_around, spec_scale_around, spec_simple_heading, Heading,
};

verus! {

/// How many helicopters the demo scene holds.
pub const HELI_COUNT: u32 = 2;

/// The index of the camera-following helicopter among the root's children.
pub const HELICOPTER_INDEX: usize = 2;

/// Phase offset between animated helicopters (1.1 seconds).
pub const HELI_PHASE_FX: i64 = 72090;

/// Rotor spin rate (30 radians per second of elapsed time).
pub const ROTOR_SPIN_FX: i64 = 1966080;

/// What a node stands for: drawable geometry, a camera anchor, or a pure
/// grouping node.
#[derive(Clone, Copy, Debug, PartialEq, Eq, Structural)]
pub enum NodeKind {
    Mesh,
    Camera,
    Group,
}

/// A scene graph node. It owns its children exclusively; traversal passes
/// parent context downward, so nodes carry no parent pointers.
pub struct Node {
    pub position: Vec3,
    pub rotation: Vec3,
    pub scale: Vec3,
    pub reference_point: Vec3,
    pub vao_id: u32,
    pub index_count: i32,
    pub kind: NodeKind,
    pub children: Vec<Node>,
}

/// Every vector of the node and of its descendants is well-formed.
pub open spec fn wf_node(n: Node) -> bool
    decreases n,
{
    wf_vec3(n.position) && wf_vec3(n.rotation) && wf_vec3(n.scale) && wf_vec3(n.reference_point)
        && (forall|i: int| 0 <= i < n.children@.len() ==> wf_node(#[trigger] n.children@[i]))
}

/// A node is drawable when it carries mesh geometry with a positive index
/// count.
pub open spec fn spec_drawable(n: Node) -> bool {
    n.index_count > 0 && n.kind == NodeKind::Mesh
}

/// The node's local transform: rotation about the reference point, then
/// scaling about the same point, applied to the translated node.
#[verifier::opaque]
pub open spec fn spec_node_transform(n: Node) -> Mat4 {
    spec_mat_mul(
        spec_mat_mul(
            spec_rotate_around(n.rotation, n.reference_point),
            spec_scale_around(n.scale, n.reference_point),
        ),
        spec_translation(n.position),
    )
}

/// One draw request: which geometry to draw and with which composed world
/// transform.
#[derive(Clone, Copy, Debug, PartialEq, Eq, Structural)]
pub struct DrawCall {
    pub vao_id: u32,
    pub index_count: i32,
    pub transform: Mat4,
}

/// The draw calls a depth-first pre-order traversal emits: the node's own
/// call first (if drawable), then each child's calls in insertion order.
#[verifier::rlimit(100)]
pub open spec fn spec_traverse(n: Node, parent: Mat4) -> Seq<DrawCall>
    decreases n,
{
    let world = spec_mat_mul(parent, spec_node_transform(n));
    let own = if spec_drawable(n) {
        seq![DrawCall { vao_id: n.vao_id, index_count: n.index_count, transform: world }]
    } else {
        Seq::<DrawCall>::empty()
    };
    own + spec_traverse_children(n.children@, world)
}

pub open spec fn spec_traverse_children(s: Seq<Node>, world: Mat4) -> Seq<DrawCall>
    decreases s,
{
    if s.len() == 0 {
        Seq::<DrawCall>::empty()
    } else {
        spec_traverse(s[0], world) + spec_traverse_children(s.drop_first(), world)
    }
}

impl Node {
    /// A pure grouping node: no geometry, identity-like transform state.
    pub fn new() -> (r: Node)
        ensures
            r.position == (Vec3 { x: 0, y: 0, z: 0 }),
            r.rotation == (Vec3 { x: 0, y: 0, z: 0 }),
            r.scale == (Vec3 { x: FX_ONE, y: FX_ONE, z: FX_ONE }),
            r.reference_point == (Vec3 { x: 0, y: 0, z: 0 }),
            r.vao_id == 0,
            r.index_count == -1,
            r.kind == NodeKind::Group,
            r.children@.len() == 0,
            wf_node(r),
    {
        Node {
            position: Vec3 { x: 0, y: 0, z: 0 },
            rotation: Vec3 { x: 0, y: 0, z: 0 },
            scale: Vec3 { x: FX_ONE, y: FX_ONE, z: FX_ONE },
            reference_point: Vec3 { x: 0, y: 0, z: 0 },
            vao_id: 0,
            index_count: -1,
            kind: NodeKind::Group,
            children: Vec::new(),
        }
    }

    /// A drawable mesh node for uploaded geometry.
    pub fn from_vao(vao_id: u32, index_count: i32) -> (r: Node)
        ensures
            r.position == (Vec3 { x: 0, y: 0, z: 0 }),
            r.rotation == (Vec3 { x: 0, y: 0, z: 0 }),
            r.scale == (Vec3 { x: FX_ONE, y: FX_ONE, z: FX_ONE }),
            r.reference_point == (Vec3 { x: 0, y: 0, z: 0 }),
            r.vao_id == vao_id,
            r.index_count == index_count,
            r.kind == NodeKind::Mesh,
            r.children@.len() == 0,
            wf_node(r),
    {
        Node {
            position: Vec3 { x: 0, y: 0, z: 0 },
            rotation: Vec3 { x: 0, y: 0, z: 0 },
            scale: Vec3 { x: FX_ONE, y: FX_ONE, z: FX_ONE },
            reference_point: Vec3 { x: 0, y: 0, z: 0 },
            vao_id,
            index_count,
            kind: NodeKind::Mesh,
            children: Vec::new(),
        }
    }

    /// A camera anchor node: part of the tree, never drawn.
    pub fn new_camera() -> (r: Node)
        ensures
            r.position == (Vec3 { x: 0, y: 0, z: 0 }),
            r.rotation == (Vec3 { x: 0, y: 0, z: 0 }),
            r.scale == (Vec3 { x: FX_ONE, y: FX_ONE, z: FX_ONE }),
            r.reference_point == (Vec3 { x: 0, y: 0, z: 0 }),
            r.vao_id == 0,
            r.index_count == -1,
            r.kind == NodeKind::Camera,
            r.children@.len() == 0,
            wf_node(r),
    {
        Node {
            position: Vec3 { x: 0, y: 0, z: 0 },
            rotation: Vec3 { x: 0, y: 0, z: 0 },
            scale: Vec3 { x: FX_ONE, y: FX_ONE, z: FX_ONE },
            reference_point: Vec3 { x: 0, y: 0, z: 0 },
            vao_id: 0,
            index_count: -1,
            kind: NodeKind::Camera,
            children: Vec::new(),
        }
    }

    /// Append a child; the parent owns it exclusively from here on.
    pub fn add_child(&mut self, child: Node)
        ensures
            final(self).children@ == old(self).children@.push(child),
            final(self).position == old(self).position,
            final(self).rotation == old(self).rotation,
            final(self).scale == old(self).scale,
            final(self).reference_point == old(self).reference_point,
            final(self).vao_id == old(self).vao_id,
            final(self).index_count == old(self).index_count,
            final(self).kind == old(self).kind,
    {
        self.children.push(child);
    }

    /// The child at `index`; out-of-range access is a scene-construction
    /// bug, ruled out by the precondition.
    pub fn get_child(&self, index: usize) -> (r: &Node)
        requires
            index < self.children@.len(),
        ensures
            *r == self.children@[index as int],
    {
        &self.children[index]
    }

    pub fn get_n_children(&self) -> (r: usize)
        ensures
            r == self.children@.len(),
    {
        self.children.len()
    }

    /// The node's local transform (see `spec_node_transform`).
    pub fn get_transform(&self) -> (r: Mat4)
        requires
            wf_vec3(self.position),
            wf_vec3(self.rotation),
            wf_vec3(self.scale),
            wf_vec3(self.reference_point),
        ensures
            r == spec_node_transform(*self),
            wf_mat4(r),
    {
        proof {
            reveal(spec_node_transform);
        }
        let rot: Mat4 = rotate_around(&self.rotation, &self.reference_point);
        let scl: Mat4 = scale_around(&self.scale, &self.reference_point);
        let pos: Mat4 = crate::mat::translation(&self.position);
        mat_mul(&mat_mul(&rot, &scl), &pos)
    }
}

/// Walk the tree depth-first in pre-order, children in insertion order,
/// appending one draw call per drawable node with its composed world
/// transform.
#[verifier::rlimit(100)]
pub fn traverse(node: &Node, parent: &Mat4, out: &mut Vec<DrawCall>)
    requires
        wf_node(*node),
        wf_mat4(*parent),
    ensures
        final(out)@ == old(out)@ + spec_traverse(*node, *parent),
    decreases *node,
{
    let local: Mat4 = node.get_transform();
    let world: Mat4 = mat_mul(parent, &local);
    if node.index_count > 0 && node.kind == NodeKind::Mesh {
        out.push(
            DrawCall { vao_id: node.vao_id, index_count: node.index_count, transform: world },
        );
    }
    let ghost base = out@;
    proof {
        assert(node.children@.skip(0) =~= node.children@);
        if spec_drawable(*node) {
            assert(base =~= old(out)@ + seq![
                DrawCall {
                    vao_id: node.vao_id,
                    index_count: node.index_count,
                    transform: world,
                },
            ]);
        } else {
            assert(base =~= old(out)@ + Seq::<DrawCall>::empty());
        }
    }
    let mut i: usize = 0;
    while i < node.children.len()
        invariant
            0 <= i <= node.children@.len(),
            wf_node(*node),
            wf_mat4(world),
            world == spec_mat_mul(*parent, spec_node_transform(*node)),
            out@ == base + spec_traverse_children(node.children@.take(i as int), world),
            base == old(out)@ + (if spec_drawable(*node) {
                seq![
                    DrawCall {
                        vao_id: node.vao_id,
                        index_count: node.index_count,
                        transform: world,
                    },
                ]
            } else {
                Seq::<DrawCall>::empty()
            }),
        decreases node.children@.len() - i,
    {
        proof {
            lemma_wf_child(*node, i as int);
        }
        traverse(&node.children[i], &world, out);
        proof {
            lemma_traverse_children_snoc(node.children@, i as int, world);
        }
        i += 1;
    }
    proof {
        assert(node.children@.take(node.children@.len() as int) =~= node.children@);
    }
}

/// A node with no rotation and unit scale contributes exactly the
/// translation by its position, whatever its reference point: composed
/// down a tree of such nodes, world positions are the sums of the local
/// positions.
#[verifier::rlimit(100)]
pub proof fn lemma_plain_node_transform(n: Node)
    requires
        wf_node(n),
        n.rotation == (Vec3 { x: 0, y: 0, z: 0 }),
        n.scale == (Vec3 { x: FX_ONE, y: FX_ONE, z: FX_ONE }),
    ensures
        spec_node_transform(n) == spec_translation(n.position),
{
    reveal(spec_node_transform);
    lemma_rotate_around_zero(n.reference_point);
    lemma_scale_around_unit(n.reference_point);
    assert(wf_mat4(spec_identity()));
    lemma_mat_mul_identity_left(spec_identity());
    assert(wf_mat4(spec_translation(n.position)));
    lemma_mat_mul_identity_left(spec_translation(n.position));
}

/// The animation clock for the camera-following helicopter: the elapsed
/// time shifted by its phase offset.
pub open spec fn spec_heli_time(elapsed: i64) -> int {
    spec_fx_add(elapsed as int, spec_fx_mul(2 * FX_ONE as int, HELI_PHASE_FX as int))
}

/// `n_new` is `n_old` with only its rotation replaced.
pub open spec fn spec_rotated(n_old: Node, n_new: Node, rot: Vec3) -> bool {
    n_new.rotation == rot && n_new.position == n_old.position && n_new.scale == n_old.scale
        && n_new.reference_point == n_old.reference_point && n_new.vao_id == n_old.vao_id
        && n_new.index_count == n_old.index_count && n_new.kind == n_old.kind
        && n_new.children == n_old.children
}

/// `h_new` is `h_old` carried to the idle-path pose for `elapsed`: the
/// position and reference point follow the heading at the shared altitude
/// `ybase`, the attitude comes from the heading, and the two rotor
/// children spin with the elapsed time.
pub open spec fn spec_heli_animated(h_old: Node, h_new: Node, ybase: i64, elapsed: i64) -> bool {
    let hd = spec_simple_heading(spec_heli_time(elapsed));
    let spin = spec_fx_mul(elapsed as int, ROTOR_SPIN_FX as int) as i64;
    h_new.position == (Vec3 { x: hd.x, y: ybase, z: hd.z }) && h_new.reference_point == (Vec3 {
        x: hd.x,
        y: ybase,
        z: hd.z,
    }) && h_new.rotation == (Vec3 { x: hd.pitch, y: hd.yaw, z: hd.roll }) && h_new.scale
        == h_old.scale && h_new.vao_id == h_old.vao_id && h_new.index_count == h_old.index_count
        && h_new.kind == h_old.kind && h_new.children@.len() == h_old.children@.len()
        && spec_rotated(h_old.children@[0], h_new.children@[0], Vec3 { x: 0, y: spin, z: 0 })
        && spec_rotated(h_old.children@[1], h_new.children@[1], Vec3 { x: spin, y: 0, z: 0 })
        && (forall|j: int|
        2 <= j < h_old.children@.len() ==> h_new.children@[j] == h_old.children@[j])
}

/// Drive the camera-following helicopter along the idle path: set its
/// pose from the heading for the phase-shifted elapsed time, keep it at
/// the altitude of its sibling, and spin both rotors. Every other node is
/// left untouched.
pub fn helicopter_animation(elapsed: i64, root: &mut Node)
    requires
        wf_node(*old(root)),
        fx_ok(elapsed),
        old(root).children@.len() > HELICOPTER_INDEX,
        old(root).children@[HELICOPTER_INDEX as int].children@.len() >= 2,
    ensures
        final(root).children@.len() == old(root).children@.len(),
        forall|i: int|
            0 <= i < old(root).children@.len() && i != HELICOPTER_INDEX
                ==> final(root).children@[i] == old(root).children@[i],
        spec_heli_animated(
            old(root).children@[HELICOPTER_INDEX as int],
            final(root).children@[HELICOPTER_INDEX as int],
            old(root).children@[1].position.y,
            elapsed,
        ),
        final(root).position == old(root).position,
        final(root).rotation == old(root).rotation,
        final(root).scale == old(root).scale,
        final(root).reference_point == old(root).reference_point,
        final(root).vao_id == old(root).vao_id,
        final(root).index_count == old(root).index_count,
        final(root).kind == old(root).kind,
        wf_node(*final(root)),
{
    proof {
        lemma_wf_child(*root, 1);
        lemma_wf_child(*root, HELICOPTER_INDEX as int);
        lemma_wf_child(root.children@[HELICOPTER_INDEX as int], 0);
        lemma_wf_child(root.children@[HELICOPTER_INDEX as int], 1);
    }
    let ybase: i64 = root.get_child(1).position.y;
    let two_fx: i64 = 2 * FX_ONE;
    let phase: i64 = fx_mul(two_fx, HELI_PHASE_FX);
    let time: i64 = fx_add(elapsed, phase);
    let hd: Heading = simple_heading_animation(time);
    let spin: i64 = fx_mul(elapsed, ROTOR_SPIN_FX);
    let mut heli: Node = root.children.remove(HELICOPTER_INDEX);
    heli.position = Vec3 { x: hd.x, y: ybase, z: hd.z };
    heli.reference_point = Vec3 { x: hd.x, y: ybase, z: hd.z };
    heli.rotation = Vec3 { x: hd.pitch, y: hd.yaw, z: hd.roll };
    let mut main_rotor: Node = heli.children.remove(0);
    main_rotor.rotation = Vec3 { x: 0, y: spin, z: 0 };
    heli.children.insert(0, main_rotor);
    let mut tail_rotor: Node = heli.children.remove(1);
    tail_rotor.rotation = Vec3 { x: spin, y: 0, z: 0 };
    heli.children.insert(1, tail_rotor);
    proof {
        assert(heli.children@ =~= old(root).children@[HELICOPTER_INDEX as int].children@.update(
            0,
            heli.children@[0],
        ).update(1, heli.children@[1]));
        assert forall|i: int| 0 <= i < heli.children@.len() implies wf_node(
            #[trigger] heli.children@[i],
        ) by {
            if i >= 2 {
                lemma_wf_child(old(root).children@[HELICOPTER_INDEX as int], i);
            }
        }
        assert(wf_node(heli));
    }
    let ghost heli_g = heli;
    root.children.insert(HELICOPTER_INDEX, heli);
    proof {
        assert(root.children@ =~= old(root).children@.update(HELICOPTER_INDEX as int, heli_g));
        assert forall|i: int| 0 <= i < root.children@.len() implies wf_node(
            #[trigger] root.children@[i],
        ) by {
            if i != HELICOPTER_INDEX {
                lemma_wf_child(*old(root), i);
            }
        }
    }
}

/// Park the camera at a fixed offset from the followed helicopter.
pub fn handle_camera(controls: &mut Controls, root: &Node, offset: &Vec3)
    requires
        crate::controls::wf_controls(*old(controls)),
        wf_node(*root),
        root.children@.len() > HELICOPTER_INDEX,
        wf_vec3(*offset),
    ensures
        final(controls).position == spec_vec3_add(
            root.children@[HELICOPTER_INDEX as int].position,
            *offset,
        ),
        final(controls).rotation == old(controls).rotation,
        final(controls).speed == old(controls).speed,
        crate::controls::wf_controls(*final(controls)),
{
    proof {
        lemma_wf_child(*root, HELICOPTER_INDEX as int);
    }
    let heli_position: Vec3 = root.get_child(HELICOPTER_INDEX).position;
    let p: Vec3 = vec3_add(&heli_position, offset);
    controls.set_position(p);
}

/// A well-formed node has well-formed children.
pub proof fn lemma_wf_child(n: Node, i: int)
    requires
        wf_node(n),
        0 <= i < n.children@.len(),
    ensures
        wf_node(n.children@[i]),
{
}

/// Folding the traversal over one more child appends that child's calls.
#[verifier::rlimit(100)]
proof fn lemma_traverse_children_snoc(s: Seq<Node>, i: int, world: Mat4)
    requires
        0 <= i < s.len(),
    ensures
        spec_traverse_children(s.take(i + 1), world) == spec_traverse_children(s.take(i), world)
            + spec_traverse(s[i], world),
    decreases i,
{
    if i == 0 {
        assert(s.take(1).drop_first() =~= Seq::<Node>::empty());
        assert(s.take(0) =~= Seq::<Node>::empty());
        assert(s.take(1)[0] == s[0]);
        assert(spec_traverse_children(Seq::<Node>::empty(), world) == Seq::<DrawCall>::empty());
        assert(spec_traverse_children(s.take(0), world) + spec_traverse(s[0], world) =~=
            spec_traverse(s[0], world));
        assert(spec_traverse_children(s.take(1), world) =~= spec_traverse(s[0], world) + Seq::<
            DrawCall,
        >::empty());
        assert(spec_traverse(s[0], world) + Seq::<DrawCall>::empty() =~= spec_traverse(
            s[0],
            world,
        ));
    } else {
        lemma_traverse_children_snoc(s.drop_first(), i - 1, world);
        assert(s.take(i + 1).drop_first() =~= s.drop_first().take(i));
        assert(s.take(i).drop_first() =~= s.drop_first().take(i - 1));
        assert(s.take(i + 1)[0] == s[0]);
        assert(s.take(i)[0] == s[0]);
        assert(s.drop_first()[i - 1] == s[i]);
        assert(spec_traverse(s[0], world) + (spec_traverse_children(s.drop_first().take(i - 1), world)
            + spec_traverse(s[i], world)) =~= (spec_traverse(s[0], world)
            + spec_traverse_children(s.drop_first().take(i - 1), world)) + spec_traverse(
            s[i],
            world,
        ));
    }
}

/// The altitude of a freshly placed helicopter body (20 units).
pub const HELI_START_Y: i64 = 1310720;

/// The starting depth of a helicopter body (-400 units).
pub const HELI_START_Z: i64 = -26214400;

/// The Z coordinate of a helicopter body's reference point (-20 units).
pub const HELI_REF_Z: i64 = -1310720;

/// The tail rotor hinge point (0.35, 2.3, 10.40 units).
pub const TAIL_REF_X: i64 = 22938;

pub const TAIL_REF_Y: i64 = 150733;

pub const TAIL_REF_Z: i64 = 681574;

/// The chase camera's offset inside the helicopter frame (0, 10, -20).
pub const CAMERA_NODE_Y: i64 = 655360;

pub const CAMERA_NODE_Z: i64 = -1310720;

/// The chase camera's downward tilt (0.05 radians).
pub const CAMERA_NODE_PITCH: i64 = 3277;

/// `n` is a plain drawable mesh node for the given geometry, with every
/// transform field still at its defaults.
pub open spec fn spec_plain_mesh(n: Node, vao: u32, count: i32) -> bool {
    n.vao_id == vao && n.index_count == count && n.kind == NodeKind::Mesh && n.position == (Vec3 {
        x: 0,
        y: 0,
        z: 0,
    }) && n.rotation == (Vec3 { x: 0, y: 0, z: 0 }) && n.scale == (Vec3 {
        x: FX_ONE,
        y: FX_ONE,
        z: FX_ONE,
    }) && n.reference_point == (Vec3 { x: 0, y: 0, z: 0 }) && n.children@.len() == 0
}

/// `n` is a helicopter body with its three part children (main rotor,
/// tail rotor with its hinge reference point, door).
pub open spec fn spec_heli_body(
    n: Node,
    body_vao: u32,
    body_count: i32,
    main_vao: u32,
    main_count: i32,
    tail_vao: u32,
    tail_count: i32,
    door_vao: u32,
    door_count: i32,
) -> bool {
    n.vao_id == body_vao && n.index_count == body_count && n.kind == NodeKind::Mesh && n.position
        == (Vec3 { x: 0, y: HELI_START_Y, z: HELI_START_Z }) && n.reference_point == (Vec3 {
        x: 0,
        y: HELI_START_Y,
        z: HELI_REF_Z,
    }) && n.rotation == (Vec3 { x: 0, y: 0, z: 0 }) && n.scale == (Vec3 {
        x: FX_ONE,
        y: FX_ONE,
        z: FX_ONE,
    }) && n.children@.len() >= 3 && spec_plain_mesh(n.children@[0], main_vao, main_count)
        && n.children@[1].vao_id == tail_vao && n.children@[1].index_count == tail_count
        && n.children@[1].kind == NodeKind::Mesh && n.children@[1].reference_point == (Vec3 {
        x: TAIL_REF_X,
        y: TAIL_REF_Y,
        z: TAIL_REF_Z,
    }) && n.children@[1].rotation == (Vec3 { x: 0, y: 0, z: 0 }) && spec_plain_mesh(
        n.children@[2],
        door_vao,
        door_count,
    )
}

/// Build the demo scene from already-uploaded geometry: the terrain, then
/// `HELI_COUNT` helicopters each with main rotor, tail rotor and door
/// children, and a chase camera node under the first helicopter.
pub fn build_scene(
    terrain_vao: u32,
    terrain_count: i32,
    body_vao: u32,
    body_count: i32,
    main_vao: u32,
    main_count: i32,
    tail_vao: u32,
    tail_count: i32,
    door_vao: u32,
    door_count: i32,
) -> (r: Node)
    ensures
        wf_node(r),
        r.kind == NodeKind::Group,
        r.children@.len() == 1 + HELI_COUNT,
        spec_plain_mesh(r.children@[0], terrain_vao, terrain_count),
        spec_heli_body(
            r.children@[1],
            body_vao,
            body_count,
            main_vao,
            main_count,
            tail_vao,
            tail_count,
            door_vao,
            door_count,
        ),
        spec_heli_body(
            r.children@[2],
            body_vao,
            body_count,
            main_vao,
            main_count,
            tail_vao,
            tail_count,
            door_vao,
            door_count,
        ),
        r.children@[1].children@.len() == 4,
        r.children@[2].children@.len() == 3,
        r.children@[1].children@[3].kind == NodeKind::Camera,
        r.children@[1].children@[3].position == (Vec3 {
            x: 0,
            y: CAMERA_NODE_Y,
            z: CAMERA_NODE_Z,
        }),
        r.children@[1].children@[3].rotation == (Vec3 { x: CAMERA_NODE_PITCH, y: 0, z: 0 }),
{
    let mut root: Node = Node::new();
    root.add_child(Node::from_vao(terrain_vao, terrain_count));
    let mut heli_index: u32 = 0;
    while heli_index < HELI_COUNT
        invariant
            0 <= heli_index <= HELI_COUNT,
            wf_node(root),
            root.kind == NodeKind::Group,
            root.children@.len() == 1 + heli_index,
            spec_plain_mesh(root.children@[0], terrain_vao, terrain_count),
            forall|i: int|
                1 <= i <= heli_index ==> spec_heli_body(
                    #[trigger] root.children@[i],
                    body_vao,
                    body_count,
                    main_vao,
                    main_count,
                    tail_vao,
                    tail_count,
                    door_vao,
                    door_count,
                ) && root.children@[i].children@.len() == 3,
        decreases HELI_COUNT - heli_index,
    {
        let mut body: Node = Node::from_vao(body_vao, body_count);
        body.position = Vec3 { x: 0, y: HELI_START_Y, z: HELI_START_Z };
        body.reference_point = Vec3 { x: 0, y: HELI_START_Y, z: HELI_REF_Z };
        let main_rotor: Node = Node::from_vao(main_vao, main_count);
        let ghost main_g = main_rotor;
        body.add_child(main_rotor);
        let mut tail: Node = Node::from_vao(tail_vao, tail_count);
        tail.reference_point = Vec3 { x: TAIL_REF_X, y: TAIL_REF_Y, z: TAIL_REF_Z };
        let ghost tail_g = tail;
        body.add_child(tail);
        let door: Node = Node::from_vao(door_vao, door_count);
        let ghost door_g = door;
        body.add_child(door);
        proof {
            assert(body.children@[0] == main_g);
            assert(body.children@[1] == tail_g);
            assert(body.children@[2] == door_g);
            assert forall|i: int| 0 <= i < body.children@.len() implies wf_node(
                #[trigger] body.children@[i],
            ) by {
                assert(wf_node(main_g));
                assert(wf_node(tail_g));
                assert(wf_node(door_g));
            }
            assert(wf_node(body));
        }
        root.add_child(body);
        heli_index = heli_index + 1;
    }
    let mut camera: Node = Node::new_camera();
    camera.position = Vec3 { x: 0, y: CAMERA_NODE_Y, z: CAMERA_NODE_Z };
    camera.rotation = Vec3 { x: CAMERA_NODE_PITCH, y: 0, z: 0 };
    let ghost pre = root.children@;
    let mut first_heli: Node = root.children.remove(1);
    proof {
        lemma_wf_child_of_seq(pre, 1);
    }
    first_heli.add_child(camera);
    proof {
        assert forall|i: int| 0 <= i < first_heli.children@.len() implies wf_node(
            #[trigger] first_heli.children@[i],
        ) by {
            if i < first_heli.children@.len() - 1 {
                lemma_wf_child(pre[1], i);
            }
        }
        assert(wf_node(first_heli));
    }
    let ghost first_heli_g = first_heli;
    root.children.insert(1, first_heli);
    proof {
        assert(root.children@ =~= pre.update(1, first_heli_g));
    }
    root
}

/// An element of a well-formed child sequence is well-formed.
pub proof fn lemma_wf_child_of_seq(s: Seq<Node>, i: int)
    requires
        0 <= i < s.len(),
        forall|j: int| 0 <= j < s.len() ==> wf_node(#[trigger] s[j]),
    ensures
        wf_node(s[i]),
{
}

} // verus!
