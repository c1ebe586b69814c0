use vstd::prelude::*;
use crate::model::{BodyKind, Damping, Position, Rgb, Cuboid, EntityRecord, World};
use crate::convert::{
    LINEAR_DAMPING, ANGULAR_DAMPING, DEFAULT_DENSITY, DEFAULT_RESTITUTION, DEFAULT_FRICTION,
};

verus! {

/// Gives the marked body a fixed rigid body before conversion. Attaching a
/// dynamic body only to an entity that later gains collider children
/// misbehaves in the physics engine; starting from a fixed body avoids it.
pub const DO_WORKAROUND: bool = true;

/// The two entities of a body/collider pair, by index.
#[derive(Clone, Copy, Debug, PartialEq, Eq, Structural)]
pub struct SpawnedPair {
    pub parent: usize,
    pub child: usize,
}

pub open spec fn camera_record() -> EntityRecord {
    EntityRecord {
        transform: Some(Position { x: 0, y: 15000, z: 15000 }),
        camera: true,
        ..EntityRecord::empty_spec()
    }
}

pub open spec fn proc_parent_record(workaround: bool) -> EntityRecord {
    EntityRecord {
        transform: Some(Position { x: 1000, y: 2000, z: 0 }),
        visible: true,
        marker_parent: true,
        rigid_body: if workaround { Some(BodyKind::Fixed) } else { None },
        ..EntityRecord::empty_spec()
    }
}

pub open spec fn proc_child_record(parent: usize) -> EntityRecord {
    EntityRecord {
        transform: Some(Position { x: 0, y: 0, z: 0 }),
        mesh: Some(Rgb { r: 1000, g: 300, b: 300 }),
        collider: Some(Cuboid { hx: 500, hy: 500, hz: 500 }),
        marker_child: true,
        parent: Some(parent),
        ..EntityRecord::empty_spec()
    }
}

pub open spec fn static_parent_record() -> EntityRecord {
    EntityRecord {
        transform: Some(Position { x: -1000i64, y: 2000, z: 0 }),
        visible: true,
        rigid_body: Some(BodyKind::Dynamic),
        damping: Some(Damping { linear: 50, angular: 50 }),
        ..EntityRecord::empty_spec()
    }
}

pub open spec fn static_child_record(parent: usize) -> EntityRecord {
    EntityRecord {
        transform: Some(Position { x: 0, y: 0, z: 0 }),
        mesh: Some(Rgb { r: 300, g: 1000, b: 300 }),
        collider: Some(Cuboid { hx: 500, hy: 500, hz: 500 }),
        restitution: Some(700),
        friction: Some(0),
        density: Some(7874),
        parent: Some(parent),
        ..EntityRecord::empty_spec()
    }
}

/// No entity of `s` carries a marker.
pub open spec fn unmarked(s: Seq<EntityRecord>) -> bool {
    forall|k: int|
        0 <= k < s.len() ==> !(#[trigger] s[k]).marker_parent && !s[k].marker_child
}

/// `after` extends `before`, and exactly the entities marked in `before` are
/// marked in `after`, with the same markers.
pub open spec fn marks_kept(before: Seq<EntityRecord>, after: Seq<EntityRecord>) -> bool {
    forall|k: int|
        0 <= k < after.len() ==> {
            &&& (#[trigger] after[k]).marker_parent <==> (k < before.len()
                && before[k].marker_parent)
            &&& after[k].marker_child <==> (k < before.len() && before[k].marker_child)
        }
}

/// In `s`, entity `c` is the one and only child of entity `p`.
pub open spec fn only_child(s: Seq<EntityRecord>, p: usize, c: usize) -> bool {
    forall|k: int| 0 <= k < s.len() ==> ((#[trigger] s[k]).parent == Some(p) <==> k == c)
}

/// Spawns the camera, above and behind the origin and looking at it.
pub fn setup_scene(world: &mut World) -> (e: usize)
    requires
        old(world)@.len() < usize::MAX,
    ensures
        e == old(world)@.len(),
        final(world)@ == old(world)@.push(camera_record()),
        final(world)@[e as int].rigid_body is None && final(world)@[e as int].collider is None,
        marks_kept(old(world)@, final(world)@),
        old(world).wf() ==> final(world).wf(),
{
    let mut r = EntityRecord::empty();
    r.transform = Some(Position { x: 0, y: 15000, z: 15000 });
    r.camera = true;
    world.spawn(r)
}

/// Spawns the marked pair: a body tagged `MarkerParent` (with a fixed rigid
/// body when `workaround` is set) and its one cube collider child tagged
/// `MarkerChild`.
pub fn setup_proc(world: &mut World, workaround: bool) -> (p: SpawnedPair)
    requires
        old(world)@.len() + 2 <= usize::MAX,
    ensures
        p.parent == old(world)@.len(),
        p.child == old(world)@.len() + 1,
        final(world)@ == old(world)@.push(proc_parent_record(workaround)).push(
            proc_child_record(p.parent),
        ),
        final(world)@[p.parent as int].transform is Some,
        final(world)@[p.child as int].transform is Some,
        final(world)@[p.child as int].parent == Some(p.parent),
        unmarked(old(world)@) ==> forall|k: int|
            0 <= k < final(world)@.len() ==> {
                &&& (#[trigger] final(world)@[k]).marker_parent <==> k == p.parent
                &&& final(world)@[k].marker_child <==> k == p.child
            },
        old(world).wf() ==> final(world).wf() && only_child(final(world)@, p.parent, p.child),
{
    let mut r = EntityRecord::empty();
    r.transform = Some(Position { x: 1000, y: 2000, z: 0 });
    r.visible = true;
    r.marker_parent = true;
    if workaround {
        r.rigid_body = Some(BodyKind::Fixed);
    }
    let parent = world.spawn(r);

    let mut c = EntityRecord::empty();
    c.transform = Some(Position { x: 0, y: 0, z: 0 });
    c.mesh = Some(Rgb { r: 1000, g: 300, b: 300 });
    c.collider = Some(Cuboid { hx: 500, hy: 500, hz: 500 });
    c.marker_child = true;
    c.parent = Some(parent);
    let child = world.spawn(c);
    SpawnedPair { parent, child }
}

/// Spawns the reference pair, physics-ready from the start: a dynamic body
/// with damping and its one cube collider child with its material.
pub fn setup_static(world: &mut World) -> (p: SpawnedPair)
    requires
        old(world)@.len() + 2 <= usize::MAX,
    ensures
        p.parent == old(world)@.len(),
        p.child == old(world)@.len() + 1,
        final(world)@ == old(world)@.push(static_parent_record()).push(
            static_child_record(p.parent),
        ),
        final(world)@[p.child as int].parent == Some(p.parent),
        marks_kept(old(world)@, final(world)@),
        old(world).wf() ==> final(world).wf() && only_child(final(world)@, p.parent, p.child),
{
    let mut r = EntityRecord::empty();
    r.transform = Some(Position { x: -1000, y: 2000, z: 0 });
    r.visible = true;
    r.rigid_body = Some(BodyKind::Dynamic);
    r.damping = Some(Damping { linear: LINEAR_DAMPING, angular: ANGULAR_DAMPING });
    let parent = world.spawn(r);

    let mut c = EntityRecord::empty();
    c.transform = Some(Position { x: 0, y: 0, z: 0 });
    c.mesh = Some(Rgb { r: 300, g: 1000, b: 300 });
    c.collider = Some(Cuboid { hx: 500, hy: 500, hz: 500 });
    c.restitution = Some(DEFAULT_RESTITUTION);
    c.friction = Some(DEFAULT_FRICTION);
    c.density = Some(DEFAULT_DENSITY);
    c.parent = Some(parent);
    let child = world.spawn(c);
    SpawnedPair { parent, child }
}

/// The startup scene: the camera (entity 0), the marked pair (1 and 2) and the
/// reference pair (3 and 4).
pub open spec fn startup_scene(workaround: bool) -> Seq<EntityRecord> {
    seq![
        camera_record(),
        proc_parent_record(workaround),
        proc_child_record(1),
        static_parent_record(),
        static_child_record(3),
    ]
}

/// Runs the three startup steps on an empty world.
pub fn startup(workaround: bool) -> (w: World)
    ensures
        w@ == startup_scene(workaround),
        w.wf(),
{
    let mut w = World::new();
    setup_scene(&mut w);
    setup_proc(&mut w, workaround);
    setup_static(&mut w);
    assert(w@ =~= startup_scene(workaround));
    w
}

/// After startup exactly one entity carries `MarkerParent` and exactly one
/// carries `MarkerChild`; both have a transform, the marked collider is a
/// child of the marked body, and the reference pair carries no marker.
pub proof fn lemma_startup_markers(workaround: bool)
    ensures
        forall|k: int|
            0 <= k < startup_scene(workaround).len() ==> (
            #[trigger] startup_scene(workaround)[k].marker_parent <==> k == 1),
        forall|k: int|
            0 <= k < startup_scene(workaround).len() ==> (
            #[trigger] startup_scene(workaround)[k].marker_child <==> k == 2),
        startup_scene(workaround)[1].transform is Some,
        startup_scene(workaround)[2].transform is Some,
        startup_scene(workaround)[2].parent == Some(1usize),
        startup_scene(workaround)[4].parent == Some(3usize),
        !startup_scene(workaround)[3].marker_parent && !startup_scene(workaround)[3].marker_child,
        !startup_scene(workaround)[4].marker_parent && !startup_scene(workaround)[4].marker_child,
{
}

} // verus!
