use vstd::prelude::*;
use crate::model::{EntityRecord, World};
use crate::convert::{converted, converted_world, lists_matching, lemma_push_contains};

verus! {

/// An entity seen as a rigid body: it has a rigid body and a transform.
pub open spec fn is_body(r: EntityRecord) -> bool {
    r.rigid_body is Some && r.transform is Some
}

/// A collider whose ancestry is reported: it has a transform and a collider,
/// and no rigid body of its own. One without a parent is reported too.
pub open spec fn is_loose_collider(r: EntityRecord) -> bool {
    r.transform is Some && r.collider is Some && r.rigid_body is None
}

/// Entity `e` has a parent, and that parent is a live rigid body.
pub open spec fn parent_has_body(w: Seq<EntityRecord>, e: int) -> bool {
    match w[e].parent {
        Some(p) => p < w.len() && is_body(w[p as int]),
        None => false,
    }
}

/// Whether the parent of entity `e` is a rigid body. An entity without a
/// parent, or whose parent is not in the world, gets `false`.
pub fn has_rb_parent(world: &World, e: usize) -> (r: bool)
    requires
        e < world@.len(),
    ensures
        r == parent_has_body(world@, e as int),
{
    match world.entities[e].parent {
        Some(p) => {
            if p < world.entities.len() {
                let q = world.entities[p];
                q.rigid_body.is_some() && q.transform.is_some()
            } else {
                false
            }
        },
        None => false,
    }
}

/// A collider of the debug report and whether its parent is a rigid body.
#[derive(Clone, Copy, Debug, PartialEq, Eq, Structural)]
pub struct ColliderAncestry {
    pub entity: usize,
    pub has_rb_parent: bool,
}

/// What the per-frame debug view shows: every rigid body (drawn with an
/// arrow) and every collider without a body of its own.
pub struct DebugReport {
    pub bodies: Vec<usize>,
    pub colliders: Vec<ColliderAncestry>,
}

pub open spec fn collider_entities(v: Seq<ColliderAncestry>) -> Seq<usize> {
    v.map_values(|c: ColliderAncestry| c.entity)
}

/// Lists the rigid bodies, and each collider without a body of its own
/// with the answer of the ancestry check for it (`false` where it has no
/// parent).
pub fn debug_rbs(world: &World) -> (r: DebugReport)
    ensures
        lists_matching(r.bodies@, world@, |e: EntityRecord| is_body(e)),
        lists_matching(collider_entities(r.colliders@), world@, |e: EntityRecord| is_loose_collider(e)),
        forall|i: int|
            0 <= i < r.colliders@.len() ==> #[trigger] r.colliders@[i].has_rb_parent
                == parent_has_body(world@, r.colliders@[i].entity as int),
{
    let mut bodies: Vec<usize> = Vec::new();
    let mut colliders: Vec<ColliderAncestry> = Vec::new();
    let n = world.entities.len();
    let mut i: usize = 0;
    while i < n
        invariant
            n == world@.len(),
            0 <= i <= n,
            forall|a: int, b: int| 0 <= a < b < bodies@.len() ==> bodies@[a] < bodies@[b],
            forall|a: int| 0 <= a < bodies@.len() ==> bodies@[a] < i,
            forall|k: usize| bodies@.contains(k) <==> (k < i && is_body(world@[k as int])),
            forall|a: int, b: int|
                0 <= a < b < colliders@.len() ==> colliders@[a].entity < colliders@[b].entity,
            forall|a: int| 0 <= a < colliders@.len() ==> colliders@[a].entity < i,
            forall|k: usize|
                collider_entities(colliders@).contains(k) <==> (k < i && is_loose_collider(
                    world@[k as int],
                )),
            forall|a: int|
                0 <= a < colliders@.len() ==> #[trigger] colliders@[a].has_rb_parent
                    == parent_has_body(world@, colliders@[a].entity as int),
        decreases n - i,
    {
        let ghost b0 = bodies@;
        let ghost c0 = collider_entities(colliders@);
        let r = world.entities[i];
        if r.rigid_body.is_some() && r.transform.is_some() {
            bodies.push(i);
        }
        if r.transform.is_some() && r.collider.is_some() && r.rigid_body.is_none() {
            let has = has_rb_parent(world, i);
            colliders.push(ColliderAncestry { entity: i, has_rb_parent: has });
        }
        proof {
            lemma_push_contains(b0, bodies@, i);
            assert(collider_entities(colliders@) == c0 || collider_entities(colliders@) == c0.push(
                i,
            )) by {
                if collider_entities(colliders@) != c0 {
                    assert(collider_entities(colliders@) =~= c0.push(i));
                }
            }
            lemma_push_contains(c0, collider_entities(colliders@), i);
        }
        i += 1;
    }
    proof {
        let ids = collider_entities(colliders@);
        assert forall|a: int, b: int| 0 <= a < b < ids.len() implies ids[a] < ids[b] by {
            assert(ids[a] == colliders@[a].entity && ids[b] == colliders@[b].entity);
        }
    }
    DebugReport { bodies, colliders }
}

/// An entity with no parent is never reported as having a rigid-body parent.
pub proof fn lemma_orphan_has_no_body_parent(w: Seq<EntityRecord>, e: int)
    requires
        0 <= e < w.len(),
        w[e].parent is None,
    ensures
        !parent_has_body(w, e),
{
}

/// Conversion never takes a rigid-body parent away: an entity whose parent is
/// a rigid body still has one after conversion.
pub proof fn lemma_conversion_keeps_body_parents(w: Seq<EntityRecord>, e: int)
    requires
        0 <= e < w.len(),
        parent_has_body(w, e),
    ensures
        parent_has_body(converted_world(w), e),
{
    let p = w[e].parent->0;
    assert(converted_world(w)[e] == converted(w[e]));
    assert(converted_world(w)[p as int] == converted(w[p as int]));
}

} // verus!
