use vstd::prelude::*;
use crate::model::{BodyKind, Damping, EntityRecord, World};

verus! {

/// Linear damping given to a converted body, in thousandths.
pub const LINEAR_DAMPING: u32 = 50;
/// Angular damping given to a converted body, in thousandths.
pub const ANGULAR_DAMPING: u32 = 50;
/// Density given to a converted collider, in thousandths (about steel's).
pub const DEFAULT_DENSITY: u32 = 7874;
/// Restitution given to a converted collider, in thousandths.
pub const DEFAULT_RESTITUTION: u32 = 700;
/// Friction given to a converted collider, in thousandths.
pub const DEFAULT_FRICTION: u32 = 0;

/// A body waiting for conversion: tagged `MarkerParent`, with a transform,
/// and not tagged `MarkerChild`.
pub open spec fn is_pending_parent(r: EntityRecord) -> bool {
    r.marker_parent && r.transform is Some && !r.marker_child
}

/// A collider waiting for conversion: tagged `MarkerChild`, with a transform,
/// and not tagged `MarkerParent`.
pub open spec fn is_pending_child(r: EntityRecord) -> bool {
    r.marker_child && r.transform is Some && !r.marker_parent
}

/// What conversion makes of one entity: a pending body loses its marker and
/// becomes dynamic with the default damping; a pending collider loses its
/// marker and gets the default density, restitution and friction; any other
/// entity is left as it is.
pub open spec fn converted(r: EntityRecord) -> EntityRecord {
    if is_pending_parent(r) {
        EntityRecord {
            marker_parent: false,
            rigid_body: Some(BodyKind::Dynamic),
            damping: Some(Damping { linear: 50, angular: 50 }),
            ..r
        }
    } else if is_pending_child(r) {
        EntityRecord {
            marker_child: false,
            density: Some(7874),
            restitution: Some(700),
            friction: Some(0),
            ..r
        }
    } else {
        r
    }
}

/// The world after conversion of every entity.
pub open spec fn converted_world(w: Seq<EntityRecord>) -> Seq<EntityRecord> {
    w.map_values(|r: EntityRecord| converted(r))
}

/// `v` lists, in increasing order, exactly the indices of `w` whose entity
/// satisfies `p`.
pub open spec fn lists_matching(
    v: Seq<usize>,
    w: Seq<EntityRecord>,
    p: spec_fn(EntityRecord) -> bool,
) -> bool {
    &&& forall|i: int, j: int| 0 <= i < j < v.len() ==> v[i] < v[j]
    &&& forall|k: usize| v.contains(k) <==> (k < w.len() && p(w[k as int]))
}

/// The entities that one conversion changed, by index.
pub struct Conversion {
    /// The bodies that were converted.
    pub parents: Vec<usize>,
    /// The colliders that were converted.
    pub children: Vec<usize>,
}

/// Converts every pending body and collider of `world` when the conversion
/// key was just pressed, and reports which; does nothing otherwise.
pub fn convert_proc(just_pressed: bool, world: &mut World) -> (r: Option<Conversion>)
    ensures
        !just_pressed ==> r is None && final(world)@ == old(world)@,
        just_pressed ==> {
            &&& r is Some
            &&& final(world)@ == converted_world(old(world)@)
            &&& lists_matching(r->0.parents@, old(world)@, |e: EntityRecord| is_pending_parent(e))
            &&& lists_matching(r->0.children@, old(world)@, |e: EntityRecord| is_pending_child(e))
        },
{
    if !just_pressed {
        return None;
    }
    let ghost w0 = world@;
    let mut parents: Vec<usize> = Vec::new();
    let mut children: Vec<usize> = Vec::new();
    let n = world.entities.len();
    let mut i: usize = 0;
    while i < n
        invariant
            n == w0.len(),
            world@.len() == n,
            0 <= i <= n,
            forall|k: int| 0 <= k < i ==> world@[k] == converted(w0[k]),
            forall|k: int| i <= k < n ==> world@[k] == w0[k],
            forall|a: int, b: int| 0 <= a < b < parents@.len() ==> parents@[a] < parents@[b],
            forall|a: int| 0 <= a < parents@.len() ==> parents@[a] < i,
            forall|k: usize| parents@.contains(k) <==> (k < i && is_pending_parent(w0[k as int])),
            forall|a: int, b: int| 0 <= a < b < children@.len() ==> children@[a] < children@[b],
            forall|a: int| 0 <= a < children@.len() ==> children@[a] < i,
            forall|k: usize| children@.contains(k) <==> (k < i && is_pending_child(w0[k as int])),
        decreases n - i,
    {
        let ghost p0 = parents@;
        let ghost c0 = children@;
        let r = world.entities[i];
        if r.marker_parent && r.transform.is_some() && !r.marker_child {
            let mut c = r;
            c.marker_parent = false;
            c.rigid_body = Some(BodyKind::Dynamic);
            c.damping = Some(Damping { linear: LINEAR_DAMPING, angular: ANGULAR_DAMPING });
            world.entities[i] = c;
            parents.push(i);
        } else if r.marker_child && r.transform.is_some() && !r.marker_parent {
            let mut c = r;
            c.marker_child = false;
            c.density = Some(DEFAULT_DENSITY);
            c.restitution = Some(DEFAULT_RESTITUTION);
            c.friction = Some(DEFAULT_FRICTION);
            world.entities[i] = c;
            children.push(i);
        }
        assert(world@[i as int] == converted(w0[i as int]));
        proof {
            lemma_push_contains(p0, parents@, i);
            lemma_push_contains(c0, children@, i);
        }
        i += 1;
    }
    assert(world@ =~= converted_world(w0));
    Some(Conversion { parents, children })
}

pub(crate) proof fn lemma_push_contains(before: Seq<usize>, after: Seq<usize>, i: usize)
    requires
        after == before || after == before.push(i),
    ensures
        forall|k: usize| #[trigger]
            after.contains(k) <==> before.contains(k) || (k == i && after != before),
{
    assert forall|k: usize| #[trigger]
        after.contains(k) <==> before.contains(k) || (k == i && after != before) by {
        if after != before {
            if k == i {
                assert(after[before.len() as int] == i);
            }
            if before.contains(k) {
                let j = choose|j: int| 0 <= j < before.len() && before[j] == k;
                assert(after[j] == k);
            }
            if after.contains(k) && k != i {
                let j = choose|j: int| 0 <= j < after.len() && after[j] == k;
                assert(before[j] == k);
            }
        }
    }
}

/// Converting twice gives the same world as converting once, and after one
/// conversion no entity is pending, so a second conversion reports none.
pub proof fn lemma_conversion_is_idempotent(w: Seq<EntityRecord>)
    ensures
        converted_world(converted_world(w)) == converted_world(w),
        forall|k: int|
            0 <= k < w.len() ==> !is_pending_parent(#[trigger] converted_world(w)[k])
                && !is_pending_child(converted_world(w)[k]),
{
    assert(converted_world(converted_world(w)) =~= converted_world(w));
}

/// A converted body no longer carries `MarkerParent` and is a dynamic rigid
/// body with the default linear and angular damping.
pub proof fn lemma_converted_parent(r: EntityRecord)
    requires
        is_pending_parent(r),
    ensures
        !converted(r).marker_parent,
        converted(r).rigid_body == Some(BodyKind::Dynamic),
        converted(r).damping == Some(Damping { linear: LINEAR_DAMPING, angular: ANGULAR_DAMPING }),
{
}

/// A converted collider no longer carries `MarkerChild` and has the default
/// density, restitution and friction.
pub proof fn lemma_converted_child(r: EntityRecord)
    requires
        is_pending_child(r),
    ensures
        !converted(r).marker_child,
        converted(r).density == Some(DEFAULT_DENSITY),
        converted(r).restitution == Some(DEFAULT_RESTITUTION),
        converted(r).friction == Some(DEFAULT_FRICTION),
{
}

} // verus!
