use vstd::prelude::*;

verus! {

/// Tag carried by a body entity that has not yet been made physics-active.
#[derive(Clone, Copy, Debug, PartialEq, Eq, Structural)]
pub struct MarkerParent;

/// Tag carried by a collider entity that has not yet received its material.
#[derive(Clone, Copy, Debug, PartialEq, Eq, Structural)]
pub struct MarkerChild;

/// How the physics engine treats a rigid body.
#[derive(Clone, Copy, Debug, PartialEq, Eq, Structural)]
pub enum BodyKind {
    Dynamic,
    Fixed,
    KinematicPositionBased,
    KinematicVelocityBased,
}

/// Linear and angular damping, in thousandths.
#[derive(Clone, Copy, Debug, PartialEq, Eq, Structural)]
pub struct Damping {
    pub linear: u32,
    pub angular: u32,
}

/// A translation, each coordinate in thousandths of a unit.
#[derive(Clone, Copy, Debug, PartialEq, Eq, Structural)]
pub struct Position {
    pub x: i64,
    pub y: i64,
    pub z: i64,
}

/// A colour, each channel in thousandths.
#[derive(Clone, Copy, Debug, PartialEq, Eq, Structural)]
pub struct Rgb {
    pub r: u32,
    pub g: u32,
    pub b: u32,
}

/// A box collider given by its half extents, in thousandths of a unit.
#[derive(Clone, Copy, Debug, PartialEq, Eq, Structural)]
pub struct Cuboid {
    pub hx: u32,
    pub hy: u32,
    pub hz: u32,
}

/// The components attached to one entity. `None` or `false` means absent.
#[derive(Clone, Copy, Debug, PartialEq, Eq, Structural)]
pub struct EntityRecord {
    /// Spatial transform (its translation).
    pub transform: Option<Position>,
    /// Inherited visibility flag.
    pub visible: bool,
    /// A 3D camera looking at the origin.
    pub camera: bool,
    /// A renderable unit cube with the given colour.
    pub mesh: Option<Rgb>,
    pub marker_parent: bool,
    pub marker_child: bool,
    pub rigid_body: Option<BodyKind>,
    pub damping: Option<Damping>,
    pub collider: Option<Cuboid>,
    /// Mass density, in thousandths.
    pub density: Option<u32>,
    /// Restitution coefficient, in thousandths.
    pub restitution: Option<u32>,
    /// Friction coefficient, in thousandths.
    pub friction: Option<u32>,
    /// The entity's parent in the scene graph, as an index into the world.
    pub parent: Option<usize>,
}

impl EntityRecord {
    pub open spec fn empty_spec() -> EntityRecord {
        EntityRecord {
            transform: None,
            visible: false,
            camera: false,
            mesh: None,
            marker_parent: false,
            marker_child: false,
            rigid_body: None,
            damping: None,
            collider: None,
            density: None,
            restitution: None,
            friction: None,
            parent: None,
        }
    }

    /// A record with no component at all.
    pub fn empty() -> (r: EntityRecord)
        ensures
            r == EntityRecord::empty_spec(),
    {
        EntityRecord {
            transform: None,
            visible: false,
            camera: false,
            mesh: None,
            marker_parent: false,
            marker_child: false,
            rigid_body: None,
            damping: None,
            collider: None,
            density: None,
            restitution: None,
            friction: None,
            parent: None,
        }
    }
}

/// Every parent index names an entity of the scene.
pub open spec fn parents_in_range(s: Seq<EntityRecord>) -> bool {
    forall|k: int|
        0 <= k < s.len() && (#[trigger] s[k]).parent is Some ==> s[k].parent->0 < s.len()
}

/// All entities of a scene; an entity is its index in `entities`.
pub struct World {
    pub entities: Vec<EntityRecord>,
}

impl View for World {
    type V = Seq<EntityRecord>;

    open spec fn view(&self) -> Seq<EntityRecord> {
        self.entities@
    }
}

impl World {
    /// Well-formed: every parent link points into the world.
    pub open spec fn wf(&self) -> bool {
        parents_in_range(self@)
    }

    /// An empty world.
    pub fn new() -> (w: World)
        ensures
            w@ == Seq::<EntityRecord>::empty(),
            w.wf(),
    {
        World { entities: Vec::new() }
    }

    /// A world holding the given records, in order.
    pub fn from_records(entities: Vec<EntityRecord>) -> (w: World)
        ensures
            w@ == entities@,
    {
        World { entities }
    }

    /// Number of entities.
    pub fn len(&self) -> (n: usize)
        ensures
            n == self@.len(),
    {
        self.entities.len()
    }

    /// The components of entity `e`.
    pub fn get(&self, e: usize) -> (r: EntityRecord)
        requires
            e < self@.len(),
        ensures
            r == self@[e as int],
    {
        self.entities[e]
    }

    /// Adds an entity with the given components and returns it.
    pub fn spawn(&mut self, r: EntityRecord) -> (e: usize)
        requires
            old(self)@.len() < usize::MAX,
        ensures
            e == old(self)@.len(),
            final(self)@ == old(self)@.push(r),
    {
        let e = self.entities.len();
        self.entities.push(r);
        e
    }
}

} // verus!
