//! A verified model of a small physics test scene: body and collider
//! entities are spawned carrying marker tags, and a keyed conversion later
//! replaces the markers with physics components.
//!
//! Physical coefficients and coordinates are held as fixed-point integers in
//! thousandths (`7874` stands for a density of 7.874).

pub mod model;
pub mod scene;
pub mod convert;
pub mod ancestry;
pub mod dump;

pub use model::{
    MarkerParent, MarkerChild, BodyKind, Damping, Position, Rgb, Cuboid, EntityRecord, World,
};
pub use scene::{
    setup_scene, setup_proc, setup_static, startup, SpawnedPair, DO_WORKAROUND,
    lemma_startup_markers,
};
pub use convert::{
    LINEAR_DAMPING, ANGULAR_DAMPING, DEFAULT_DENSITY, DEFAULT_RESTITUTION, DEFAULT_FRICTION,
    Conversion, convert_proc, lemma_conversion_is_idempotent, lemma_converted_parent,
    lemma_converted_child,
};
pub use ancestry::{
    has_rb_parent, debug_rbs, DebugReport, ColliderAncestry, lemma_orphan_has_no_body_parent,
    lemma_conversion_keeps_body_parents,
};
pub use dump::{
    inspect, EntityComponents, DumpLine, lemma_one_header_per_entity, lemma_dump_is_blocks,
    lemma_blocks_ignore_order,
};
