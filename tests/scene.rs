use rb_convert::{
    convert_proc, debug_rbs, has_rb_parent, inspect, setup_proc, setup_scene, setup_static,
    startup, BodyKind, ColliderAncestry, Cuboid, Damping, DumpLine, EntityComponents,
    EntityRecord, Position, World, ANGULAR_DAMPING, DEFAULT_DENSITY, DEFAULT_FRICTION,
    DEFAULT_RESTITUTION, DO_WORKAROUND, LINEAR_DAMPING,
};

fn records(w: &World) -> Vec<EntityRecord> {
    (0..w.len()).map(|e| w.get(e)).collect()
}

#[test]
fn startup_has_one_marked_pair() {
    let w = startup(DO_WORKAROUND);
    assert_eq!(w.len(), 5);
    let parents: Vec<usize> = (0..w.len()).filter(|&e| w.get(e).marker_parent).collect();
    let children: Vec<usize> = (0..w.len()).filter(|&e| w.get(e).marker_child).collect();
    assert_eq!(parents, vec![1]);
    assert_eq!(children, vec![2]);
    assert!(w.get(1).transform.is_some());
    assert!(w.get(2).transform.is_some());
    assert_eq!(w.get(2).parent, Some(1));
    assert_eq!(w.get(4).parent, Some(3));
    assert!(!w.get(3).marker_parent && !w.get(3).marker_child);
    assert!(!w.get(4).marker_parent && !w.get(4).marker_child);
}

#[test]
fn startup_camera_and_positions() {
    let w = startup(true);
    assert!(w.get(0).camera);
    assert_eq!(w.get(0).transform, Some(Position { x: 0, y: 15000, z: 15000 }));
    assert_eq!(w.get(1).transform, Some(Position { x: 1000, y: 2000, z: 0 }));
    assert_eq!(w.get(3).transform, Some(Position { x: -1000, y: 2000, z: 0 }));
    assert_eq!(w.get(2).collider, Some(Cuboid { hx: 500, hy: 500, hz: 500 }));
}

#[test]
fn workaround_gives_marked_body_a_fixed_body() {
    let with = startup(true);
    assert_eq!(with.get(1).rigid_body, Some(BodyKind::Fixed));
    let without = startup(false);
    assert_eq!(without.get(1).rigid_body, None);
}

#[test]
fn setup_steps_append_entities() {
    let mut w = World::new();
    assert_eq!(setup_scene(&mut w), 0);
    let p = setup_proc(&mut w, false);
    assert_eq!((p.parent, p.child), (1, 2));
    let s = setup_static(&mut w);
    assert_eq!((s.parent, s.child), (3, 4));
    assert_eq!(w.get(4).density, Some(7874));
    assert_eq!(w.get(4).restitution, Some(700));
    assert_eq!(w.get(4).friction, Some(0));
    assert_eq!(w.get(3).damping, Some(Damping { linear: 50, angular: 50 }));
}

#[test]
fn conversion_without_key_press_does_nothing() {
    let mut w = startup(true);
    let before = records(&w);
    assert!(convert_proc(false, &mut w).is_none());
    assert_eq!(records(&w), before);
}

#[test]
fn converted_parent_is_dynamic_with_damping() {
    let mut w = startup(true);
    let c = convert_proc(true, &mut w).unwrap();
    assert_eq!(c.parents, vec![1]);
    let p = w.get(1);
    assert!(!p.marker_parent);
    assert_eq!(p.rigid_body, Some(BodyKind::Dynamic));
    assert_eq!(p.damping, Some(Damping { linear: 50, angular: 50 }));
    assert_eq!((LINEAR_DAMPING, ANGULAR_DAMPING), (50, 50));
}

#[test]
fn converted_child_has_steel_material() {
    let mut w = startup(false);
    let c = convert_proc(true, &mut w).unwrap();
    assert_eq!(c.children, vec![2]);
    let ch = w.get(2);
    assert!(!ch.marker_child);
    assert_eq!(ch.density, Some(7874));
    assert_eq!(ch.restitution, Some(700));
    assert_eq!(ch.friction, Some(0));
    assert_eq!((DEFAULT_DENSITY, DEFAULT_RESTITUTION, DEFAULT_FRICTION), (7874, 700, 0));
}

#[test]
fn conversion_twice_converts_nothing_second() {
    let mut w = startup(true);
    let first = convert_proc(true, &mut w).unwrap();
    assert_eq!((first.parents.len(), first.children.len()), (1, 1));
    let once = records(&w);
    let second = convert_proc(true, &mut w).unwrap();
    assert_eq!((second.parents.len(), second.children.len()), (0, 0));
    assert_eq!(records(&w), once);
}

#[test]
fn conversion_leaves_reference_pair_alone() {
    let mut w = startup(true);
    let before = records(&w);
    convert_proc(true, &mut w);
    assert_eq!(w.get(0), before[0]);
    assert_eq!(w.get(3), before[3]);
    assert_eq!(w.get(4), before[4]);
}

#[test]
fn conversion_skips_doubly_marked_and_untransformed() {
    let mut both = EntityRecord::empty();
    both.transform = Some(Position { x: 0, y: 0, z: 0 });
    both.marker_parent = true;
    both.marker_child = true;
    let mut bare = EntityRecord::empty();
    bare.marker_parent = true;
    let mut w = World::from_records(vec![both, bare]);
    let c = convert_proc(true, &mut w).unwrap();
    assert!(c.parents.is_empty() && c.children.is_empty());
    assert_eq!(w.get(0), both);
    assert_eq!(w.get(1), bare);
}

#[test]
fn conversion_on_empty_world() {
    let mut w = World::new();
    let c = convert_proc(true, &mut w).unwrap();
    assert!(c.parents.is_empty() && c.children.is_empty());
    assert_eq!(w.len(), 0);
}

#[test]
fn static_child_keeps_body_parent() {
    let mut w = startup(false);
    assert!(has_rb_parent(&w, 4));
    convert_proc(true, &mut w);
    assert!(has_rb_parent(&w, 4));
    convert_proc(true, &mut w);
    assert!(has_rb_parent(&w, 4));
}

#[test]
fn marked_child_gains_body_parent_on_conversion() {
    let mut w = startup(false);
    assert!(!has_rb_parent(&w, 2));
    convert_proc(true, &mut w);
    assert!(has_rb_parent(&w, 2));
}

#[test]
fn orphan_collider_has_no_body_parent() {
    let mut orphan = EntityRecord::empty();
    orphan.transform = Some(Position { x: 0, y: 0, z: 0 });
    orphan.collider = Some(Cuboid { hx: 500, hy: 500, hz: 500 });
    let w = World::from_records(vec![orphan]);
    assert!(!has_rb_parent(&w, 0));
    let r = debug_rbs(&w);
    assert!(r.bodies.is_empty());
    assert_eq!(r.colliders, vec![ColliderAncestry { entity: 0, has_rb_parent: false }]);
}

#[test]
fn dangling_parent_has_no_body_parent() {
    let mut c = EntityRecord::empty();
    c.transform = Some(Position { x: 0, y: 0, z: 0 });
    c.collider = Some(Cuboid { hx: 1, hy: 1, hz: 1 });
    c.parent = Some(7);
    let w = World::from_records(vec![c]);
    assert!(!has_rb_parent(&w, 0));
    let r = debug_rbs(&w);
    assert_eq!(r.colliders, vec![ColliderAncestry { entity: 0, has_rb_parent: false }]);
}

#[test]
fn debug_report_on_startup_scene() {
    let w = startup(false);
    let r = debug_rbs(&w);
    assert_eq!(r.bodies, vec![3]);
    assert_eq!(
        r.colliders,
        vec![
            ColliderAncestry { entity: 2, has_rb_parent: false },
            ColliderAncestry { entity: 4, has_rb_parent: true },
        ]
    );
    let w2 = startup(true);
    let r2 = debug_rbs(&w2);
    assert_eq!(r2.bodies, vec![1, 3]);
    assert_eq!(r2.colliders[0], ColliderAncestry { entity: 2, has_rb_parent: true });
}

#[test]
fn body_without_transform_is_not_reported() {
    let mut b = EntityRecord::empty();
    b.rigid_body = Some(BodyKind::Dynamic);
    let mut c = EntityRecord::empty();
    c.transform = Some(Position { x: 0, y: 0, z: 0 });
    c.collider = Some(Cuboid { hx: 1, hy: 1, hz: 1 });
    c.parent = Some(0);
    let w = World::from_records(vec![b, c]);
    let r = debug_rbs(&w);
    assert!(r.bodies.is_empty());
    assert_eq!(r.colliders, vec![ColliderAncestry { entity: 1, has_rb_parent: false }]);
}

fn entry(entity: u64, names: &[&str]) -> EntityComponents {
    EntityComponents { entity, components: names.iter().map(|s| s.to_string()).collect() }
}

#[test]
fn dump_lists_each_entity_block() {
    let entries = vec![
        entry(4, &["Transform", "RigidBody"]),
        entry(9, &[]),
        entry(2, &["Collider"]),
    ];
    let lines = inspect(true, &entries);
    assert_eq!(
        lines,
        vec![
            DumpLine::Entity(4),
            DumpLine::Component("Transform".to_string()),
            DumpLine::Component("RigidBody".to_string()),
            DumpLine::Entity(9),
            DumpLine::Entity(2),
            DumpLine::Component("Collider".to_string()),
        ]
    );
    let headers = lines.iter().filter(|l| matches!(l, DumpLine::Entity(_))).count();
    assert_eq!(headers, 3);
}

#[test]
fn dump_without_key_press_is_empty() {
    let entries = vec![entry(1, &["Transform"])];
    assert!(inspect(false, &entries).is_empty());
    assert!(inspect(true, &Vec::new()).is_empty());
}

#[test]
fn setup_on_populated_world_marks_only_new_pair() {
    let mut w = World::new();
    let first = setup_static(&mut w);
    setup_scene(&mut w);
    let p = setup_proc(&mut w, true);
    let parents: Vec<usize> = (0..w.len()).filter(|&e| w.get(e).marker_parent).collect();
    let children: Vec<usize> = (0..w.len()).filter(|&e| w.get(e).marker_child).collect();
    assert_eq!(parents, vec![p.parent]);
    assert_eq!(children, vec![p.child]);
    let kids: Vec<usize> = (0..w.len()).filter(|&e| w.get(e).parent == Some(p.parent)).collect();
    assert_eq!(kids, vec![p.child]);
    let kids: Vec<usize> =
        (0..w.len()).filter(|&e| w.get(e).parent == Some(first.parent)).collect();
    assert_eq!(kids, vec![first.child]);
}

#[test]
fn dump_blocks_follow_entities_in_any_order() {
    let a = vec![entry(1, &["Transform"]), entry(2, &["Collider", "Friction"])];
    let b = vec![entry(2, &["Collider", "Friction"]), entry(1, &["Transform"])];
    let la = inspect(true, &a);
    let lb = inspect(true, &b);
    assert_eq!(la.len(), lb.len());
    assert_eq!(la[0..2], lb[3..5]);
    assert_eq!(la[2..5], lb[0..3]);
}
