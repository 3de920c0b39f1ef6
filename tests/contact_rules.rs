use rigid_sim::contact_rules::{
    collision_pairs, contact_response, dynamic_slots, narrow_phase, BodyKind, ContactResponse,
    NarrowPhase, ShapeKind,
};

#[test]
fn collision_pairs_lists_every_unordered_pair_once() {
    assert_eq!(collision_pairs(0), vec![]);
    assert_eq!(collision_pairs(1), vec![]);
    assert_eq!(collision_pairs(3), vec![(0, 1), (0, 2), (1, 2)]);
    assert_eq!(collision_pairs(4), vec![(0, 1), (0, 2), (0, 3), (1, 2), (1, 3), (2, 3)]);
    assert_eq!(collision_pairs(20).len(), 190);
}

#[test]
fn narrow_phase_dispatch_by_shape_pairing() {
    assert_eq!(narrow_phase(ShapeKind::Sphere, ShapeKind::Sphere), (NarrowPhase::SphereSphere, false));
    assert_eq!(narrow_phase(ShapeKind::Sphere, ShapeKind::Cuboid), (NarrowPhase::SphereCuboid, false));
    assert_eq!(narrow_phase(ShapeKind::Cuboid, ShapeKind::Sphere), (NarrowPhase::SphereCuboid, true));
    assert_eq!(narrow_phase(ShapeKind::Cuboid, ShapeKind::Cuboid), (NarrowPhase::CuboidCuboid, false));
}

#[test]
fn contact_response_never_moves_static_bodies() {
    assert_eq!(contact_response(BodyKind::Dynamic, BodyKind::Dynamic), ContactResponse::Both);
    assert_eq!(contact_response(BodyKind::Dynamic, BodyKind::Static), ContactResponse::FirstOnly);
    assert_eq!(contact_response(BodyKind::Static, BodyKind::Dynamic), ContactResponse::SecondOnly);
    assert_eq!(contact_response(BodyKind::Static, BodyKind::Static), ContactResponse::Neither);
}

#[test]
fn dynamic_slots_number_dynamic_bodies_densely() {
    let kinds = [BodyKind::Static, BodyKind::Dynamic, BodyKind::Dynamic, BodyKind::Static, BodyKind::Dynamic];
    assert_eq!(dynamic_slots(&kinds), vec![1, 2, 4]);
    assert_eq!(dynamic_slots(&[]), Vec::<usize>::new());
    assert_eq!(dynamic_slots(&[BodyKind::Static]), Vec::<usize>::new());
}
