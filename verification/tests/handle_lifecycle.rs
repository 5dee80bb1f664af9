use phythyst::objects::HandleRegistry;
use phythyst::objects::PhysicsAreaTag;
use phythyst::objects::PhysicsGarbageCollector;
use phythyst::objects::PhysicsHandle;
use phythyst::objects::PhysicsJointTag;
use phythyst::objects::PhysicsRigidBodyTag;
use phythyst::objects::PhysicsShapeTag;

#[test]
fn single_handle_notifies_once_on_release() {
    let mut registry = HandleRegistry::new();
    let mut gc = PhysicsGarbageCollector::default();

    let handle = PhysicsHandle::new(PhysicsRigidBodyTag::U32(7), &mut registry);
    assert_eq!(handle.get(), PhysicsRigidBodyTag::U32(7));
    assert!(gc.bodies.is_empty());

    handle.release(&mut registry, &mut gc);
    assert_eq!(gc.bodies, vec![PhysicsRigidBodyTag::U32(7)]);
    assert!(gc.areas.is_empty());
    assert!(gc.shapes.is_empty());
    assert!(gc.joints.is_empty());
}

#[test]
fn three_clones_notify_once_in_creation_order() {
    let mut registry = HandleRegistry::new();
    let mut gc = PhysicsGarbageCollector::default();

    let h1 = PhysicsHandle::new(PhysicsRigidBodyTag::U64U64(1, 2), &mut registry);
    let h2 = h1.clone_with(&mut registry);
    let h3 = h2.clone_with(&mut registry);
    assert_eq!(h3.get(), PhysicsRigidBodyTag::U64U64(1, 2));

    h1.release(&mut registry, &mut gc);
    assert!(gc.bodies.is_empty());
    h2.release(&mut registry, &mut gc);
    assert!(gc.bodies.is_empty());
    h3.release(&mut registry, &mut gc);
    assert_eq!(gc.bodies, vec![PhysicsRigidBodyTag::U64U64(1, 2)]);
}

#[test]
fn three_clones_notify_once_in_reverse_order() {
    let mut registry = HandleRegistry::new();
    let mut gc = PhysicsGarbageCollector::default();

    let h1 = PhysicsHandle::new(PhysicsRigidBodyTag::UsizeU32(9, 4), &mut registry);
    let h2 = h1.clone_with(&mut registry);
    let h3 = h1.clone_with(&mut registry);

    h3.release(&mut registry, &mut gc);
    h1.release(&mut registry, &mut gc);
    assert!(gc.bodies.is_empty());
    h2.release(&mut registry, &mut gc);
    assert_eq!(gc.bodies, vec![PhysicsRigidBodyTag::UsizeU32(9, 4)]);
}

#[test]
fn each_tag_kind_uses_its_own_queue() {
    let mut registry = HandleRegistry::new();
    let mut gc = PhysicsGarbageCollector::default();

    let body = PhysicsHandle::new(PhysicsRigidBodyTag::U32(1), &mut registry);
    let area = PhysicsHandle::new(PhysicsAreaTag::U32(2), &mut registry);
    let shape = PhysicsHandle::new(PhysicsShapeTag::U32(3), &mut registry);
    let joint = PhysicsHandle::new(PhysicsJointTag::U32(4), &mut registry);

    joint.release(&mut registry, &mut gc);
    shape.release(&mut registry, &mut gc);
    area.release(&mut registry, &mut gc);
    body.release(&mut registry, &mut gc);

    assert_eq!(gc.bodies, vec![PhysicsRigidBodyTag::U32(1)]);
    assert_eq!(gc.areas, vec![PhysicsAreaTag::U32(2)]);
    assert_eq!(gc.shapes, vec![PhysicsShapeTag::U32(3)]);
    assert_eq!(gc.joints, vec![PhysicsJointTag::U32(4)]);
}

#[test]
fn independent_handles_notify_independently() {
    let mut registry = HandleRegistry::new();
    let mut gc = PhysicsGarbageCollector::default();

    let a = PhysicsHandle::new(PhysicsRigidBodyTag::U32(10), &mut registry);
    let b = PhysicsHandle::new(PhysicsRigidBodyTag::U32(20), &mut registry);
    let b2 = b.clone_with(&mut registry);

    b.release(&mut registry, &mut gc);
    assert!(gc.bodies.is_empty());
    a.release(&mut registry, &mut gc);
    assert_eq!(gc.bodies, vec![PhysicsRigidBodyTag::U32(10)]);
    b2.release(&mut registry, &mut gc);
    assert_eq!(
        gc.bodies,
        vec![PhysicsRigidBodyTag::U32(10), PhysicsRigidBodyTag::U32(20)]
    );
}
