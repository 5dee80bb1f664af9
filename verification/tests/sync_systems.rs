use phythyst::commands::PhysicsCommand;
use phythyst::math::Isometry;
use phythyst::math::Vector3;
use phythyst::objects::HandleRegistry;
use phythyst::objects::Parent;
use phythyst::objects::PhysicsAreaTag;
use phythyst::objects::PhysicsHandle;
use phythyst::objects::PhysicsRigidBodyTag;
use phythyst::objects::PhysicsShapeTag;
use phythyst::physics_stepper_system::PhysicsStepperSystem;
use phythyst::physics_sync_entity_system::PhysicsSyncEntitySystem;
use phythyst::physics_sync_shape_system::PhysicsSyncShapeSystem;
use phythyst::physics_sync_transform_from_system::PhysicsSyncTransformFromSystem;
use phythyst::physics_sync_transform_to_system::PhysicsSyncTransformToSystem;
use phythyst::physics_time::PhysicsTime;
use phythyst::storage::AreaStorage;
use phythyst::storage::BodyStorage;
use phythyst::storage::ParentStorage;
use phythyst::storage::ShapeStorage;
use phythyst::storage::TransformStorage;

const BODY: PhysicsRigidBodyTag = PhysicsRigidBodyTag::U32(100);
const AREA: PhysicsAreaTag = PhysicsAreaTag::U32(200);
const SHAPE: PhysicsShapeTag = PhysicsShapeTag::U32(300);

fn translation(x: i64, y: i64, z: i64) -> Isometry {
    Isometry::from_translation(Vector3::new(x, y, z))
}

#[test]
fn entity_sync_reports_fresh_bodies_and_areas() {
    let mut registry = HandleRegistry::new();
    let mut bodies = BodyStorage::new();
    let mut areas = AreaStorage::new();
    let mut system = PhysicsSyncEntitySystem::new(&bodies, &areas);

    bodies.insert(4, PhysicsHandle::new(BODY, &mut registry));
    areas.insert(2, PhysicsHandle::new(AREA, &mut registry));

    let cmds = system.run(&bodies, &areas);
    assert_eq!(
        cmds,
        vec![
            PhysicsCommand::SetBodyEntity(BODY, 4),
            PhysicsCommand::SetAreaEntity(AREA, 2),
        ]
    );

    // A second pass with no fresh events decides nothing.
    assert!(system.run(&bodies, &areas).is_empty());
}

#[test]
fn shape_sync_assigns_and_clears() {
    let mut registry = HandleRegistry::new();
    let mut bodies = BodyStorage::new();
    let mut areas = AreaStorage::new();
    let mut shapes = ShapeStorage::new();
    let mut system = PhysicsSyncShapeSystem::new(&bodies, &areas, &shapes);

    bodies.insert(1, PhysicsHandle::new(BODY, &mut registry));
    shapes.insert(1, PhysicsHandle::new(SHAPE, &mut registry));
    let cmds = system.run(&bodies, &areas, &shapes);
    assert_eq!(cmds, vec![PhysicsCommand::SetBodyShape(BODY, Some(SHAPE))]);

    // Dropping the shape component clears the body's shape.
    shapes.remove(1);
    let cmds = system.run(&bodies, &areas, &shapes);
    assert_eq!(cmds, vec![PhysicsCommand::SetBodyShape(BODY, None)]);
}

#[test]
fn shape_sync_covers_areas_too() {
    let mut registry = HandleRegistry::new();
    let mut bodies = BodyStorage::new();
    let mut areas = AreaStorage::new();
    let mut shapes = ShapeStorage::new();
    let mut system = PhysicsSyncShapeSystem::new(&bodies, &areas, &shapes);

    areas.insert(5, PhysicsHandle::new(AREA, &mut registry));
    shapes.insert(5, PhysicsHandle::new(SHAPE, &mut registry));
    let cmds = system.run(&bodies, &areas, &shapes);
    assert_eq!(cmds, vec![PhysicsCommand::SetAreaShape(AREA, Some(SHAPE))]);
}

#[test]
fn transform_to_pushes_fresh_transforms_only() {
    let mut registry = HandleRegistry::new();
    let mut transforms = TransformStorage::new();
    let mut bodies = BodyStorage::new();
    let mut areas = AreaStorage::new();
    let attachments = phythyst::storage::AttachmentStorage::new();
    let parents = ParentStorage::new();
    let mut system = PhysicsSyncTransformToSystem::new(&transforms, &bodies, &areas);

    transforms.insert(3, translation(1, 2, 3));
    bodies.insert(3, PhysicsHandle::new(BODY, &mut registry));
    let cmds = system.run(&transforms, &bodies, &areas, &attachments, &parents);
    assert_eq!(
        cmds,
        vec![PhysicsCommand::SetBodyTransform(BODY, translation(1, 2, 3))]
    );

    // A modification of an existing transform is deliberately not pushed.
    transforms.insert(3, translation(9, 9, 9));
    let cmds = system.run(&transforms, &bodies, &areas, &attachments, &parents);
    assert!(cmds.is_empty());
}

#[test]
fn transform_to_composes_parent_chain_for_parented_bodies() {
    let mut registry = HandleRegistry::new();
    let mut transforms = TransformStorage::new();
    let mut bodies = BodyStorage::new();
    let areas = AreaStorage::new();
    let attachments = phythyst::storage::AttachmentStorage::new();
    let mut parents = ParentStorage::new();

    // Entity 0 is a plain positioned entity, entity 1 a body under it.
    transforms.insert(0, translation(10, 0, 0));
    parents.insert(1, Parent { entity: 0 });

    let mut system = PhysicsSyncTransformToSystem::new(&transforms, &bodies, &areas);
    transforms.insert(1, translation(1, 2, 3));
    bodies.insert(1, PhysicsHandle::new(BODY, &mut registry));

    let cmds = system.run(&transforms, &bodies, &areas, &attachments, &parents);
    assert_eq!(
        cmds,
        vec![PhysicsCommand::SetBodyTransform(BODY, translation(11, 2, 3))]
    );
}

#[test]
fn transform_from_pulls_unparented_bodies() {
    let mut registry = HandleRegistry::new();
    let mut transforms = TransformStorage::new();
    let mut bodies = BodyStorage::new();
    let parents = ParentStorage::new();
    let mut system = PhysicsSyncTransformFromSystem::new();

    transforms.insert(6, translation(0, 0, 0));
    bodies.insert(6, PhysicsHandle::new(BODY, &mut registry));

    let poses = vec![(BODY, translation(7, 8, 9))];
    system.run(&mut transforms, &bodies, &parents, &poses);
    assert_eq!(transforms.get(6), Some(&translation(7, 8, 9)));
}

#[test]
fn transform_from_skips_parented_bodies() {
    let mut registry = HandleRegistry::new();
    let mut transforms = TransformStorage::new();
    let mut bodies = BodyStorage::new();
    let mut parents = ParentStorage::new();
    let mut system = PhysicsSyncTransformFromSystem::new();

    transforms.insert(6, translation(1, 1, 1));
    bodies.insert(6, PhysicsHandle::new(BODY, &mut registry));
    parents.insert(6, Parent { entity: 0 });

    let poses = vec![(BODY, translation(7, 8, 9))];
    system.run(&mut transforms, &bodies, &parents, &poses);
    assert_eq!(transforms.get(6), Some(&translation(1, 1, 1)));
}

#[test]
fn transform_from_is_idempotent_without_a_step() {
    let mut registry = HandleRegistry::new();
    let mut transforms = TransformStorage::new();
    let mut bodies = BodyStorage::new();
    let parents = ParentStorage::new();
    let mut system = PhysicsSyncTransformFromSystem::new();

    transforms.insert(0, translation(0, 0, 0));
    bodies.insert(0, PhysicsHandle::new(BODY, &mut registry));
    transforms.insert(1, translation(5, 5, 5));

    let poses = vec![(BODY, translation(4, 0, 4))];
    system.run(&mut transforms, &bodies, &parents, &poses);
    let after_first: Vec<Option<Isometry>> =
        (0..2).map(|e| transforms.get(e).copied()).collect();

    system.run(&mut transforms, &bodies, &parents, &poses);
    let after_second: Vec<Option<Isometry>> =
        (0..2).map(|e| transforms.get(e).copied()).collect();

    assert_eq!(after_first, after_second);
    assert_eq!(transforms.get(0), Some(&translation(4, 0, 4)));
    assert_eq!(transforms.get(1), Some(&translation(5, 5, 5)));
}

#[test]
fn stepper_renews_time_step_only_on_change() {
    let mut time = PhysicsTime::default();
    let mut stepper = PhysicsStepperSystem::new();

    let cmds = stepper.run(&time);
    assert_eq!(
        cmds,
        vec![
            PhysicsCommand::SetTimeStep(16666),
            PhysicsCommand::StepWorld,
        ]
    );

    let cmds = stepper.run(&time);
    assert_eq!(cmds, vec![PhysicsCommand::StepWorld]);

    time.set_frames_per_seconds(120);
    let cmds = stepper.run(&time);
    assert_eq!(
        cmds,
        vec![PhysicsCommand::SetTimeStep(8333), PhysicsCommand::StepWorld]
    );
}
