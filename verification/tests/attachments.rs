use phythyst::commands::PhysicsCommand;
use phythyst::math::Isometry;
use phythyst::math::Matrix3;
use phythyst::math::Vector3;
use phythyst::objects::HandleRegistry;
use phythyst::objects::Parent;
use phythyst::objects::PhysicsAttachment;
use phythyst::objects::PhysicsHandle;
use phythyst::objects::PhysicsRigidBodyTag;
use phythyst::physics_attachment_system::PhysicsAttachmentSystem;
use phythyst::physics_time::PhysicsTime;
use phythyst::storage::AreaStorage;
use phythyst::storage::AttachmentStorage;
use phythyst::storage::BodyStorage;
use phythyst::storage::ParentStorage;
use phythyst::storage::TransformStorage;

const BODY: PhysicsRigidBodyTag = PhysicsRigidBodyTag::U32(500);

fn translation(x: i64, y: i64, z: i64) -> Isometry {
    Isometry::from_translation(Vector3::new(x, y, z))
}

fn quarter_turn_z_at(x: i64, y: i64, z: i64) -> Isometry {
    Isometry::new(
        Matrix3 {
            r0: Vector3::new(0, -1, 0),
            r1: Vector3::new(1, 0, 0),
            r2: Vector3::new(0, 0, 1),
        },
        Vector3::new(x, y, z),
    )
}

struct Scene {
    registry: HandleRegistry,
    attachments: AttachmentStorage,
    parents: ParentStorage,
    transforms: TransformStorage,
    bodies: BodyStorage,
    areas: AreaStorage,
}

/// A rigid body at entity 0 with a chain of three attached entities under
/// it: 1 under 0, 2 under 1, 3 under 2.
fn three_level_chain() -> Scene {
    let mut scene = Scene {
        registry: HandleRegistry::new(),
        attachments: AttachmentStorage::new(),
        parents: ParentStorage::new(),
        transforms: TransformStorage::new(),
        bodies: BodyStorage::new(),
        areas: AreaStorage::new(),
    };
    scene
        .bodies
        .insert(0, PhysicsHandle::new(BODY, &mut scene.registry));
    for e in 1..4 {
        scene.attachments.insert(e, PhysicsAttachment::default());
        scene.parents.insert(e, Parent { entity: e - 1 });
    }
    scene.transforms.insert(1, translation(1, 0, 0));
    scene.transforms.insert(2, translation(0, 2, 0));
    scene.transforms.insert(3, translation(0, 0, 3));
    scene
}

#[test]
fn chain_resolves_to_left_to_right_composition() {
    let mut scene = three_level_chain();
    let time = PhysicsTime::default();
    let mut system = PhysicsAttachmentSystem::default();

    // The body's pose B is a quarter turn around z, shifted by (10, 0, 0).
    // Expected leaf pose: ((B * P1) * P2) * P3 = rotation B, translation
    // (8, 1, 3).
    let poses = vec![(BODY, quarter_turn_z_at(10, 0, 0))];
    let hierarchy: Vec<u32> = vec![1, 2, 3];
    let (cmds, skipped) = system.run(
        &time,
        &hierarchy,
        &mut scene.attachments,
        &scene.parents,
        &scene.transforms,
        &scene.bodies,
        &scene.areas,
        &poses,
    );
    assert!(cmds.is_empty());
    assert!(skipped.is_empty());

    assert_eq!(
        scene.attachments.get(1).unwrap().cache_world_transform,
        quarter_turn_z_at(10, 1, 0)
    );
    assert_eq!(
        scene.attachments.get(2).unwrap().cache_world_transform,
        quarter_turn_z_at(8, 1, 0)
    );
    assert_eq!(
        scene.attachments.get(3).unwrap().cache_world_transform,
        quarter_turn_z_at(8, 1, 3)
    );
}

#[test]
fn attached_body_gets_its_pose_pushed() {
    let mut scene = three_level_chain();
    let time = PhysicsTime::default();
    let mut system = PhysicsAttachmentSystem::default();

    // Entity 2 is itself a rigid body: its resolved pose is pushed.
    let child_body = PhysicsRigidBodyTag::U32(501);
    scene
        .bodies
        .insert(2, PhysicsHandle::new(child_body, &mut scene.registry));

    let poses = vec![
        (BODY, translation(10, 0, 0)),
        (child_body, translation(0, 0, 0)),
    ];
    let hierarchy: Vec<u32> = vec![1, 2, 3];
    let (cmds, skipped) = system.run(
        &time,
        &hierarchy,
        &mut scene.attachments,
        &scene.parents,
        &scene.transforms,
        &scene.bodies,
        &scene.areas,
        &poses,
    );
    assert!(skipped.is_empty());
    assert_eq!(
        cmds,
        vec![PhysicsCommand::SetBodyTransform(child_body, translation(11, 2, 0))]
    );
    // Entity 3's parent is a rigid body now, so its pose comes from the
    // table, not from the cache: (0,0,0) * P3.
    assert_eq!(
        scene.attachments.get(3).unwrap().cache_world_transform,
        translation(0, 0, 3)
    );
}

#[test]
fn skip_flag_runs_resolution_once_per_frame_without_sub_steps() {
    let mut scene = three_level_chain();
    let mut time = PhysicsTime::default();
    let mut system = PhysicsAttachmentSystem::default();
    let poses = vec![(BODY, translation(10, 0, 0))];
    let hierarchy: Vec<u32> = vec![1, 2, 3];

    // Pre-pass, outside sub-stepping: the resolution executes.
    let steps = time.begin_sub_stepping(0);
    assert_eq!(steps, 0);
    time.end_sub_stepping();
    system.run(
        &time,
        &hierarchy,
        &mut scene.attachments,
        &scene.parents,
        &scene.transforms,
        &scene.bodies,
        &scene.areas,
        &poses,
    );
    assert_eq!(
        scene.attachments.get(3).unwrap().cache_world_transform,
        translation(11, 2, 3)
    );

    // The bookkeeping call inside the sub-stepping phase is skipped: even
    // with a changed pose table the cache stays as the pre-pass left it.
    let mut in_step_time = PhysicsTime::default();
    in_step_time.begin_sub_stepping(0);
    let moved = vec![(BODY, translation(99, 0, 0))];
    let (cmds, skipped) = system.run(
        &in_step_time,
        &hierarchy,
        &mut scene.attachments,
        &scene.parents,
        &scene.transforms,
        &scene.bodies,
        &scene.areas,
        &moved,
    );
    assert!(cmds.is_empty());
    assert!(skipped.is_empty());
    assert_eq!(
        scene.attachments.get(3).unwrap().cache_world_transform,
        translation(11, 2, 3)
    );

    // A genuine sub-step call afterwards executes again.
    let (_, _) = system.run(
        &in_step_time,
        &hierarchy,
        &mut scene.attachments,
        &scene.parents,
        &scene.transforms,
        &scene.bodies,
        &scene.areas,
        &moved,
    );
    assert_eq!(
        scene.attachments.get(3).unwrap().cache_world_transform,
        translation(100, 2, 3)
    );
}

#[test]
fn misconfigured_attachment_is_skipped_and_reported() {
    let mut attachments = AttachmentStorage::new();
    let mut parents = ParentStorage::new();
    let transforms = TransformStorage::new();
    let bodies = BodyStorage::new();
    let areas = AreaStorage::new();
    let time = PhysicsTime::default();
    let mut system = PhysicsAttachmentSystem::default();

    // Entity 1 is attached to entity 0, which is neither a rigid body nor
    // an attachment: a configuration error.
    attachments.insert(1, PhysicsAttachment {
        cache_world_transform: translation(5, 5, 5),
    });
    parents.insert(1, Parent { entity: 0 });

    let hierarchy: Vec<u32> = vec![1];
    let poses: Vec<(PhysicsRigidBodyTag, Isometry)> = Vec::new();
    let (cmds, skipped) = system.run(
        &time,
        &hierarchy,
        &mut attachments,
        &parents,
        &transforms,
        &bodies,
        &areas,
        &poses,
    );
    assert!(cmds.is_empty());
    assert_eq!(skipped, vec![1]);
    // The cache is left untouched.
    assert_eq!(
        attachments.get(1).unwrap().cache_world_transform,
        translation(5, 5, 5)
    );
}
