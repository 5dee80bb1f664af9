use phythyst::commands::PhysicsCommand;
use phythyst::objects::HandleRegistry;
use phythyst::objects::PhysicsHandle;
use phythyst::objects::PhysicsJointTag;
use phythyst::objects::PhysicsRigidBodyTag;
use phythyst::physics_sync_joint_system::PhysicsSyncJointSystem;
use phythyst::storage::BodyStorage;
use phythyst::storage::JointStorage;

const JOINT: PhysicsJointTag = PhysicsJointTag::U64(77);
const BODY_A: PhysicsRigidBodyTag = PhysicsRigidBodyTag::U32(1);
const BODY_B: PhysicsRigidBodyTag = PhysicsRigidBodyTag::U32(2);

#[test]
fn joint_lifecycle_attaches_two_bodies_then_detaches_one() {
    let mut registry = HandleRegistry::new();
    let mut bodies = BodyStorage::new();
    let mut joints = JointStorage::new();
    let mut system = PhysicsSyncJointSystem::new(&bodies, &joints);

    // One joint, shared by two entities that each carry a body.
    bodies.insert(10, PhysicsHandle::new(BODY_A, &mut registry));
    joints.insert(10, PhysicsHandle::new(JOINT, &mut registry));
    bodies.insert(11, PhysicsHandle::new(BODY_B, &mut registry));
    joints.insert(11, PhysicsHandle::new(JOINT, &mut registry));

    let cmds = system.run(&bodies, &joints);
    assert_eq!(
        cmds,
        vec![
            PhysicsCommand::InsertJointRigidBody(JOINT, BODY_A),
            PhysicsCommand::InsertJointRigidBody(JOINT, BODY_B),
        ]
    );
    assert_eq!(
        system.table_entries().as_slice(),
        &[(10, JOINT, BODY_A), (11, JOINT, BODY_B)]
    );

    // Dropping one entity's body handle detaches exactly that body.
    bodies.remove(10);
    let cmds = system.run(&bodies, &joints);
    assert_eq!(cmds, vec![PhysicsCommand::RemoveJointRigidBody(JOINT, BODY_A)]);
    assert_eq!(system.table_entries().as_slice(), &[(11, JOINT, BODY_B)]);
}

#[test]
fn joint_modify_nets_out_to_reattachment() {
    let mut registry = HandleRegistry::new();
    let mut bodies = BodyStorage::new();
    let mut joints = JointStorage::new();
    let mut system = PhysicsSyncJointSystem::new(&bodies, &joints);

    bodies.insert(3, PhysicsHandle::new(BODY_A, &mut registry));
    joints.insert(3, PhysicsHandle::new(JOINT, &mut registry));
    system.run(&bodies, &joints);

    // Overwriting the body handle logs a modification: the pass first
    // detaches the old association, then re-attaches the new one.
    bodies.insert(3, PhysicsHandle::new(BODY_B, &mut registry));
    let cmds = system.run(&bodies, &joints);
    assert_eq!(
        cmds,
        vec![
            PhysicsCommand::RemoveJointRigidBody(JOINT, BODY_A),
            PhysicsCommand::InsertJointRigidBody(JOINT, BODY_B),
        ]
    );
    assert_eq!(system.table_entries().as_slice(), &[(3, JOINT, BODY_B)]);
}

#[test]
fn removal_without_prior_attachment_is_a_no_op() {
    let mut registry = HandleRegistry::new();
    let mut bodies = BodyStorage::new();
    let mut joints = JointStorage::new();
    let mut system = PhysicsSyncJointSystem::new(&bodies, &joints);

    // A body alone, never joined: its removal produces no joint command.
    bodies.insert(8, PhysicsHandle::new(BODY_A, &mut registry));
    system.run(&bodies, &joints);
    bodies.remove(8);
    let cmds = system.run(&bodies, &joints);
    assert!(cmds.is_empty());
    assert!(system.table_entries().is_empty());
}
