use phythyst::objects::CollisionGroup;
use phythyst::objects::PhysicsAttachment;
use phythyst::math::Isometry;
use phythyst::math::Vector3;
use phythyst::servers::AreaDesc;
use phythyst::servers::BodyMode;
use phythyst::servers::JointDesc;
use phythyst::servers::JointPosition;
use phythyst::servers::RigidBodyDesc;
use phythyst::servers::ShapeDesc;

#[test]
fn rigid_body_desc_defaults() {
    let d = RigidBodyDesc::default();
    assert_eq!(d.mode, BodyMode::Dynamic);
    assert_eq!(d.mass, 1000);
    assert_eq!(d.friction, 200);
    assert_eq!(d.bounciness, 0);
    assert_eq!(d.belong_to, vec![CollisionGroup { id: 1 }]);
    assert_eq!(d.collide_with, vec![CollisionGroup { id: 1 }]);
    assert!(!d.lock_translation_x && !d.lock_translation_y && !d.lock_translation_z);
    assert!(!d.lock_rotation_x && !d.lock_rotation_y && !d.lock_rotation_z);
}

#[test]
fn area_desc_defaults() {
    let d = AreaDesc::default();
    assert_eq!(d.belong_to, vec![CollisionGroup { id: 1 }]);
    assert_eq!(d.collide_with, vec![CollisionGroup { id: 1 }]);
}

#[test]
fn attachment_cache_defaults_to_identity() {
    let a = PhysicsAttachment::default();
    assert_eq!(a.cache_world_transform, Isometry::identity());
}

#[test]
fn shape_and_joint_descs_construct() {
    let sphere = ShapeDesc::Sphere { radius: 1500 };
    match sphere {
        ShapeDesc::Sphere { radius } => assert_eq!(radius, 1500),
        _ => panic!("expected a sphere"),
    }

    let compound = ShapeDesc::Compound {
        shapes: vec![(
            Isometry::identity(),
            ShapeDesc::Cube { half_extents: Vector3::new(500, 500, 500) },
        )],
    };
    match compound {
        ShapeDesc::Compound { shapes } => assert_eq!(shapes.len(), 1),
        _ => panic!("expected a compound"),
    }

    assert_eq!(JointDesc::Fixed, JointDesc::Fixed);
    assert_eq!(JointPosition::Middle, JointPosition::Middle);
    let at = JointPosition::Exact(Isometry::identity());
    assert_ne!(at, JointPosition::Middle);
}
