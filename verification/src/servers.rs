//! Descriptions handed to a physics backend when resources are created or
//! updated. Fractional quantities (mass, friction, bounciness, lengths) are
//! fixed-point integers in thousandths of a unit.

use vstd::prelude::*;

verus! {

use crate::math::Isometry;
use crate::math::Vector3;
use crate::objects::CollisionGroup;

/// The mode of a body.
#[derive(Clone, Copy, Debug, PartialEq, Eq, Hash, Structural)]
pub enum BodyMode {
    /// The body is disabled and ignored by the physics engine.
    Disabled,
    /// The body is static and thus cannot move.
    Static,
    /// The body is dynamic and thus can move and is subject to forces.
    Dynamic,
    /// The body is kinematic: its velocity is controlled by the user and it
    /// is not affected by forces and constraints.
    Kinematic,
}

impl Default for BodyMode {
    /// The default body mode, `Dynamic`.
    fn default() -> (m: Self)
        ensures
            m == BodyMode::Dynamic,
    {
        BodyMode::Dynamic
    }
}

/// All information about a rigid body before it is created.
#[derive(Clone, Debug)]
pub struct RigidBodyDesc {
    /// Body mode.
    pub mode: BodyMode,
    /// Body mass, in thousandths.
    pub mass: i64,
    /// Body friction, in thousandths of the range 0 - 1.
    pub friction: i64,
    /// Body bounciness, in thousandths of the range 0 - 1.
    pub bounciness: i64,
    /// Collision groups this rigid body belongs to.
    pub belong_to: Vec<CollisionGroup>,
    /// Collision groups this rigid body collides with.
    pub collide_with: Vec<CollisionGroup>,
    /// Lock body translation along X.
    pub lock_translation_x: bool,
    /// Lock body translation along Y.
    pub lock_translation_y: bool,
    /// Lock body translation along Z.
    pub lock_translation_z: bool,
    /// Lock body rotation along X.
    pub lock_rotation_x: bool,
    /// Lock body rotation along Y.
    pub lock_rotation_y: bool,
    /// Lock body rotation along Z.
    pub lock_rotation_z: bool,
}

impl Default for RigidBodyDesc {
    /// The default description: a dynamic body of unit mass, friction 0.2,
    /// no bounciness, in collision group 1, with nothing locked.
    fn default() -> (d: Self)
        ensures
            d.mode == BodyMode::Dynamic,
            d.mass == 1000,
            d.friction == 200,
            d.bounciness == 0,
            d.belong_to@.len() == 1 && d.belong_to@[0].id == 1,
            d.collide_with@.len() == 1 && d.collide_with@[0].id == 1,
            !d.lock_translation_x && !d.lock_translation_y && !d.lock_translation_z,
            !d.lock_rotation_x && !d.lock_rotation_y && !d.lock_rotation_z,
    {
        let mut belong_to: Vec<CollisionGroup> = Vec::new();
        belong_to.push(CollisionGroup::default());
        let mut collide_with: Vec<CollisionGroup> = Vec::new();
        collide_with.push(CollisionGroup::default());
        RigidBodyDesc {
            mode: BodyMode::default(),
            mass: 1000,
            friction: 200,
            bounciness: 0,
            belong_to,
            collide_with,
            lock_translation_x: false,
            lock_translation_y: false,
            lock_translation_z: false,
            lock_rotation_x: false,
            lock_rotation_y: false,
            lock_rotation_z: false,
        }
    }
}

/// All information about an area before it is created.
#[derive(Clone, Debug)]
pub struct AreaDesc {
    /// Collision groups this area belongs to.
    pub belong_to: Vec<CollisionGroup>,
    /// Collision groups this area collides with.
    pub collide_with: Vec<CollisionGroup>,
}

impl Default for AreaDesc {
    /// The default description: collision group 1 on both sides.
    fn default() -> (d: Self)
        ensures
            d.belong_to@.len() == 1 && d.belong_to@[0].id == 1,
            d.collide_with@.len() == 1 && d.collide_with@[0].id == 1,
    {
        let mut belong_to: Vec<CollisionGroup> = Vec::new();
        belong_to.push(CollisionGroup::default());
        let mut collide_with: Vec<CollisionGroup> = Vec::new();
        collide_with.push(CollisionGroup::default());
        AreaDesc { belong_to, collide_with }
    }
}

/// Shape description used to create or update a shape. A closed variant:
/// lengths are fixed-point integers in thousandths of a unit.
#[derive(Debug)]
pub enum ShapeDesc {
    /// Sphere shape.
    Sphere {
        /// Sphere radius.
        radius: i64,
    },
    /// Cube shape.
    Cube {
        /// Cube half extents.
        half_extents: Vector3,
    },
    /// Capsule shape.
    Capsule {
        /// Capsule half height.
        half_height: i64,
        /// Capsule radius.
        radius: i64,
    },
    /// Cylinder shape.
    Cylinder {
        /// Cylinder half height.
        half_height: i64,
        /// Cylinder radius.
        radius: i64,
    },
    /// A shape with infinite size whose normal is Y+; usually the world
    /// margin.
    Plane,
    /// Point-cloud convex shape.
    Convex {
        /// Vector of points.
        points: Vec<Vector3>,
    },
    /// Triangular mesh shape.
    TriMesh {
        /// Vertex positions.
        points: Vec<Vector3>,
        /// Triangle indices, three vertex indices per triangle.
        indices: Vec<(usize, usize, usize)>,
    },
    /// A shape composed of other shapes, each under its own local pose.
    Compound {
        /// Vector of shapes.
        shapes: Vec<(Isometry, ShapeDesc)>,
    },
}

/// Joint description, used during the joint creation.
#[derive(Clone, Copy, Debug, PartialEq, Eq, Structural)]
pub enum JointDesc {
    /// Fixed joint.
    Fixed,
}

/// Used to position a joint when it is created.
#[derive(Clone, Copy, Debug, PartialEq, Eq, Structural)]
pub enum JointPosition {
    /// Set the joint in the exact world position.
    Exact(Isometry),
    /// Put the joint between the two bodies.
    Middle,
}

/// An overlap event reported by an area: a body entered or left it. The
/// entity is carried when the backend had one associated with the body.
#[derive(Clone, Copy, Debug, PartialEq, Eq, Structural)]
pub enum OverlapEvent {
    /// The overlap started.
    Enter(crate::objects::PhysicsRigidBodyTag, Option<u32>),
    /// The overlap ended.
    Exit(crate::objects::PhysicsRigidBodyTag, Option<u32>),
}

/// A contact event generated in the past sub-step.
#[derive(Clone, Copy, Debug, PartialEq, Eq, Structural)]
pub struct ContactEvent {
    /// The other body tag.
    pub other_body: crate::objects::PhysicsRigidBodyTag,
    /// The other body entity, when one is associated.
    pub other_entity: Option<u32>,
    /// The other body's shape tag that is in contact.
    pub other_shape_id: crate::objects::PhysicsShapeTag,
    /// The actual body's shape tag that is in contact.
    pub shape_id: crate::objects::PhysicsShapeTag,
    /// The contact normal on the local body.
    pub contact_normal: Vector3,
    /// The contact location.
    pub contact_location: Vector3,
    /// The generated impulse.
    pub contact_impulse: Vector3,
}

} // verus!
