//! Common types, re-exported for convenience.

pub use crate::commands::PhysicsCommand;
pub use crate::math::Isometry;
pub use crate::math::Matrix3;
pub use crate::math::Vector3;
pub use crate::objects::CollisionGroup;
pub use crate::objects::HandleRegistry;
pub use crate::objects::Parent;
pub use crate::objects::PhysicsAreaTag;
pub use crate::objects::PhysicsAttachment;
pub use crate::objects::PhysicsGarbageCollector;
pub use crate::objects::PhysicsHandle;
pub use crate::objects::PhysicsJointTag;
pub use crate::objects::PhysicsRigidBodyTag;
pub use crate::objects::PhysicsShapeTag;
pub use crate::objects::PhysicsTag;
pub use crate::physics_time::PhysicsTime;
pub use crate::servers::AreaDesc;
pub use crate::servers::BodyMode;
pub use crate::servers::ContactEvent;
pub use crate::servers::JointDesc;
pub use crate::servers::JointPosition;
pub use crate::servers::OverlapEvent;
pub use crate::servers::RigidBodyDesc;
pub use crate::servers::ShapeDesc;
