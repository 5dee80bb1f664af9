//! The commands the synchronization systems decide on. The verified logic
//! only ever *emits* these; an unverified driver forwards each one to the
//! concrete physics backend, which keeps the decision layer on plain values.

use vstd::prelude::*;

verus! {

use crate::math::Isometry;
use crate::objects::PhysicsAreaTag;
use crate::objects::PhysicsJointTag;
use crate::objects::PhysicsRigidBodyTag;
use crate::objects::PhysicsShapeTag;

/// One call into the physics backend, decided by a synchronization system
/// or by the stepper.
#[derive(Clone, Copy, Debug, PartialEq, Eq, Structural)]
pub enum PhysicsCommand {
    /// Advance the physics world by one fixed sub-step.
    StepWorld,
    /// Tell the world the fixed sub-step duration, in microseconds.
    SetTimeStep(u64),
    /// Associate the owning entity with a body, so backend events can be
    /// correlated back to entities.
    SetBodyEntity(PhysicsRigidBodyTag, u32),
    /// Associate the owning entity with an area.
    SetAreaEntity(PhysicsAreaTag, u32),
    /// Assign a shape to a body, or clear it with `None`.
    SetBodyShape(PhysicsRigidBodyTag, Option<PhysicsShapeTag>),
    /// Assign a shape to an area, or clear it with `None`.
    SetAreaShape(PhysicsAreaTag, Option<PhysicsShapeTag>),
    /// Push a world pose to a body.
    SetBodyTransform(PhysicsRigidBodyTag, Isometry),
    /// Push a world pose to an area.
    SetAreaTransform(PhysicsAreaTag, Isometry),
    /// Attach a rigid body to a joint; a joint takes at most two.
    InsertJointRigidBody(PhysicsJointTag, PhysicsRigidBodyTag),
    /// Detach a rigid body from a joint.
    RemoveJointRigidBody(PhysicsJointTag, PhysicsRigidBodyTag),
}

} // verus!
