//! Phythyst: a verified core for bridging an entity/component simulation
//! with an external physics engine that advances on its own fixed time step.
//!
//! The crate covers three tightly coupled mechanisms:
//! - shared-ownership resource handles whose last release enqueues the
//!   underlying tag into a garbage collector, exactly once;
//! - a fixed-timestep sub-stepping scheduler with spiral-of-death protection;
//! - event-diff-driven synchronization systems that translate component
//!   changes into backend commands (shape, entity, transform, joint),
//!   including parent-hierarchy pose resolution.
//!
//! The physics solver itself is an external collaborator: every effect the
//! systems decide on is emitted as a [`commands::PhysicsCommand`], and every
//! backend-produced value (a body pose) is taken as an input, so the whole
//! decision logic is verified on plain values.

pub mod commands;
pub mod events;
pub mod math;
pub mod objects;
pub mod physics_attachment_system;
pub mod physics_stepper_system;
pub mod physics_sync_entity_system;
pub mod physics_sync_joint_system;
pub mod physics_sync_shape_system;
pub mod physics_sync_transform_from_system;
pub mod physics_sync_transform_to_system;
pub mod physics_time;
pub mod prelude;
pub mod servers;
pub mod storage;

pub use physics_time::PhysicsTime;
