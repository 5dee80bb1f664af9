//! The system that steps the physics world once per sub-step, keeping the
//! backend's time step in sync with the configured sub-step duration.

use vstd::prelude::*;

verus! {

use crate::commands::PhysicsCommand;
use crate::physics_time::PhysicsTime;

/// Steps the physics world. It caches the time step last pushed to the
/// backend and renews it only when the configuration changed.
pub struct PhysicsStepperSystem {
    time_step_micros: u64,
}

impl PhysicsStepperSystem {
    /// The time step last pushed to the backend, in microseconds; `0` means
    /// none was pushed yet.
    pub closed spec fn cached_time_step(self) -> u64 {
        self.time_step_micros
    }

    /// A stepper that has not pushed any time step yet.
    pub fn new() -> (s: PhysicsStepperSystem)
        ensures
            s.cached_time_step() == 0,
    {
        PhysicsStepperSystem { time_step_micros: 0 }
    }

    /// One sub-step: renews the backend's time step if the configured
    /// sub-step duration changed since the last push, then steps the world.
    pub fn run(&mut self, physics_time: &PhysicsTime) -> (cmds: Vec<PhysicsCommand>)
        ensures
            final(self).cached_time_step() == physics_time.delta_micros,
            old(self).cached_time_step() != physics_time.delta_micros ==> cmds@ == seq![
                PhysicsCommand::SetTimeStep(physics_time.delta_micros),
                PhysicsCommand::StepWorld,
            ],
            old(self).cached_time_step() == physics_time.delta_micros ==> cmds@ == seq![
                PhysicsCommand::StepWorld,
            ],
    {
        let mut cmds: Vec<PhysicsCommand> = Vec::new();
        if self.time_step_micros != physics_time.delta_micros {
            self.time_step_micros = physics_time.delta_micros;
            cmds.push(PhysicsCommand::SetTimeStep(physics_time.delta_micros));
        }
        cmds.push(PhysicsCommand::StepWorld);
        proof {
            if old(self).cached_time_step() != physics_time.delta_micros {
                assert(cmds@ =~= seq![
                    PhysicsCommand::SetTimeStep(physics_time.delta_micros),
                    PhysicsCommand::StepWorld,
                ]);
            } else {
                assert(cmds@ =~= seq![PhysicsCommand::StepWorld]);
            }
        }
        cmds
    }
}

} // verus!
