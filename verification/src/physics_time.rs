//! Physics time resource and the fixed-timestep sub-stepping scheduler.
//!
//! Time is counted in integer microseconds. The scheduler owns a *time bank*:
//! every frame the wall-clock delta is deposited, the bank is clamped to
//! `max_bank_size` (the spiral-of-death guard), and as many whole sub-steps as
//! the bank can pay for are withdrawn. The remainder is carried to the next
//! frame and is always smaller than one sub-step.

use vstd::prelude::*;

verus! {

use vstd::arithmetic::div_mod::lemma_div_is_ordered;
use vstd::arithmetic::div_mod::lemma_div_multiples_vanish;

/// Number of microseconds in one second; `delta_micros` is derived from a
/// frames-per-second configuration as `MICROS_PER_SECOND / fps`.
pub const MICROS_PER_SECOND: u64 = 1_000_000;

/// Keeps track of the physics time: the fixed sub-step duration, the maximum
/// number of sub-steps per frame, and the time bank that carries unconsumed
/// simulation time from one frame to the next.
pub struct PhysicsTime {
    /// The fixed time advanced by one physics sub-step, in microseconds.
    /// The default is 60 sub-steps per second: 1/60 s.
    pub delta_micros: u64,

    /// The maximum number of sub-steps a single frame may run, to avoid a
    /// spiral performance drop. Default is 8.
    pub max_sub_steps: u32,

    /// True while the sub-step dispatching of a frame is in progress.
    pub in_sub_step: bool,

    /// Upper bound on the time bank: `delta_micros * max_sub_steps`.
    /// Maintained internally; do not set it directly.
    pub max_bank_size: u64,

    /// Accumulated, not yet consumed simulation time.
    /// Maintained internally; do not set it directly.
    pub time_bank: u64,
}

impl PhysicsTime {
    /// Well-formedness: the sub-step duration is at least one microsecond and
    /// at most one second, and the bank bound agrees with the configuration.
    pub open spec fn wf(self) -> bool {
        &&& 1 <= self.delta_micros <= MICROS_PER_SECOND
        &&& self.max_bank_size == self.delta_micros * self.max_sub_steps
    }

    /// Get the physics sub-step duration in microseconds.
    pub fn delta_micros(&self) -> (d: u64)
        ensures
            d == self.delta_micros,
    {
        self.delta_micros
    }

    /// Returns true if the sub stepping is in process.
    pub fn in_sub_step(&self) -> (b: bool)
        ensures
            b == self.in_sub_step,
    {
        self.in_sub_step
    }

    /// Returns the max sub steps.
    pub fn sub_max_sub_steps(&self) -> (m: u32)
        ensures
            m == self.max_sub_steps,
    {
        self.max_sub_steps
    }

    /// Set the physics frames per seconds.
    pub fn with_frames_per_second(self, frames_per_seconds: u32) -> (t: Self)
        requires
            1 <= frames_per_seconds <= MICROS_PER_SECOND,
        ensures
            t.wf(),
            t.delta_micros == MICROS_PER_SECOND as int / frames_per_seconds as int,
            t.max_sub_steps == self.max_sub_steps,
            t.in_sub_step == self.in_sub_step,
            t.time_bank == self.time_bank,
    {
        let mut t = self;
        t.set_frames_per_seconds(frames_per_seconds);
        t
    }

    /// Set the physics frames per seconds.
    pub fn set_frames_per_seconds(&mut self, frames_per_seconds: u32)
        requires
            1 <= frames_per_seconds <= MICROS_PER_SECOND,
        ensures
            final(self).wf(),
            final(self).delta_micros == MICROS_PER_SECOND as int / frames_per_seconds as int,
            final(self).max_sub_steps == old(self).max_sub_steps,
            final(self).in_sub_step == old(self).in_sub_step,
            final(self).time_bank == old(self).time_bank,
    {
        proof {
            let f = frames_per_seconds as int;
            lemma_div_multiples_vanish(1, f);
            lemma_div_is_ordered(f, MICROS_PER_SECOND as int, f);
        }
        self.set_delta_micros(MICROS_PER_SECOND / (frames_per_seconds as u64));
    }

    /// Set the physics max sub steps.
    /// This controls how many physics steps can be executed in a single
    /// frame. It's used to avoid spiral performance degradation.
    pub fn with_max_sub_steps(self, max_sub_steps: u32) -> (t: Self)
        requires
            self.wf(),
        ensures
            t.wf(),
            t.delta_micros == self.delta_micros,
            t.max_sub_steps == max_sub_steps,
            t.in_sub_step == self.in_sub_step,
            t.time_bank == self.time_bank,
    {
        let mut t = self;
        t.set_max_sub_steps(max_sub_steps);
        t
    }

    /// Set the physics max sub steps.
    /// This controls how many physics steps can be executed in a single
    /// frame. It's used to avoid spiral performance degradation.
    pub fn set_max_sub_steps(&mut self, max_sub_steps: u32)
        requires
            old(self).wf(),
        ensures
            final(self).wf(),
            final(self).delta_micros == old(self).delta_micros,
            final(self).max_sub_steps == max_sub_steps,
            final(self).in_sub_step == old(self).in_sub_step,
            final(self).time_bank == old(self).time_bank,
    {
        self.max_sub_steps = max_sub_steps;
        self.update_max_bank_size();
    }

    /// Set the sub-step duration; used internally by the configuration calls.
    fn set_delta_micros(&mut self, delta_micros: u64)
        requires
            1 <= delta_micros <= MICROS_PER_SECOND,
        ensures
            final(self).wf(),
            final(self).delta_micros == delta_micros,
            final(self).max_sub_steps == old(self).max_sub_steps,
            final(self).in_sub_step == old(self).in_sub_step,
            final(self).time_bank == old(self).time_bank,
    {
        self.delta_micros = delta_micros;
        self.update_max_bank_size();
    }

    /// Updates the max bank size according to the actual sub-step duration
    /// and the allowed sub-steps. Used internally.
    fn update_max_bank_size(&mut self)
        requires
            1 <= old(self).delta_micros <= MICROS_PER_SECOND,
        ensures
            final(self).wf(),
            final(self).delta_micros == old(self).delta_micros,
            final(self).max_sub_steps == old(self).max_sub_steps,
            final(self).in_sub_step == old(self).in_sub_step,
            final(self).time_bank == old(self).time_bank,
    {
        proof {
            let d = old(self).delta_micros as int;
            let m = old(self).max_sub_steps as int;
            assert(d * m <= MICROS_PER_SECOND * u32::MAX) by (nonlinear_arith)
                requires
                    0 <= d <= MICROS_PER_SECOND,
                    0 <= m <= u32::MAX,
            ;
        }
        self.max_bank_size = self.delta_micros * (self.max_sub_steps as u64);
    }

    /// The time bank after a deposit of `frame_delta` microseconds, clamped
    /// to the bank bound.
    pub open spec fn clamped_bank(self, frame_delta: u64) -> int {
        if self.time_bank + frame_delta >= self.max_bank_size {
            self.max_bank_size as int
        } else {
            self.time_bank + frame_delta
        }
    }

    /// One scheduler pass: deposit the frame's wall-clock delta into the time
    /// bank, clamp the bank (the spiral-of-death guard), and withdraw as many
    /// whole sub-steps as the bank can pay for. Returns the number of
    /// sub-steps the caller must dispatch; marks the sub-stepping phase as in
    /// progress until [`Self::end_sub_stepping`] is called.
    ///
    /// After any pass the remaining bank is smaller than one sub-step:
    /// `0 <= time_bank < delta_micros`.
    pub fn begin_sub_stepping(&mut self, frame_delta_micros: u64) -> (steps: u32)
        requires
            old(self).wf(),
        ensures
            final(self).wf(),
            final(self).in_sub_step,
            final(self).delta_micros == old(self).delta_micros,
            final(self).max_sub_steps == old(self).max_sub_steps,
            final(self).max_bank_size == old(self).max_bank_size,
            steps == old(self).clamped_bank(frame_delta_micros) / old(self).delta_micros as int,
            final(self).time_bank
                == old(self).clamped_bank(frame_delta_micros) % old(self).delta_micros as int,
            final(self).time_bank < final(self).delta_micros,
            steps <= old(self).max_sub_steps,
    {
        self.in_sub_step = true;

        if self.time_bank >= self.max_bank_size {
            self.time_bank = self.max_bank_size;
        } else if frame_delta_micros >= self.max_bank_size - self.time_bank {
            self.time_bank = self.max_bank_size;
        } else {
            self.time_bank = self.time_bank + frame_delta_micros;
        }

        let steps64: u64 = self.time_bank / self.delta_micros;
        proof {
            lemma_div_is_ordered(
                self.time_bank as int,
                self.max_bank_size as int,
                self.delta_micros as int,
            );
            lemma_div_multiples_vanish(
                self.max_sub_steps as int,
                self.delta_micros as int,
            );
        }
        self.time_bank = self.time_bank % self.delta_micros;
        steps64 as u32
    }

    /// Marks the end of the sub-stepping phase of a frame.
    pub fn end_sub_stepping(&mut self)
        ensures
            *final(self) == (PhysicsTime { in_sub_step: false, ..*old(self) }),
    {
        self.in_sub_step = false;
    }
}

impl Default for PhysicsTime {
    /// The default physics time: 60 sub-steps per second, at most 8 sub-steps
    /// per frame, an empty time bank, outside the sub-stepping phase.
    fn default() -> (t: Self)
        ensures
            t.wf(),
            t.delta_micros == MICROS_PER_SECOND as int / 60,
            t.max_sub_steps == 8,
            t.time_bank == 0,
            !t.in_sub_step,
    {
        let t = PhysicsTime {
            delta_micros: 1,
            max_sub_steps: 0,
            in_sub_step: false,
            max_bank_size: 0,
            time_bank: 0,
        };
        t.with_frames_per_second(60).with_max_sub_steps(8)
    }
}

} // verus!
