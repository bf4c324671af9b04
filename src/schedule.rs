//! The generation scheduler: turns elapsed wall-clock time into a number of
//! simulation steps, and counts the steps of a generation.
//!
//! Time is kept in whole microseconds and speed in thousandths of a step per
//! second, so that the bookkeeping is exact: `a` microseconds at `s`
//! thousandths of a step per second are worth `a·s / 10^9` steps.
use vstd::prelude::*;

verus! {

/// The most steps a single frame runs, so that a stall is not followed by an
/// unbounded burst of work.
pub const MAX_STEPS_PER_FRAME: u32 = 20;

/// Microseconds times thousandths of a step per second that make one step.
pub const WORK_PER_STEP: u128 = 1_000_000_000;

/// Speed factor applied by `increase_speed`, as numerator and denominator.
pub const SPEED_UP: (u32, u32) = (5, 4);

/// Speed factor applied by `decrease_speed`, as numerator and denominator.
pub const SLOW_DOWN: (u32, u32) = (4, 5);

/// Whether `accumulated` microseconds at `speed` thousandths of a step per
/// second exceed the period of one step.
pub open spec fn period_elapsed(accumulated: nat, speed: nat) -> bool {
    accumulated * speed > WORK_PER_STEP
}

/// Steps owed for `accumulated` microseconds at `speed`: the time times the
/// speed, rounded half up, at most `MAX_STEPS_PER_FRAME`; none before a whole
/// period has passed.
pub open spec fn steps_owed(accumulated: nat, speed: nat) -> nat {
    if period_elapsed(accumulated, speed) {
        let rounded = ((accumulated * speed + WORK_PER_STEP / 2) / (WORK_PER_STEP as int)) as nat;
        if rounded > MAX_STEPS_PER_FRAME {
            MAX_STEPS_PER_FRAME as nat
        } else {
            rounded
        }
    } else {
        0
    }
}

/// Accumulated time after adding `elapsed`, held at the largest `u64`.
pub open spec fn accumulate(accumulated: nat, elapsed: nat) -> nat {
    if accumulated + elapsed > u64::MAX {
        u64::MAX as nat
    } else {
        accumulated + elapsed
    }
}

/// Speed after scaling by `numerator / denominator`, rounded down and held at
/// the largest `u64`.
pub open spec fn scaled_speed(speed: nat, numerator: nat, denominator: nat) -> nat {
    let s = speed * numerator / denominator;
    if s > u64::MAX {
        u64::MAX as nat
    } else {
        s
    }
}

pub struct StepController {
    millisteps_per_second: u64,
    current_step: u32,
    max_steps: u32,
    accumulated_micros: u64,
}

/// `after` and `steps` are what one frame of `elapsed` microseconds makes of `before`.
pub open spec fn frame_taken(before: StepController, elapsed: nat, after: StepController, steps: nat) -> bool {
    let acc = accumulate(before.accumulated(), elapsed);
    &&& steps == steps_owed(acc, before.speed())
    &&& after.accumulated() == if period_elapsed(acc, before.speed()) {
        0
    } else {
        acc
    }
    &&& after.speed() == before.speed()
    &&& after.step() == before.step()
    &&& after.max_steps_spec() == before.max_steps_spec()
}

/// `after` is `before` with one more step taken; `complete` says whether
/// that step ended the generation, which starts the count again.
pub open spec fn step_taken(before: StepController, after: StepController, complete: bool) -> bool {
    &&& complete == (before.step() + 1 >= before.max_steps_spec())
    &&& after.step() == if complete {
        0
    } else {
        before.step() + 1
    }
    &&& after.speed() == before.speed()
    &&& after.accumulated() == before.accumulated()
    &&& after.max_steps_spec() == before.max_steps_spec()
}

impl StepController {
    /// Speed in thousandths of a step per second.
    pub closed spec fn speed(&self) -> nat {
        self.millisteps_per_second as nat
    }

    /// Steps taken in the current generation.
    pub closed spec fn step(&self) -> nat {
        self.current_step as nat
    }

    /// Steps in a generation.
    pub closed spec fn max_steps_spec(&self) -> nat {
        self.max_steps as nat
    }

    /// Microseconds gathered towards the next steps.
    pub closed spec fn accumulated(&self) -> nat {
        self.accumulated_micros as nat
    }

    /// The step count is back at zero, or short of a whole generation.
    pub open spec fn wf(&self) -> bool {
        self.step() == 0 || self.step() < self.max_steps_spec()
    }

    /// A scheduler at step zero, running `steps_per_second` steps each second
    /// and `max_steps` steps each generation.
    pub fn new(steps_per_second: u32, max_steps: u32) -> (r: Self)
        ensures
            r.wf(),
            r.speed() == steps_per_second * 1000,
            r.step() == 0,
            r.max_steps_spec() == max_steps,
            r.accumulated() == 0,
    {
        StepController {
            millisteps_per_second: steps_per_second as u64 * 1000,
            current_step: 0,
            max_steps,
            accumulated_micros: 0,
        }
    }

    /// Adds a frame of `elapsed_micros` to the gathered time; once that time
    /// exceeds one step's period, returns the steps it is worth and starts
    /// gathering again from zero, else returns zero.
    pub fn steps_next_frame(&mut self, elapsed_micros: u64) -> (r: u32)
        requires
            old(self).wf(),
        ensures
            final(self).wf(),
            frame_taken(*old(self), elapsed_micros as nat, *final(self), r as nat),
    {
        let acc = self.accumulated_micros.saturating_add(elapsed_micros);
        proof {
            assert(acc * self.millisteps_per_second <= 0xffff_ffff_ffff_ffff * 0xffff_ffff_ffff_ffff)
                by (nonlinear_arith)
                requires
                    acc <= 0xffff_ffff_ffff_ffff,
                    self.millisteps_per_second <= 0xffff_ffff_ffff_ffff,
            ;
        }
        let work = acc as u128 * self.millisteps_per_second as u128;
        if work > WORK_PER_STEP {
            let rounded = (work + WORK_PER_STEP / 2) / WORK_PER_STEP;
            self.accumulated_micros = 0;
            if rounded > MAX_STEPS_PER_FRAME as u128 {
                MAX_STEPS_PER_FRAME
            } else {
                rounded as u32
            }
        } else {
            self.accumulated_micros = acc;
            0
        }
    }

    /// Takes one step; returns whether it completed the generation, in which
    /// case the count starts again at zero.
    pub fn add_step(&mut self) -> (r: bool)
        requires
            old(self).wf(),
        ensures
            final(self).wf(),
            step_taken(*old(self), *final(self), r),
    {
        self.current_step = self.current_step + 1;
        if self.current_step >= self.max_steps {
            self.current_step = 0;
            true
        } else {
            false
        }
    }

    /// Scales the speed by `numerator / denominator` and restarts the
    /// gathering of time, as the step period has changed.
    pub fn change_speed(&mut self, numerator: u32, denominator: u32)
        requires
            old(self).wf(),
            denominator > 0,
        ensures
            final(self).wf(),
            final(self).speed() == scaled_speed(old(self).speed(), numerator as nat, denominator as nat),
            final(self).accumulated() == 0,
            final(self).step() == old(self).step(),
            final(self).max_steps_spec() == old(self).max_steps_spec(),
    {
        proof {
            assert(self.millisteps_per_second * numerator <= 0xffff_ffff_ffff_ffff * 0xffff_ffff)
                by (nonlinear_arith)
                requires
                    self.millisteps_per_second <= 0xffff_ffff_ffff_ffff,
                    numerator <= 0xffff_ffff,
            ;
        }
        let scaled = self.millisteps_per_second as u128 * numerator as u128 / denominator as u128;
        self.millisteps_per_second = if scaled > u64::MAX as u128 {
            u64::MAX
        } else {
            scaled as u64
        };
        self.accumulated_micros = 0;
    }

    /// Runs a quarter faster.
    pub fn increase_speed(&mut self)
        requires
            old(self).wf(),
        ensures
            final(self).wf(),
            final(self).speed() == scaled_speed(old(self).speed(), SPEED_UP.0 as nat, SPEED_UP.1 as nat),
            final(self).accumulated() == 0,
            final(self).step() == old(self).step(),
            final(self).max_steps_spec() == old(self).max_steps_spec(),
    {
        self.change_speed(SPEED_UP.0, SPEED_UP.1);
    }

    /// Runs at four fifths of the speed.
    pub fn decrease_speed(&mut self)
        requires
            old(self).wf(),
        ensures
            final(self).wf(),
            final(self).speed() == scaled_speed(old(self).speed(), SLOW_DOWN.0 as nat, SLOW_DOWN.1 as nat),
            final(self).accumulated() == 0,
            final(self).step() == old(self).step(),
            final(self).max_steps_spec() == old(self).max_steps_spec(),
    {
        self.change_speed(SLOW_DOWN.0, SLOW_DOWN.1);
    }

    /// Steps taken in the current generation.
    pub fn current_step(&self) -> (r: u32)
        ensures
            r == self.step(),
    {
        self.current_step
    }

    /// Steps in a generation.
    pub fn max_steps(&self) -> (r: u32)
        ensures
            r == self.max_steps_spec(),
    {
        self.max_steps
    }

    /// Speed in thousandths of a step per second.
    pub fn millisteps_per_second(&self) -> (r: u64)
        ensures
            r == self.speed(),
    {
        self.millisteps_per_second
    }

    /// Microseconds gathered towards the next steps.
    pub fn accumulated_micros(&self) -> (r: u64)
        ensures
            r == self.accumulated(),
    {
        self.accumulated_micros
    }
}

} // verus!
