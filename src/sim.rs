//! The simulation state that lives for the whole run: pausing, the
//! generation count, the record of successes per generation, and the
//! scheduler.
use crate::schedule::{frame_taken, scaled_speed, step_taken, StepController, SLOW_DOWN, SPEED_UP};
use vstd::prelude::*;

verus! {

pub struct SimState {
    gen_is_complete: bool,
    gen_num: u32,
    successful_num: Vec<u32>,
    step_controller: StepController,
    is_paused: bool,
}

/// `after` differs from `before` in its pause flag alone.
pub open spec fn pause_toggled(before: SimState, after: SimState) -> bool {
    &&& after.paused() == !before.paused()
    &&& after.complete() == before.complete()
    &&& after.generation() == before.generation()
    &&& after.record() == before.record()
    &&& after.scheduler() == before.scheduler()
}

/// Pausing twice is doing nothing: the pause flag, the scheduler (and so
/// the steps gathered) and the rest of the state are as they were.
pub proof fn lemma_toggle_pause_twice(s0: SimState, s1: SimState, s2: SimState)
    requires
        pause_toggled(s0, s1),
        pause_toggled(s1, s2),
    ensures
        s2.paused() == s0.paused(),
        s2.scheduler() == s0.scheduler(),
        s2.complete() == s0.complete(),
        s2.generation() == s0.generation(),
        s2.record() == s0.record(),
{
}

impl SimState {
    /// The scheduler of steps.
    pub closed spec fn scheduler(&self) -> StepController {
        self.step_controller
    }

    /// Whether the simulation is paused.
    pub closed spec fn paused(&self) -> bool {
        self.is_paused
    }

    /// Whether the current generation has run all its steps and waits to be
    /// replaced.
    pub closed spec fn complete(&self) -> bool {
        self.gen_is_complete
    }

    /// Number of generations completed.
    pub closed spec fn generation(&self) -> nat {
        self.gen_num as nat
    }

    /// The number of successful agents recorded for each judged generation.
    pub closed spec fn record(&self) -> Seq<u32> {
        self.successful_num@
    }

    pub open spec fn wf(&self) -> bool {
        self.scheduler().wf()
    }

    /// A paused simulation at generation zero with nothing recorded.
    pub fn new(step_controller: StepController) -> (r: Self)
        requires
            step_controller.wf(),
        ensures
            r.wf(),
            r.paused(),
            !r.complete(),
            r.generation() == 0,
            r.record() == Seq::<u32>::empty(),
            r.scheduler() == step_controller,
    {
        SimState {
            gen_is_complete: false,
            gen_num: 0,
            successful_num: Vec::new(),
            step_controller,
            is_paused: true,
        }
    }

    /// Pauses a running simulation or resumes a paused one.
    pub fn toggle_pause(&mut self)
        ensures
            pause_toggled(*old(self), *final(self)),
    {
        self.is_paused = !self.is_paused;
    }

    pub fn is_paused(&self) -> (r: bool)
        ensures
            r == self.paused(),
    {
        self.is_paused
    }

    /// Marks the current generation as complete and counts it.
    pub fn gen_completed(&mut self)
        requires
            old(self).generation() < u32::MAX,
        ensures
            final(self).complete(),
            final(self).generation() == old(self).generation() + 1,
            final(self).paused() == old(self).paused(),
            final(self).record() == old(self).record(),
            final(self).scheduler() == old(self).scheduler(),
    {
        self.gen_is_complete = true;
        self.gen_num = self.gen_num + 1;
    }

    /// Marks the next generation as started.
    pub fn created_next_gen(&mut self)
        ensures
            !final(self).complete(),
            final(self).generation() == old(self).generation(),
            final(self).paused() == old(self).paused(),
            final(self).record() == old(self).record(),
            final(self).scheduler() == old(self).scheduler(),
    {
        self.gen_is_complete = false;
    }

    pub fn gen_is_complete(&self) -> (r: bool)
        ensures
            r == self.complete(),
    {
        self.gen_is_complete
    }

    /// Appends the number of successful agents of the judged generation.
    pub fn save_successful(&mut self, num: u32)
        ensures
            final(self).record() == old(self).record().push(num),
            final(self).complete() == old(self).complete(),
            final(self).generation() == old(self).generation(),
            final(self).paused() == old(self).paused(),
            final(self).scheduler() == old(self).scheduler(),
    {
        self.successful_num.push(num);
    }

    /// Number of generations completed.
    pub fn gen_num(&self) -> (r: u32)
        ensures
            r == self.generation(),
    {
        self.gen_num
    }

    /// The number of successful agents of each judged generation, in order.
    pub fn successful_counts(&self) -> (r: &Vec<u32>)
        ensures
            r@ == self.record(),
    {
        &self.successful_num
    }

    /// The scheduler of steps.
    pub fn step_controller(&self) -> (r: &StepController)
        ensures
            *r == self.scheduler(),
    {
        &self.step_controller
    }

    /// Runs the scheduler a quarter faster.
    pub fn increase_speed(&mut self)
        requires
            old(self).wf(),
        ensures
            final(self).wf(),
            final(self).scheduler().speed() == scaled_speed(
                old(self).scheduler().speed(),
                SPEED_UP.0 as nat,
                SPEED_UP.1 as nat,
            ),
            final(self).scheduler().accumulated() == 0,
            final(self).scheduler().step() == old(self).scheduler().step(),
            final(self).scheduler().max_steps_spec() == old(self).scheduler().max_steps_spec(),
            final(self).paused() == old(self).paused(),
            final(self).complete() == old(self).complete(),
            final(self).generation() == old(self).generation(),
            final(self).record() == old(self).record(),
    {
        self.step_controller.increase_speed();
    }

    /// Runs the scheduler at four fifths of its speed.
    pub fn decrease_speed(&mut self)
        requires
            old(self).wf(),
        ensures
            final(self).wf(),
            final(self).scheduler().speed() == scaled_speed(
                old(self).scheduler().speed(),
                SLOW_DOWN.0 as nat,
                SLOW_DOWN.1 as nat,
            ),
            final(self).scheduler().accumulated() == 0,
            final(self).scheduler().step() == old(self).scheduler().step(),
            final(self).scheduler().max_steps_spec() == old(self).scheduler().max_steps_spec(),
            final(self).paused() == old(self).paused(),
            final(self).complete() == old(self).complete(),
            final(self).generation() == old(self).generation(),
            final(self).record() == old(self).record(),
    {
        self.step_controller.decrease_speed();
    }

    /// The steps to run in a frame of `elapsed_micros`: none while paused,
    /// and then no time is gathered either; else what the scheduler owes.
    pub fn steps_for_frame(&mut self, elapsed_micros: u64) -> (r: u32)
        requires
            old(self).wf(),
        ensures
            final(self).wf(),
            old(self).paused() ==> r == 0 && *final(self) == *old(self),
            !old(self).paused() ==> frame_taken(
                old(self).scheduler(),
                elapsed_micros as nat,
                final(self).scheduler(),
                r as nat,
            ),
            final(self).paused() == old(self).paused(),
            final(self).complete() == old(self).complete(),
            final(self).generation() == old(self).generation(),
            final(self).record() == old(self).record(),
    {
        if self.is_paused {
            return 0;
        }
        self.step_controller.steps_next_frame(elapsed_micros)
    }

    /// Takes one simulation step; when it ends the generation, marks the
    /// generation complete and returns `true`.
    pub fn advance(&mut self) -> (r: bool)
        requires
            old(self).wf(),
            old(self).generation() < u32::MAX,
        ensures
            final(self).wf(),
            step_taken(old(self).scheduler(), final(self).scheduler(), r),
            r ==> final(self).complete() && final(self).generation() == old(self).generation() + 1,
            !r ==> final(self).complete() == old(self).complete() && final(self).generation()
                == old(self).generation(),
            final(self).paused() == old(self).paused(),
            final(self).record() == old(self).record(),
    {
        let complete = self.step_controller.add_step();
        if complete {
            self.gen_completed();
        }
        complete
    }
}

} // verus!
