//! The authoritative snapshot of the timer: current phase, time left or
//! elapsed, iteration bookkeeping and the configured totals.

use vstd::prelude::*;

use crate::counter::TimerState;

verus! {

/// Mathematical image of a [`TimerData`].
pub ghost struct TimerDataModel {
    pub iteration: int,
    pub time_left: int,
    pub total_iterations: int,
    pub total_time: int,
    pub total_elapsed: int,
    pub work_state: TimerState,
    pub break_state: TimerState,
    pub current_state: TimerState,
}

/// Owned exclusively by the timer facade; consumers only ever see
/// read-only copies of the values held here.
#[derive(Debug, Clone)]
pub struct TimerData {
    iteration: u8,
    time_left: i64,
    total_iterations: u8,
    total_time: i64,
    total_elapsed: i64,
    work_state: TimerState,
    break_state: TimerState,
    current_state: TimerState,
}

impl View for TimerData {
    type V = TimerDataModel;

    closed spec fn view(&self) -> TimerDataModel {
        TimerDataModel {
            iteration: self.iteration as int,
            time_left: self.time_left as int,
            total_iterations: self.total_iterations as int,
            total_time: self.total_time as int,
            total_elapsed: self.total_elapsed as int,
            work_state: self.work_state,
            break_state: self.break_state,
            current_state: self.current_state,
        }
    }
}

impl TimerData {
    /// A fresh snapshot: the first iteration, nothing elapsed yet, and the
    /// work phase active.
    pub fn new(
        time_left: i64,
        total_iterations: u8,
        total_time: i64,
        work_state: TimerState,
        break_state: TimerState,
    ) -> (d: TimerData)
        ensures
            d@ == (TimerDataModel {
                iteration: 1,
                time_left: time_left as int,
                total_iterations: total_iterations as int,
                total_time: total_time as int,
                total_elapsed: 0,
                work_state,
                break_state,
                current_state: work_state,
            }),
    {
        Self {
            iteration: 1,
            time_left,
            total_iterations,
            total_time,
            total_elapsed: 0,
            work_state,
            break_state,
            current_state: work_state,
        }
    }

    /// One-based count of the work phase now underway.
    pub fn iteration(&self) -> (r: u8)
        ensures
            r == self@.iteration,
    {
        self.iteration
    }

    /// Seconds remaining (countdown) or elapsed (countup) in this phase.
    pub fn time_left(&self) -> (r: i64)
        ensures
            r == self@.time_left,
    {
        self.time_left
    }

    /// Number of work phases the run is configured for.
    pub fn total_iterations(&self) -> (r: u8)
        ensures
            r == self@.total_iterations,
    {
        self.total_iterations
    }

    /// Configured duration of the whole run, in seconds.
    pub fn total_time(&self) -> (r: i64)
        ensures
            r == self@.total_time,
    {
        self.total_time
    }

    /// Seconds of work completed since the run started.
    pub fn total_elapsed(&self) -> (r: i64)
        ensures
            r == self@.total_elapsed,
    {
        self.total_elapsed
    }

    /// The configured work phase.
    pub fn work_state(&self) -> (r: TimerState)
        ensures
            r == self@.work_state,
    {
        self.work_state
    }

    /// The configured break phase.
    pub fn break_state(&self) -> (r: TimerState)
        ensures
            r == self@.break_state,
    {
        self.break_state
    }

    /// The phase now active.
    pub fn current_state(&self) -> (r: TimerState)
        ensures
            r == self@.current_state,
    {
        self.current_state
    }

    pub fn set_iteration(&mut self, iteration: u8)
        ensures
            final(self)@ == (TimerDataModel { iteration: iteration as int, ..old(self)@ }),
    {
        self.iteration = iteration;
    }

    pub fn set_time_left(&mut self, time_left: i64)
        ensures
            final(self)@ == (TimerDataModel { time_left: time_left as int, ..old(self)@ }),
    {
        self.time_left = time_left;
    }

    pub fn set_total_iterations(&mut self, total_iterations: u8)
        ensures
            final(self)@ == (TimerDataModel {
                total_iterations: total_iterations as int,
                ..old(self)@
            }),
    {
        self.total_iterations = total_iterations;
    }

    pub fn set_total_time(&mut self, total_time: i64)
        ensures
            final(self)@ == (TimerDataModel { total_time: total_time as int, ..old(self)@ }),
    {
        self.total_time = total_time;
    }

    pub fn set_total_elapsed(&mut self, total_elapsed: i64)
        ensures
            final(self)@ == (TimerDataModel { total_elapsed: total_elapsed as int, ..old(self)@ }),
    {
        self.total_elapsed = total_elapsed;
    }

    pub fn set_work_state(&mut self, work_state: TimerState)
        ensures
            final(self)@ == (TimerDataModel { work_state, ..old(self)@ }),
    {
        self.work_state = work_state;
    }

    pub fn set_break_state(&mut self, break_state: TimerState)
        ensures
            final(self)@ == (TimerDataModel { break_state, ..old(self)@ }),
    {
        self.break_state = break_state;
    }

    pub fn set_current_state(&mut self, current_state: TimerState)
        ensures
            final(self)@ == (TimerDataModel { current_state, ..old(self)@ }),
    {
        self.current_state = current_state;
    }
}

} // verus!
