//! The timer facade: the authoritative state machine between the control
//! surface and the clock driver. It decides phase changes, restarts and
//! configuration changes, and answers each published tick.
//!
//! Commands for the clock driver are returned to the caller in the order
//! they must be sent; the channel that carries them, and the task that
//! sleeps and ticks, live outside this crate. Configuration reaches this
//! type only as an immutable [`TimerSettings`] snapshot.

use vstd::prelude::*;

use crate::counter::{duration_of, CounterMode, TimerCommand, TimerState};
use crate::settings::{PomodoroSettings, TimerSettings};
use crate::timer_data::{TimerData, TimerDataModel};

verus! {

/// Mathematical image of a [`Timer`].
pub ghost struct TimerModel {
    pub running: bool,
    pub mode: CounterMode,
    pub data: TimerDataModel,
}

/// Durations a restart can accept: phases cannot be negative, and the
/// longest run — a work phase for every possible iteration — must still be
/// measurable in seconds on the machine.
pub open spec fn spec_settings_ok(work_time: i64, break_time: i64) -> bool {
    &&& 0 <= work_time
    &&& 0 <= break_time
    &&& work_time * 255 <= i64::MAX
}

/// The work phase a restart or phase change derives: under countup the
/// work phase is open-ended and starts from zero, under countdown it takes
/// the configured duration.
pub open spec fn spec_reset_work(m: TimerModel, work_time: i64) -> TimerState {
    match m.mode {
        CounterMode::Countup => TimerState::Work(0),
        CounterMode::Countdown => TimerState::Work(work_time),
    }
}

/// The break phase a restart or phase change derives: under countup the
/// break lasts one fifth of the work time elapsed at that moment, under
/// countdown it takes the configured duration.
pub open spec fn spec_reset_break(m: TimerModel, break_time: i64) -> TimerState {
    match m.mode {
        CounterMode::Countup => TimerState::Break((m.data.time_left / 5) as i64),
        CounterMode::Countdown => TimerState::Break(break_time),
    }
}

/// The timer after advancing one phase: work and break are re-derived,
/// the current phase swaps to the other one, the iteration count rises by
/// one exactly when the new phase is work, and the timer resumes running
/// unless the pause preference holds it.
pub open spec fn spec_next_iteration(
    m: TimerModel,
    work_time: i64,
    break_time: i64,
    pause_after: bool,
) -> TimerModel {
    let w = spec_reset_work(m, work_time);
    let b = spec_reset_break(m, break_time);
    let cur = if m.data.current_state is Work {
        b
    } else {
        w
    };
    TimerModel {
        running: !pause_after,
        mode: m.mode,
        data: TimerDataModel {
            iteration: if cur is Work {
                m.data.iteration + 1
            } else {
                m.data.iteration
            },
            time_left: duration_of(cur),
            total_iterations: m.data.total_iterations,
            total_time: m.data.total_time,
            total_elapsed: if cur is Work {
                m.data.total_elapsed + 1
            } else {
                m.data.total_elapsed
            },
            work_state: w,
            break_state: b,
            current_state: cur,
        },
    }
}

/// The commands a phase advance sends to the clock driver, in order:
/// under countup, first the tick direction for the phase ahead; then a
/// stop, the new phase, and a start unless the pause preference holds.
pub open spec fn spec_next_iteration_cmds(
    m: TimerModel,
    work_time: i64,
    break_time: i64,
    pause_after: bool,
) -> Seq<TimerCommand> {
    let cur = spec_next_iteration(m, work_time, break_time, pause_after).data.current_state;
    let mode_cmds: Seq<TimerCommand> = if m.mode is Countup {
        if cur is Break {
            seq![TimerCommand::ChangeMode(CounterMode::Countdown)]
        } else {
            seq![TimerCommand::ChangeMode(CounterMode::Countup)]
        }
    } else {
        Seq::empty()
    };
    let tail: Seq<TimerCommand> = if pause_after {
        Seq::empty()
    } else {
        seq![TimerCommand::Start]
    };
    mode_cmds + seq![TimerCommand::Stop, TimerCommand::NextIteration(cur)] + tail
}

/// The timer after a restart: back to the first iteration, the work phase
/// active, nothing elapsed, and the configured total re-derived as one
/// work duration for every iteration.
pub open spec fn spec_restart(m: TimerModel, work_time: i64, break_time: i64) -> TimerModel {
    let w = spec_reset_work(m, work_time);
    let b = spec_reset_break(m, break_time);
    TimerModel {
        running: false,
        mode: m.mode,
        data: TimerDataModel {
            iteration: 1,
            time_left: duration_of(w),
            total_iterations: m.data.total_iterations,
            total_time: duration_of(w) * m.data.total_iterations,
            total_elapsed: 0,
            work_state: w,
            break_state: b,
            current_state: w,
        },
    }
}

/// What answering one tick value did.
#[derive(Debug, Clone, Copy, PartialEq, Eq, Structural)]
pub enum TimerTickOutcome {
    /// The phase boundary was crossed and the timer moved to the next phase.
    Advanced,
    /// The final work phase ended: the run is over.
    Finished,
    /// An ordinary tick; the bookkeeping was updated.
    Ticked,
}

/// Mediates between the control surface and the clock driver. Owns the
/// authoritative [`TimerData`] snapshot; consumers get copies.
#[derive(Debug, Clone)]
pub struct Timer {
    countdown_running: bool,
    counter_mode: CounterMode,
    timer_data: TimerData,
}

impl View for Timer {
    type V = TimerModel;

    closed spec fn view(&self) -> TimerModel {
        TimerModel {
            running: self.countdown_running,
            mode: self.counter_mode,
            data: self.timer_data@,
        }
    }
}

impl Timer {
    /// A stopped timer on its first iteration, in the work phase.
    pub fn new(
        time_left: i64,
        total_iterations: u8,
        total_time: i64,
        work_state: TimerState,
        break_state: TimerState,
        counter_mode: CounterMode,
    ) -> (t: Timer)
        ensures
            t@ == (TimerModel {
                running: false,
                mode: counter_mode,
                data: TimerDataModel {
                    iteration: 1,
                    time_left: time_left as int,
                    total_iterations: total_iterations as int,
                    total_time: total_time as int,
                    total_elapsed: 0,
                    work_state,
                    break_state,
                    current_state: work_state,
                },
            }),
    {
        Self {
            counter_mode,
            countdown_running: false,
            timer_data: TimerData::new(
                time_left,
                total_iterations,
                total_time,
                work_state,
                break_state,
            ),
        }
    }

    /// The duration a phase carries, in seconds.
    pub fn get_duration(pomodoro_state: &TimerState) -> (d: i64)
        ensures
            d == duration_of(*pomodoro_state),
    {
        match pomodoro_state {
            TimerState::Work(dur) | TimerState::Break(dur) => *dur,
        }
    }

    /// Marks the timer running and yields the start command for the clock
    /// driver.
    pub fn start(&mut self) -> (cmds: Vec<TimerCommand>)
        ensures
            final(self)@ == (TimerModel { running: true, ..old(self)@ }),
            cmds@ == seq![TimerCommand::Start],
    {
        self.countdown_running = true;
        let mut cmds: Vec<TimerCommand> = Vec::new();
        cmds.push(TimerCommand::Start);
        proof {
            assert(cmds@ =~= seq![TimerCommand::Start]);
        }
        cmds
    }

    /// Marks the timer stopped and yields the stop command for the clock
    /// driver.
    pub fn stop(&mut self) -> (cmds: Vec<TimerCommand>)
        ensures
            final(self)@ == (TimerModel { running: false, ..old(self)@ }),
            cmds@ == seq![TimerCommand::Stop],
    {
        self.countdown_running = false;
        let mut cmds: Vec<TimerCommand> = Vec::new();
        cmds.push(TimerCommand::Stop);
        proof {
            assert(cmds@ =~= seq![TimerCommand::Stop]);
        }
        cmds
    }

    /// Re-derives the work and break phases: from the elapsed count under
    /// countup, from the configured durations under countdown.
    fn reset_time_states(&mut self, settings: &TimerSettings)
        requires
            old(self)@.mode is Countup ==> 0 <= old(self)@.data.time_left,
        ensures
            final(self)@ == (TimerModel {
                data: TimerDataModel {
                    work_state: spec_reset_work(old(self)@, settings.work_time),
                    break_state: spec_reset_break(old(self)@, settings.break_time),
                    ..old(self)@.data
                },
                ..old(self)@
            }),
    {
        match self.counter_mode {
            CounterMode::Countup => {
                let fifth = self.timer_data.time_left() / 5;
                self.timer_data.set_break_state(TimerState::Break(fifth));
                self.timer_data.set_work_state(TimerState::Work(0));
            },
            CounterMode::Countdown => {
                self.timer_data.set_work_state(TimerState::Work(settings.work_time));
                self.timer_data.set_break_state(TimerState::Break(settings.break_time));
            },
        }
    }

    /// Swaps the current phase for the other one and takes over its
    /// duration as the new time value.
    fn swap_state(&mut self)
        requires
            old(self)@.data.total_elapsed < i64::MAX,
        ensures
            ({
                let cur = if old(self)@.data.current_state is Work {
                    old(self)@.data.break_state
                } else {
                    old(self)@.data.work_state
                };
                final(self)@ == (TimerModel {
                    data: TimerDataModel {
                        current_state: cur,
                        time_left: duration_of(cur),
                        total_elapsed: if cur is Work {
                            old(self)@.data.total_elapsed + 1
                        } else {
                            old(self)@.data.total_elapsed
                        },
                        ..old(self)@.data
                    },
                    ..old(self)@
                })
            }),
    {
        let next = match self.timer_data.current_state() {
            TimerState::Work(_) => self.timer_data.break_state(),
            TimerState::Break(_) => self.timer_data.work_state(),
        };
        self.timer_data.set_current_state(next);
        let duration = Timer::get_duration(&next);
        self.handle_time_left(duration);
    }

    /// Books one published tick value: stores it, and counts the second
    /// towards the total elapsed work when the work phase is active.
    pub fn handle_time_left(&mut self, time: i64)
        requires
            old(self)@.data.current_state is Work ==> old(self)@.data.total_elapsed < i64::MAX,
        ensures
            final(self)@ == (TimerModel {
                data: TimerDataModel {
                    time_left: time as int,
                    total_elapsed: if old(self)@.data.current_state is Work {
                        old(self)@.data.total_elapsed + 1
                    } else {
                        old(self)@.data.total_elapsed
                    },
                    ..old(self)@.data
                },
                ..old(self)@
            }),
    {
        self.timer_data.set_time_left(time);
        if let TimerState::Work(_) = self.timer_data.current_state() {
            let elapsed = self.timer_data.total_elapsed();
            self.timer_data.set_total_elapsed(elapsed + 1);
        }
    }

    /// Advances to the next phase: swaps work and break, counts the
    /// iteration when work begins, tells the clock driver which way to
    /// tick, and resumes unless the pause preference holds.
    pub fn next_iteration(&mut self, settings: &TimerSettings, pause_after: bool) -> (cmds: Vec<
        TimerCommand,
    >)
        requires
            old(self)@.mode is Countup ==> 0 <= old(self)@.data.time_left,
            old(self)@.data.total_elapsed < i64::MAX,
            old(self)@.data.iteration < 255,
        ensures
            final(self)@ == spec_next_iteration(
                old(self)@,
                settings.work_time,
                settings.break_time,
                pause_after,
            ),
            cmds@ == spec_next_iteration_cmds(
                old(self)@,
                settings.work_time,
                settings.break_time,
                pause_after,
            ),
    {
        let ghost m0 = self@;
        self.countdown_running = false;
        let mut cmds: Vec<TimerCommand> = Vec::new();
        self.reset_time_states(settings);
        self.swap_state();
        match (self.timer_data.current_state(), self.counter_mode) {
            (TimerState::Break(_), CounterMode::Countup) => {
                cmds.push(TimerCommand::ChangeMode(CounterMode::Countdown));
            },
            (TimerState::Work(_), CounterMode::Countup) => {
                cmds.push(TimerCommand::ChangeMode(CounterMode::Countup));
            },
            _ => {},
        }
        self.countdown_running = false;
        cmds.push(TimerCommand::Stop);
        cmds.push(TimerCommand::NextIteration(self.timer_data.current_state()));
        if let TimerState::Work(_) = self.timer_data.current_state() {
            let it = self.timer_data.iteration();
            self.timer_data.set_iteration(it + 1);
        }
        if !pause_after {
            self.countdown_running = true;
            cmds.push(TimerCommand::Start);
        }
        proof {
            assert(cmds@ =~= spec_next_iteration_cmds(
                m0,
                settings.work_time,
                settings.break_time,
                pause_after,
            ));
        }
        cmds
    }

    /// Stops and resets the run: iteration one, the work phase active,
    /// nothing elapsed, and the configured total re-derived.
    pub fn restart(&mut self, settings: &TimerSettings) -> (cmds: Vec<TimerCommand>)
        requires
            old(self)@.mode is Countup ==> 0 <= old(self)@.data.time_left,
            spec_settings_ok(settings.work_time, settings.break_time),
        ensures
            final(self)@ == spec_restart(old(self)@, settings.work_time, settings.break_time),
            cmds@ == seq![
                TimerCommand::Restart(
                    spec_reset_work(old(self)@, settings.work_time),
                ),
            ],
    {
        let ghost m0 = self@;
        self.countdown_running = false;
        self.reset_time_states(settings);
        let work = self.timer_data.work_state();
        self.timer_data.set_current_state(work);
        self.timer_data.set_iteration(1);
        self.timer_data.set_time_left(Timer::get_duration(&work));
        self.timer_data.set_total_elapsed(0);
        self.init_total_time();
        let mut cmds: Vec<TimerCommand> = Vec::new();
        cmds.push(TimerCommand::Restart(work));
        proof {
            assert(cmds@ =~= seq![
                TimerCommand::Restart(spec_reset_work(m0, settings.work_time)),
            ]);
        }
        cmds
    }

    /// Applies one configuration change. Refused — nothing changes and no
    /// command is produced — exactly when the timer is running; otherwise
    /// the facet is taken over and the run restarts with it.
    pub fn set_setting(&mut self, setting: PomodoroSettings, settings: &TimerSettings) -> (r:
        Option<Vec<TimerCommand>>)
        requires
            old(self)@.mode is Countup ==> 0 <= old(self)@.data.time_left,
            spec_settings_ok(settings.work_time, settings.break_time),
        ensures
            r is None <==> old(self)@.running,
            old(self)@.running ==> final(self)@ == old(self)@,
            !old(self)@.running ==> ({
                let changed = TimerModel {
                    data: TimerDataModel {
                        total_iterations: match setting {
                            PomodoroSettings::Iterations(n) => n as int,
                            _ => old(self)@.data.total_iterations,
                        },
                        work_state: match setting {
                            PomodoroSettings::WorkTime(t) => TimerState::Work(t),
                            _ => old(self)@.data.work_state,
                        },
                        break_state: match setting {
                            PomodoroSettings::BreakTime(t) => TimerState::Break(t),
                            _ => old(self)@.data.break_state,
                        },
                        ..old(self)@.data
                    },
                    ..old(self)@
                };
                &&& final(self)@ == spec_restart(changed, settings.work_time, settings.break_time)
                &&& r.unwrap()@ == seq![
                    TimerCommand::Restart(spec_reset_work(changed, settings.work_time)),
                ]
            }),
    {
        if self.countdown_running {
            return None;
        }
        match setting {
            PomodoroSettings::Iterations(iterations) => self.timer_data.set_total_iterations(
                iterations,
            ),
            PomodoroSettings::WorkTime(t) => self.timer_data.set_work_state(TimerState::Work(t)),
            PomodoroSettings::BreakTime(t) => self.timer_data.set_break_state(
                TimerState::Break(t),
            ),
        }
        Some(self.restart(settings))
    }

    /// Changes the tick direction policy: the clock driver is told first,
    /// then the run restarts under the new mode.
    pub fn set_counter_mode(&mut self, mode: CounterMode, settings: &TimerSettings) -> (cmds: Vec<
        TimerCommand,
    >)
        requires
            mode is Countup ==> 0 <= old(self)@.data.time_left,
            spec_settings_ok(settings.work_time, settings.break_time),
        ensures
            ({
                let switched = TimerModel { mode, ..old(self)@ };
                &&& final(self)@ == spec_restart(switched, settings.work_time, settings.break_time)
                &&& cmds@ == seq![TimerCommand::ChangeMode(mode)] + seq![
                    TimerCommand::Restart(spec_reset_work(switched, settings.work_time)),
                ]
            }),
    {
        let mut cmds: Vec<TimerCommand> = Vec::new();
        cmds.push(TimerCommand::ChangeMode(mode));
        self.counter_mode = mode;
        let mut rest = self.restart(settings);
        cmds.append(&mut rest);
        proof {
            let switched = TimerModel { mode, ..old(self)@ };
            assert(cmds@ =~= seq![TimerCommand::ChangeMode(mode)] + seq![
                TimerCommand::Restart(spec_reset_work(switched, settings.work_time)),
            ]);
        }
        cmds
    }

    /// Answers one tick value from the clock driver. The terminal tick
    /// advances the phase while iterations remain; at the last work phase
    /// it ends the run instead — the timer stops, without a further
    /// iteration count, and resets for the next one. Any other value is
    /// ordinary bookkeeping.
    pub fn handle_timer_response(
        &mut self,
        time: i64,
        settings: &TimerSettings,
        pause_after: bool,
    ) -> (r: (TimerTickOutcome, Vec<TimerCommand>))
        requires
            old(self)@.mode is Countup ==> 0 <= old(self)@.data.time_left,
            spec_settings_ok(settings.work_time, settings.break_time),
            old(self)@.data.total_elapsed < i64::MAX,
        ensures
            time == -1 && old(self)@.data.iteration < old(self)@.data.total_iterations ==> ({
                &&& r.0 == TimerTickOutcome::Advanced
                &&& final(self)@ == spec_next_iteration(
                    old(self)@,
                    settings.work_time,
                    settings.break_time,
                    pause_after,
                )
                &&& r.1@ == spec_next_iteration_cmds(
                    old(self)@,
                    settings.work_time,
                    settings.break_time,
                    pause_after,
                )
            }),
            time == -1 && old(self)@.data.iteration >= old(self)@.data.total_iterations ==> ({
                let stopped = TimerModel { running: false, ..old(self)@ };
                &&& r.0 == TimerTickOutcome::Finished
                &&& final(self)@ == spec_restart(stopped, settings.work_time, settings.break_time)
                &&& r.1@ == seq![TimerCommand::Stop] + seq![
                    TimerCommand::Restart(spec_reset_work(stopped, settings.work_time)),
                ]
            }),
            time != -1 ==> ({
                &&& r.0 == TimerTickOutcome::Ticked
                &&& r.1@ == Seq::<TimerCommand>::empty()
                &&& final(self)@ == (TimerModel {
                    data: TimerDataModel {
                        time_left: time as int,
                        total_elapsed: if old(self)@.data.current_state is Work {
                            old(self)@.data.total_elapsed + 1
                        } else {
                            old(self)@.data.total_elapsed
                        },
                        ..old(self)@.data
                    },
                    ..old(self)@
                })
            }),
    {
        if time == -1 && self.timer_data.iteration() < self.timer_data.total_iterations() {
            let cmds = self.next_iteration(settings, pause_after);
            (TimerTickOutcome::Advanced, cmds)
        } else if time == -1 {
            let mut cmds = self.stop();
            let mut rest = self.restart(settings);
            cmds.append(&mut rest);
            proof {
                let stopped = TimerModel { running: false, ..old(self)@ };
                assert(cmds@ =~= seq![TimerCommand::Stop] + seq![
                    TimerCommand::Restart(spec_reset_work(stopped, settings.work_time)),
                ]);
            }
            (TimerTickOutcome::Finished, cmds)
        } else {
            self.handle_time_left(time);
            let cmds: Vec<TimerCommand> = Vec::new();
            proof {
                assert(cmds@ =~= Seq::<TimerCommand>::empty());
            }
            (TimerTickOutcome::Ticked, cmds)
        }
    }

    /// Re-derives the configured total: one work duration for every
    /// iteration of the run.
    pub fn init_total_time(&mut self)
        requires
            0 <= duration_of(old(self)@.data.work_state),
            duration_of(old(self)@.data.work_state) * 255 <= i64::MAX,
        ensures
            final(self)@ == (TimerModel {
                data: TimerDataModel {
                    total_time: duration_of(old(self)@.data.work_state)
                        * old(self)@.data.total_iterations,
                    ..old(self)@.data
                },
                ..old(self)@
            }),
    {
        let duration = Timer::get_duration(&self.timer_data.work_state());
        let iterations = self.timer_data.total_iterations();
        proof {
            assert(0 <= duration * (iterations as int) <= duration * 255) by (nonlinear_arith)
                requires
                    0 <= duration,
                    0 <= iterations <= 255,
            ;
        }
        let total = duration * (iterations as i64);
        self.timer_data.set_total_time(total);
    }

    /// Whether the timer is running.
    pub fn get_running(&self) -> (r: bool)
        ensures
            r == self@.running,
    {
        self.countdown_running
    }

    /// Overrides the running flag without telling the clock driver.
    pub fn set_running(&mut self, state: bool)
        ensures
            final(self)@ == (TimerModel { running: state, ..old(self)@ }),
    {
        self.countdown_running = state;
    }

    /// Whether any work second has been counted since the last restart.
    pub fn timer_started(&self) -> (r: bool)
        ensures
            r == (self@.data.total_elapsed != 0),
    {
        self.timer_data.total_elapsed() != 0
    }

    /// The configured break phase.
    pub fn break_state(&self) -> (r: TimerState)
        ensures
            r == self@.data.break_state,
    {
        self.timer_data.break_state()
    }

    /// The phase now active.
    pub fn current_state(&self) -> (r: TimerState)
        ensures
            r == self@.data.current_state,
    {
        self.timer_data.current_state()
    }

    /// One-based count of the work phase now underway.
    pub fn iteration(&self) -> (r: u8)
        ensures
            r == self@.data.iteration,
    {
        self.timer_data.iteration()
    }

    /// Counts one more work phase.
    pub fn increment_iteration(&mut self)
        requires
            old(self)@.data.iteration < 255,
        ensures
            final(self)@ == (TimerModel {
                data: TimerDataModel {
                    iteration: old(self)@.data.iteration + 1,
                    ..old(self)@.data
                },
                ..old(self)@
            }),
    {
        let it = self.timer_data.iteration();
        self.timer_data.set_iteration(it + 1);
    }

    pub fn set_current_state(&mut self, current_state: TimerState)
        ensures
            final(self)@ == (TimerModel {
                data: TimerDataModel { current_state, ..old(self)@.data },
                ..old(self)@
            }),
    {
        self.timer_data.set_current_state(current_state)
    }

    pub fn set_iteration(&mut self, iteration: u8)
        ensures
            final(self)@ == (TimerModel {
                data: TimerDataModel { iteration: iteration as int, ..old(self)@.data },
                ..old(self)@
            }),
    {
        self.timer_data.set_iteration(iteration)
    }

    pub fn set_total_elapsed(&mut self, total_elapsed: i64)
        ensures
            final(self)@ == (TimerModel {
                data: TimerDataModel { total_elapsed: total_elapsed as int, ..old(self)@.data },
                ..old(self)@
            }),
    {
        self.timer_data.set_total_elapsed(total_elapsed)
    }

    /// Seconds remaining (countdown) or elapsed (countup) in this phase.
    pub fn time_left(&self) -> (r: i64)
        ensures
            r == self@.data.time_left,
    {
        self.timer_data.time_left()
    }

    /// Seconds of work completed since the run started.
    pub fn total_elapsed(&self) -> (r: i64)
        ensures
            r == self@.data.total_elapsed,
    {
        self.timer_data.total_elapsed()
    }

    /// Number of work phases the run is configured for.
    pub fn total_iterations(&self) -> (r: u8)
        ensures
            r == self@.data.total_iterations,
    {
        self.timer_data.total_iterations()
    }

    /// Configured duration of the whole run, in seconds.
    pub fn total_time(&self) -> (r: i64)
        ensures
            r == self@.data.total_time,
    {
        self.timer_data.total_time()
    }

    /// The configured work phase.
    pub fn work_state(&self) -> (r: TimerState)
        ensures
            r == self@.data.work_state,
    {
        self.timer_data.work_state()
    }

    /// Duration of the configured work phase, in seconds.
    pub fn work_time(&self) -> (r: i64)
        ensures
            r == duration_of(self@.data.work_state),
    {
        Timer::get_duration(&self.timer_data.work_state())
    }

    /// The length the next break would have: the configured duration under
    /// countdown, one fifth of the time worked so far under countup.
    pub fn break_time(&self) -> (r: i64)
        requires
            self@.mode is Countup ==> 0 <= self@.data.time_left,
        ensures
            r == (match self@.mode {
                CounterMode::Countdown => duration_of(self@.data.break_state),
                CounterMode::Countup => self@.data.time_left / 5,
            }),
    {
        match self.counter_mode {
            CounterMode::Countdown => Timer::get_duration(&self.timer_data.break_state()),
            CounterMode::Countup => self.timer_data.time_left() / 5,
        }
    }

    pub fn set_break_state(&mut self, break_state: TimerState)
        ensures
            final(self)@ == (TimerModel {
                data: TimerDataModel { break_state, ..old(self)@.data },
                ..old(self)@
            }),
    {
        self.timer_data.set_break_state(break_state)
    }

    pub fn set_time_left(&mut self, time_left: i64)
        ensures
            final(self)@ == (TimerModel {
                data: TimerDataModel { time_left: time_left as int, ..old(self)@.data },
                ..old(self)@
            }),
    {
        self.timer_data.set_time_left(time_left)
    }

    pub fn set_total_iterations(&mut self, total_iterations: u8)
        ensures
            final(self)@ == (TimerModel {
                data: TimerDataModel {
                    total_iterations: total_iterations as int,
                    ..old(self)@.data
                },
                ..old(self)@
            }),
    {
        self.timer_data.set_total_iterations(total_iterations)
    }

    pub fn set_work_state(&mut self, work_state: TimerState)
        ensures
            final(self)@ == (TimerModel {
                data: TimerDataModel { work_state, ..old(self)@.data },
                ..old(self)@
            }),
    {
        self.timer_data.set_work_state(work_state)
    }

    pub fn set_total_time(&mut self, total_time: i64)
        ensures
            final(self)@ == (TimerModel {
                data: TimerDataModel { total_time: total_time as int, ..old(self)@.data },
                ..old(self)@
            }),
    {
        self.timer_data.set_total_time(total_time)
    }

    /// The current tick direction policy.
    pub fn counter_mode(&self) -> (m: CounterMode)
        ensures
            m == self@.mode,
    {
        self.counter_mode
    }

    /// Whether the work phase is active.
    pub fn in_work_state(&self) -> (r: bool)
        ensures
            r == (self@.data.current_state is Work),
    {
        if let TimerState::Work(_) = self.timer_data.current_state() {
            return true;
        }
        false
    }
}

/// Advancing one phase always swaps work and break, and raises the
/// iteration count by exactly one precisely when the phase entered is
/// work; entering a break leaves the count alone.
pub proof fn lemma_phase_advance_swaps(
    m: TimerModel,
    work_time: i64,
    break_time: i64,
    pause_after: bool,
)
    ensures
        ({
            let after = spec_next_iteration(m, work_time, break_time, pause_after);
            &&& (m.data.current_state is Work <==> after.data.current_state is Break)
            &&& after.data.current_state is Work ==> after.data.iteration == m.data.iteration + 1
            &&& after.data.current_state is Break ==> after.data.iteration == m.data.iteration
        }),
{
}

} // verus!
