//! Clock driver state: a counter that, once per second, moves its stored
//! time value down (countdown) or up (countup) while it is running, and
//! that obeys commands arriving from the timer facade.
//!
//! The periodic loop itself — sleeping, the command channel, cancellation —
//! is plumbing that lives outside this crate; it drives one [`Counter`]
//! through [`Counter::handle_commands`] and [`Counter::clock_step`].

use vstd::prelude::*;

verus! {

/// Phase of the timer together with the duration attached to that phase,
/// in whole seconds.
#[derive(Debug, PartialEq, Eq, Structural, Clone, Copy)]
pub enum TimerState {
    Work(i64),
    Break(i64),
}

/// Direction policy of the clock driver.
#[derive(Debug, Clone, PartialEq, Eq, Structural, Copy)]
pub enum CounterMode {
    Countdown,
    Countup,
}

/// Command sent from the timer facade to the clock driver, processed
/// strictly in arrival order.
#[derive(Debug, Clone, Copy, PartialEq, Eq, Structural)]
pub enum TimerCommand {
    Start,
    NextIteration(TimerState),
    Stop,
    Restart(TimerState),
    ChangeMode(CounterMode),
}

/// Duration carried by a phase, in seconds.
pub open spec fn duration_of(state: TimerState) -> int {
    match state {
        TimerState::Work(d) => d as int,
        TimerState::Break(d) => d as int,
    }
}

/// Mathematical image of a [`Counter`].
pub ghost struct CounterModel {
    pub time_left: int,
    pub state: TimerState,
    pub running: bool,
    pub mode: CounterMode,
}

/// Whether a clock step may adjust the time value: a countdown ticks while
/// running and the value has not yet passed the terminal tick, a countup
/// ticks whenever it is running.
pub open spec fn spec_should_tick(mode: CounterMode, running: bool, time_left: int) -> bool {
    match mode {
        CounterMode::Countdown => running && time_left >= 0,
        CounterMode::Countup => running,
    }
}

/// The adjusted time value of one tick.
pub open spec fn spec_tick(mode: CounterMode, time: int) -> int {
    match mode {
        CounterMode::Countdown => time - 1,
        CounterMode::Countup => time + 1,
    }
}

/// One pass of the clock loop with no command pending: tick if the mode and
/// the running flag allow it, otherwise leave the counter alone.
pub open spec fn spec_clock_step(m: CounterModel) -> CounterModel {
    if spec_should_tick(m.mode, m.running, m.time_left) {
        CounterModel { time_left: spec_tick(m.mode, m.time_left), ..m }
    } else {
        m
    }
}

/// `n` passes of the clock loop with no command pending.
pub open spec fn spec_clock_run(m: CounterModel, n: nat) -> CounterModel
    decreases n,
{
    if n == 0 {
        m
    } else {
        spec_clock_step(spec_clock_run(m, (n - 1) as nat))
    }
}

impl CounterMode {
    /// The time value after one tick.
    pub fn tick(&self, time: i64) -> (t: i64)
        requires
            *self is Countdown ==> time > i64::MIN,
            *self is Countup ==> time < i64::MAX,
        ensures
            t == spec_tick(*self, time as int),
    {
        match self {
            CounterMode::Countdown => time - 1,
            CounterMode::Countup => time + 1,
        }
    }

    /// Whether the clock driver should tick in its current condition.
    pub fn should_tick(&self, running: bool, time_left: i64) -> (b: bool)
        ensures
            b == spec_should_tick(*self, running, time_left as int),
    {
        match self {
            CounterMode::Countdown => running && (time_left >= 0),
            CounterMode::Countup => running,
        }
    }

    /// Swaps the direction policy.
    pub fn next(&mut self)
        ensures
            *final(self) == (match *old(self) {
                CounterMode::Countdown => CounterMode::Countup,
                CounterMode::Countup => CounterMode::Countdown,
            }),
    {
        *self = match self {
            CounterMode::Countdown => CounterMode::Countup,
            CounterMode::Countup => CounterMode::Countdown,
        };
    }
}

/// The clock driver's own state: the stored time value, the phase it was
/// last told about, the running flag and the direction policy.
#[derive(Debug, Clone)]
pub struct Counter {
    time_left: i64,
    state: TimerState,
    running: bool,
    mode: CounterMode,
}

impl View for Counter {
    type V = CounterModel;

    closed spec fn view(&self) -> CounterModel {
        CounterModel {
            time_left: self.time_left as int,
            state: self.state,
            running: self.running,
            mode: self.mode,
        }
    }
}

impl Counter {
    /// A stopped counter seeded from a phase: a countup starts from zero,
    /// a countdown from the phase's duration.
    pub fn new(mode: CounterMode, state: TimerState) -> (c: Counter)
        ensures
            c@.mode == mode,
            c@.state == state,
            !c@.running,
            c@.time_left == if mode is Countup {
                0int
            } else {
                duration_of(state)
            },
    {
        let time: i64 = match state {
            _ if mode == CounterMode::Countup => 0,
            TimerState::Work(time) => time,
            TimerState::Break(time) => time,
        };
        Counter { time_left: time, state, running: false, mode }
    }

    /// The stored time value, which each tick publishes to the consumer.
    pub fn time_left(&self) -> (t: i64)
        ensures
            t == self@.time_left,
    {
        self.time_left
    }

    /// Whether the counter is running.
    pub fn running(&self) -> (r: bool)
        ensures
            r == self@.running,
    {
        self.running
    }

    /// The current direction policy.
    pub fn mode(&self) -> (m: CounterMode)
        ensures
            m == self@.mode,
    {
        self.mode
    }

    /// One pass of the clock loop when no command is pending: ticks when
    /// the mode allows it and reports whether it did, so that the loop
    /// knows to publish the new value.
    pub fn clock_step(&mut self) -> (ticked: bool)
        requires
            old(self)@.time_left < i64::MAX,
        ensures
            final(self)@ == spec_clock_step(old(self)@),
            ticked == spec_should_tick(old(self)@.mode, old(self)@.running, old(self)@.time_left),
    {
        if self.mode.should_tick(self.running, self.time_left) {
            self.time_left = self.mode.tick(self.time_left);
            true
        } else {
            false
        }
    }

    fn set_time_left(&mut self, time_left: i64)
        ensures
            final(self)@ == (CounterModel { time_left: time_left as int, ..old(self)@ }),
    {
        self.time_left = time_left;
    }

    fn set_state(&mut self, state: TimerState)
        ensures
            final(self)@ == (CounterModel { state, ..old(self)@ }),
    {
        self.state = state;
    }

    fn set_running(&mut self, running: bool)
        ensures
            final(self)@ == (CounterModel { running, ..old(self)@ }),
    {
        self.running = running;
    }

    fn next_iteration(&mut self, state: TimerState)
        requires
            i64::MIN <= duration_of(state) <= i64::MAX,
        ensures
            final(self)@ == (CounterModel {
                state,
                time_left: duration_of(state),
                ..old(self)@
            }),
    {
        self.set_state(state);
        let time: i64 = match state {
            TimerState::Work(d) => d,
            TimerState::Break(d) => d,
        };
        self.set_time_left(time);
    }

    fn restart(&mut self, state: TimerState)
        ensures
            final(self)@ == (CounterModel {
                state,
                time_left: duration_of(state),
                running: false,
                ..old(self)@
            }),
    {
        let time: i64 = match state {
            TimerState::Work(d) => d,
            TimerState::Break(d) => d,
        };
        self.set_time_left(time);
        self.set_state(state);
        self.set_running(false);
    }

    /// Applies one command from the inbox: the start and stop commands
    /// toggle the running flag, a phase change or restart replaces the
    /// stored time and phase outright, and a mode change swaps the tick
    /// direction (a switch to countup restarts its count from zero).
    pub fn handle_commands(&mut self, command: TimerCommand)
        ensures
            final(self)@ == (match command {
                TimerCommand::Start => CounterModel { running: true, ..old(self)@ },
                TimerCommand::Stop => CounterModel { running: false, ..old(self)@ },
                TimerCommand::NextIteration(state) => CounterModel {
                    state,
                    time_left: duration_of(state),
                    ..old(self)@
                },
                TimerCommand::Restart(state) => CounterModel {
                    state,
                    time_left: duration_of(state),
                    running: false,
                    ..old(self)@
                },
                TimerCommand::ChangeMode(mode) => CounterModel {
                    mode,
                    time_left: if mode is Countup {
                        0int
                    } else {
                        old(self)@.time_left
                    },
                    ..old(self)@
                },
            }),
    {
        match command {
            TimerCommand::Start => self.set_running(true),
            TimerCommand::Stop => self.set_running(false),
            TimerCommand::NextIteration(state) => self.next_iteration(state),
            TimerCommand::ChangeMode(mode) => self.set_mode(mode),
            TimerCommand::Restart(state) => self.restart(state),
        };
    }

    /// Swaps the direction policy; entering countup restarts the count
    /// from zero.
    pub fn set_mode(&mut self, mode: CounterMode)
        ensures
            final(self)@ == (CounterModel {
                mode,
                time_left: if mode is Countup {
                    0int
                } else {
                    old(self)@.time_left
                },
                ..old(self)@
            }),
    {
        self.mode = mode;
        if self.mode == CounterMode::Countup {
            self.time_left = 0;
        }
    }
}

/// While a countdown counter runs, every clock step lowers the published
/// time by exactly one second, down to the terminal tick; a stopped counter
/// never moves, however many steps pass.
pub proof fn lemma_countdown_time_decreases(m: CounterModel, n: nat)
    requires
        m.mode is Countdown,
    ensures
        spec_clock_run(m, n).running == m.running,
        spec_clock_run(m, n).mode == m.mode,
        spec_clock_run(m, n).state == m.state,
        m.running && n <= m.time_left + 1 ==> spec_clock_run(m, n).time_left == m.time_left - n,
        !m.running ==> spec_clock_run(m, n).time_left == m.time_left,
    decreases n,
{
    if n > 0 {
        lemma_countdown_time_decreases(m, (n - 1) as nat);
    }
}

/// A single clock step of a running countdown that has not yet reached the
/// terminal tick decreases the time by exactly one; a step of a stopped
/// counter, in either mode, changes nothing.
pub proof fn lemma_clock_step_exact(m: CounterModel)
    ensures
        m.mode is Countdown && m.running && m.time_left >= 0 ==> spec_clock_step(m).time_left
            == m.time_left - 1,
        !m.running ==> spec_clock_step(m) == m,
{
}

} // verus!
