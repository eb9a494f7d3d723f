use romodoro::counter::{Counter, CounterMode, TimerCommand, TimerState};
use romodoro::settings::TimerSettings;
use romodoro::timer::{Timer, TimerTickOutcome};

fn countdown_settings() -> TimerSettings {
    TimerSettings { work_time: 1500, break_time: 300, iterations: 4 }
}

fn new_countdown_timer() -> Timer {
    Timer::new(
        1500,
        4,
        6000,
        TimerState::Work(1500),
        TimerState::Break(300),
        CounterMode::Countdown,
    )
}

#[test]
fn counter_ticks_down_while_running() {
    let mut counter = Counter::new(CounterMode::Countdown, TimerState::Work(10));
    assert_eq!(counter.time_left(), 10);
    counter.handle_commands(TimerCommand::Start);
    for expected in (0..10).rev() {
        let ticked = counter.clock_step();
        assert!(ticked);
        assert_eq!(counter.time_left(), expected);
    }
    let ticked = counter.clock_step();
    assert!(ticked);
    assert_eq!(counter.time_left(), -1);
    // At the terminal tick the countdown halts by itself.
    let ticked = counter.clock_step();
    assert!(!ticked);
    assert_eq!(counter.time_left(), -1);
}

#[test]
fn counter_never_moves_while_stopped() {
    let mut counter = Counter::new(CounterMode::Countdown, TimerState::Work(42));
    for _ in 0..5 {
        let ticked = counter.clock_step();
        assert!(!ticked);
        assert_eq!(counter.time_left(), 42);
    }
    counter.handle_commands(TimerCommand::Start);
    counter.clock_step();
    counter.handle_commands(TimerCommand::Stop);
    for _ in 0..5 {
        let ticked = counter.clock_step();
        assert!(!ticked);
        assert_eq!(counter.time_left(), 41);
    }
}

#[test]
fn counter_counts_up_in_countup_mode() {
    let mut counter = Counter::new(CounterMode::Countup, TimerState::Work(1500));
    assert_eq!(counter.time_left(), 0);
    counter.handle_commands(TimerCommand::Start);
    for expected in 1..=5 {
        counter.clock_step();
        assert_eq!(counter.time_left(), expected);
    }
}

#[test]
fn counter_commands_replace_time_and_mode() {
    let mut counter = Counter::new(CounterMode::Countdown, TimerState::Work(100));
    counter.handle_commands(TimerCommand::NextIteration(TimerState::Break(25)));
    assert_eq!(counter.time_left(), 25);
    counter.handle_commands(TimerCommand::ChangeMode(CounterMode::Countup));
    assert_eq!(counter.time_left(), 0);
    counter.handle_commands(TimerCommand::Restart(TimerState::Work(7)));
    assert_eq!(counter.time_left(), 7);
    assert!(!counter.running());
}

#[test]
fn full_countdown_work_phase_rolls_into_break() {
    // Work 1500 s, break 300 s, four iterations: the whole phase runs on a
    // driving counter, and at the terminal tick the timer swaps to the
    // break with its duration as the new time value.
    let settings = countdown_settings();
    let mut timer = new_countdown_timer();
    let mut counter = Counter::new(CounterMode::Countdown, TimerState::Work(1500));
    for cmd in timer.start() {
        counter.handle_commands(cmd);
    }
    let mut transitions = 0;
    for _ in 0..1501 {
        if counter.clock_step() {
            let time = counter.time_left();
            let (outcome, cmds) = timer.handle_timer_response(time, &settings, false);
            if outcome == TimerTickOutcome::Advanced {
                transitions += 1;
            }
            for cmd in cmds {
                counter.handle_commands(cmd);
            }
        }
    }
    assert_eq!(transitions, 1);
    assert_eq!(timer.current_state(), TimerState::Break(300));
    assert_eq!(timer.time_left(), 300);
    assert_eq!(counter.time_left(), 300);
    // Entering the break leaves the iteration count alone; it rises to
    // two when the next work phase begins.
    assert_eq!(timer.iteration(), 1);
    let mut entered_work = false;
    for _ in 0..301 {
        if counter.clock_step() {
            let time = counter.time_left();
            let (outcome, cmds) = timer.handle_timer_response(time, &settings, false);
            if outcome == TimerTickOutcome::Advanced {
                entered_work = true;
            }
            for cmd in cmds {
                counter.handle_commands(cmd);
            }
        }
    }
    assert!(entered_work);
    assert_eq!(timer.current_state(), TimerState::Work(1500));
    assert_eq!(timer.iteration(), 2);
    assert_eq!(timer.time_left(), 1500);
}

#[test]
fn advancing_into_work_increments_iteration_once() {
    let settings = countdown_settings();
    let mut timer = new_countdown_timer();
    // Into the break: no increment.
    timer.next_iteration(&settings, false);
    assert_eq!(timer.iteration(), 1);
    assert!(matches!(timer.current_state(), TimerState::Break(_)));
    // Back into work: exactly one increment.
    timer.next_iteration(&settings, false);
    assert_eq!(timer.iteration(), 2);
    assert!(matches!(timer.current_state(), TimerState::Work(_)));
}

#[test]
fn final_iteration_finishes_without_increment() {
    let settings = countdown_settings();
    let mut timer = new_countdown_timer();
    timer.set_iteration(4);
    timer.set_current_state(TimerState::Work(1500));
    let (outcome, cmds) = timer.handle_timer_response(-1, &settings, false);
    assert_eq!(outcome, TimerTickOutcome::Finished);
    // The run resets rather than counting a fifth iteration.
    assert_eq!(timer.iteration(), 1);
    assert!(!timer.get_running());
    assert_eq!(cmds[0], TimerCommand::Stop);
    assert!(matches!(cmds[1], TimerCommand::Restart(TimerState::Work(1500))));
}

#[test]
fn countup_break_is_a_fifth_of_elapsed_work() {
    let settings = countdown_settings();
    let mut timer = Timer::new(
        0,
        4,
        0,
        TimerState::Work(0),
        TimerState::Break(0),
        CounterMode::Countup,
    );
    timer.set_time_left(1200);
    timer.next_iteration(&settings, false);
    assert_eq!(timer.current_state(), TimerState::Break(240));
    assert_eq!(timer.time_left(), 240);
    assert_eq!(timer.break_state(), TimerState::Break(240));
}

#[test]
fn set_setting_refused_while_running() {
    let settings = countdown_settings();
    let mut timer = new_countdown_timer();
    timer.start();
    let refused = timer.set_setting(
        romodoro::settings::PomodoroSettings::WorkTime(900),
        &settings,
    );
    assert!(refused.is_none());
    assert_eq!(timer.work_state(), TimerState::Work(1500));
}

#[test]
fn set_setting_applies_and_restarts_when_stopped() {
    let settings = TimerSettings { work_time: 900, break_time: 300, iterations: 4 };
    let mut timer = new_countdown_timer();
    timer.set_time_left(700);
    let cmds = timer.set_setting(
        romodoro::settings::PomodoroSettings::Iterations(6),
        &settings,
    );
    let cmds = cmds.expect("a stopped timer takes the setting");
    assert_eq!(timer.total_iterations(), 6);
    assert_eq!(timer.iteration(), 1);
    assert_eq!(timer.time_left(), 900);
    assert_eq!(timer.total_time(), 5400);
    assert!(matches!(cmds[0], TimerCommand::Restart(TimerState::Work(900))));
}

#[test]
fn restart_resets_bookkeeping() {
    let settings = countdown_settings();
    let mut timer = new_countdown_timer();
    timer.start();
    timer.handle_time_left(1400);
    timer.handle_time_left(1399);
    assert_eq!(timer.total_elapsed(), 2);
    timer.restart(&settings);
    assert_eq!(timer.total_elapsed(), 0);
    assert_eq!(timer.iteration(), 1);
    assert_eq!(timer.time_left(), 1500);
    assert!(!timer.get_running());
    assert_eq!(timer.total_time(), 6000);
}

#[test]
fn pause_preference_holds_the_timer_after_a_phase_change() {
    let settings = countdown_settings();
    let mut timer = new_countdown_timer();
    timer.start();
    let cmds = timer.next_iteration(&settings, true);
    assert!(!timer.get_running());
    assert!(!cmds.contains(&TimerCommand::Start));
    let mut timer2 = new_countdown_timer();
    timer2.start();
    let cmds2 = timer2.next_iteration(&settings, false);
    assert!(timer2.get_running());
    assert!(cmds2.contains(&TimerCommand::Start));
}
