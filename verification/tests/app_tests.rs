use romodoro::ascii_time::format_ascii_time;
use romodoro::counter::{CounterMode, TimerState};
use romodoro::dates::{now_local, recent_window, PixelDate};
use romodoro::error::{Error, SettingsError, StatsError};
use romodoro::pixel::Pixel;
use romodoro::pomodoro::Pomodoro;
use romodoro::progress::Progress;
use romodoro::settings::{InputKey, Mode, SettingsTab, StatsSettings, TimerSettings};
use romodoro::tabs::{PixelaTabs, SettingsTabs, Tabs};
use romodoro::timer::{Timer, TimerTickOutcome};

#[test]
fn ascii_text_works() {
    let time = "01:32:29";
    println!("{}", format_ascii_time(time));
}

#[test]
fn ascii_banner_has_seven_rows() {
    let banner = format_ascii_time("1:2");
    assert_eq!(banner.lines().count(), 7);
    // Each rendered character contributes its glyph and two spaces.
    let first_row = banner.lines().next().unwrap();
    assert_eq!(first_row, "   █                ███     ");
    // Characters that are neither digits nor a colon are skipped.
    assert_eq!(format_ascii_time("x"), "\n\n\n\n\n\n");
}

#[test]
fn countup_break_and_ledger_scenario() {
    // A countup timer accumulates 1200 seconds of work; the user forces a
    // break. The break lasts 1200 / 5 = 240 seconds and the ledger emits
    // one record worth 20 minutes.
    let settings = TimerSettings { work_time: 1500, break_time: 300, iterations: 4 };
    let timer = Timer::new(
        0,
        4,
        0,
        TimerState::Work(0),
        TimerState::Break(0),
        CounterMode::Countup,
    );
    let mut pomodoro = Pomodoro::new(timer);
    let stats = StatsSettings {
        stats_on: true,
        pixela_username: Some(String::from("alice")),
        pixela_token: Some(String::from("SECRET-REDACTED")),
    };
    pomodoro.try_init_pixela_client(&stats, Vec::new()).unwrap();
    for second in 1..=1200 {
        pomodoro.set_time_left(second);
    }
    assert_eq!(pomodoro.duration_since_last_save, 1200);
    let date = PixelDate { year: 2024, month: 5, day: 1, hour: 9, minute: 0 };
    pomodoro.log_pixel_from_duration(date).unwrap();
    assert!(pomodoro.is_duration_saved());
    let client = pomodoro.pixela_client.as_ref().unwrap();
    assert_eq!(client.pixels.len(), 1);
    match &client.pixels.items()[0] {
        // No subject is chosen, so the record is a plain note of minutes.
        Pixel::Simple(sp) => assert_eq!(sp.progress(), 20),
        Pixel::Complex(_) => panic!("without a subject the record is simple"),
    }
    let cmds = pomodoro.timer.next_iteration(&settings, false);
    assert_eq!(pomodoro.timer.current_state(), TimerState::Break(240));
    assert!(!cmds.is_empty());
}

#[test]
fn ledger_rejects_below_the_subjects_minimum() {
    // An hours graph with whole numbers requires at least sixty minutes;
    // twenty minutes of work is refused at emission and carried forward.
    let timer = Timer::new(
        0,
        4,
        0,
        TimerState::Work(0),
        TimerState::Break(0),
        CounterMode::Countup,
    );
    let mut pomodoro = Pomodoro::new(timer);
    let stats = StatsSettings {
        stats_on: true,
        pixela_username: Some(String::from("alice")),
        pixela_token: Some(String::from("SECRET-REDACTED")),
    };
    pomodoro.try_init_pixela_client(&stats, Vec::new()).unwrap();
    {
        let client = pomodoro.pixela_client.as_mut().unwrap();
        let hours_graph = romodoro::subjects::Subject::try_new(
            String::from("g"),
            String::from("https://pixe.la/v1/users/alice/graphs/g"),
            String::from("Hours graph"),
            romodoro::subjects::SubjectDataType::Int,
            romodoro::subjects::SubjectUnit::Hours,
            romodoro::graph::PixelaColors::Sora,
        )
        .unwrap();
        client.subjects.push(hours_graph);
    }
    pomodoro.set_current_subject_index(1);
    pomodoro.duration_since_last_save = 1200;
    let date = PixelDate { year: 2024, month: 5, day: 1, hour: 9, minute: 0 };
    match pomodoro.log_pixel_from_duration(date) {
        Err(Error::StatsError(StatsError::QuantityIsNotBigEnough)) => {}
        other => panic!("expected the quantity error, got {:?}", other),
    }
    // The work is retained, not dropped, and nothing entered the store.
    assert_eq!(pomodoro.duration_since_last_save, 1200);
    assert_eq!(pomodoro.pixela_client.as_ref().unwrap().pixels.len(), 0);
    // A full hour clears the minimum and flushes.
    pomodoro.duration_since_last_save = 3600;
    pomodoro.log_pixel_from_duration(date).unwrap();
    assert_eq!(pomodoro.duration_since_last_save, 0);
    let client = pomodoro.pixela_client.as_ref().unwrap();
    assert_eq!(client.pixels.len(), 1);
    match &client.pixels.items()[0] {
        Pixel::Complex(cp) => assert_eq!(*cp.progress(), Progress::Int(60)),
        Pixel::Simple(_) => panic!("a chosen subject makes the record complex"),
    }
}

#[test]
fn ledger_refused_without_a_client() {
    let timer = Timer::new(
        10,
        1,
        10,
        TimerState::Work(10),
        TimerState::Break(5),
        CounterMode::Countdown,
    );
    let mut pomodoro = Pomodoro::new(timer);
    let date = PixelDate { year: 2024, month: 5, day: 1, hour: 9, minute: 0 };
    match pomodoro.log_pixel_from_duration(date) {
        Err(Error::StatsError(StatsError::StatsTrackingTurnedOff)) => {}
        other => panic!("expected the tracking-off error, got {:?}", other),
    }
}

#[test]
fn client_init_requires_credentials() {
    let timer = Timer::new(
        10,
        1,
        10,
        TimerState::Work(10),
        TimerState::Break(5),
        CounterMode::Countdown,
    );
    let mut pomodoro = Pomodoro::new(timer);
    let off = StatsSettings { stats_on: false, pixela_username: None, pixela_token: None };
    assert!(matches!(
        pomodoro.try_init_pixela_client(&off, Vec::new()),
        Err(Error::StatsError(StatsError::StatsTrackingTurnedOff))
    ));
    let missing = StatsSettings { stats_on: true, pixela_username: None, pixela_token: None };
    assert!(matches!(
        pomodoro.try_init_pixela_client(&missing, Vec::new()),
        Err(Error::StatsError(StatsError::UserNotProvided))
    ));
    let empty = StatsSettings {
        stats_on: true,
        pixela_username: Some(String::new()),
        pixela_token: Some(String::new()),
    };
    assert!(matches!(
        pomodoro.try_init_pixela_client(&empty, Vec::new()),
        Err(Error::StatsError(StatsError::UserNotProvided))
    ));
}

#[test]
fn tick_path_counts_the_ledger() {
    let settings = TimerSettings { work_time: 10, break_time: 5, iterations: 2 };
    let timer = Timer::new(
        10,
        2,
        20,
        TimerState::Work(10),
        TimerState::Break(5),
        CounterMode::Countdown,
    );
    let mut pomodoro = Pomodoro::new(timer);
    let date = PixelDate { year: 2024, month: 5, day: 1, hour: 9, minute: 0 };
    let (outcome, cmds, report) = pomodoro.handle_timer_responses(9, &settings, false, date);
    assert_eq!(outcome, TimerTickOutcome::Ticked);
    assert!(cmds.is_empty());
    assert!(report.is_none());
    assert_eq!(pomodoro.duration_since_last_save, 1);
    assert_eq!(pomodoro.timer.time_left(), 9);
    let (outcome, _cmds, _report) = pomodoro.handle_timer_responses(-1, &settings, false, date);
    assert_eq!(outcome, TimerTickOutcome::Advanced);
    assert_eq!(pomodoro.timer.current_state(), TimerState::Break(5));
}

#[test]
fn recent_window_crosses_month_and_leap_boundaries() {
    let today = PixelDate { year: 2024, month: 3, day: 1, hour: 14, minute: 5 };
    let window = recent_window(&today, 3);
    assert_eq!(window.len(), 3);
    // 2024 is a leap year: the day before the first of March is the 29th.
    assert_eq!((window[0].month, window[0].day), (2, 28));
    assert_eq!((window[1].month, window[1].day), (2, 29));
    assert_eq!((window[2].month, window[2].day), (3, 1));
    assert_eq!(window[2].hour, 0);
}

#[test]
fn the_clock_answers_a_plausible_date() {
    let now = now_local();
    assert!((1..=12).contains(&now.month));
    assert!((1..=31).contains(&now.day));
    assert!(now.hour <= 23);
    assert!(now.minute <= 59);
}

#[test]
fn settings_selection_skips_credentials_while_tracking_is_off() {
    let mut tab = SettingsTab::default();
    tab.selected_setting = 3;
    tab.select_down();
    assert_eq!(tab.selected_setting, 6);
    tab.stats_setting.stats_on = true;
    tab.selected_setting = 3;
    tab.select_down();
    assert_eq!(tab.selected_setting, 4);
    tab.stats_setting.stats_on = false;
    tab.selected_setting = 6;
    tab.select_up();
    assert_eq!(tab.selected_setting, 3);
    tab.selected_setting = 7;
    tab.select_down();
    assert_eq!(tab.selected_setting, 0);
    tab.selected_setting = 0;
    tab.select_up();
    assert_eq!(tab.selected_setting, 7);
}

#[test]
fn settings_steps_and_defaults() {
    let mut tab = SettingsTab::default();
    tab.selected_setting = 0;
    tab.increment();
    assert_eq!(tab.timer_settings.work_time, 1560);
    tab.decrement();
    assert_eq!(tab.timer_settings.work_time, 1500);
    tab.selected_setting = 2;
    tab.decrement();
    assert_eq!(tab.timer_settings.iterations, 3);
    tab.selected_setting = 3;
    tab.increment();
    assert!(tab.stats_setting.stats_on);
    assert!(tab.stats_setting.pixela_username.is_some());
    tab.timer_settings.work_time = 1;
    tab.selected_setting = 0;
    tab.decrement();
    // A duration never drops to zero or below.
    assert_eq!(tab.timer_settings.work_time, 1);
    tab.restore_defaults();
    assert_eq!(tab.timer_settings.work_time, 1500);
    assert_eq!(tab.timer_settings.break_time, 300);
    assert_eq!(tab.timer_settings.iterations, 4);
}

#[test]
fn text_field_editing() {
    let mut value = String::from("alic");
    SettingsTab::process_input(InputKey::Char('e'), &mut value, None);
    assert_eq!(value, "alice");
    SettingsTab::process_input(InputKey::Backspace, &mut value, None);
    assert_eq!(value, "alic");
    SettingsTab::process_input(InputKey::Paste, &mut value, Some(String::from("bob")));
    assert_eq!(value, "bob");
    SettingsTab::process_input(InputKey::Other, &mut value, None);
    assert_eq!(value, "bob");
    let mut tab = SettingsTab::default();
    tab.stats_setting.stats_on = true;
    tab.stats_setting.pixela_username = Some(String::new());
    tab.stats_setting.pixela_token = Some(String::new());
    tab.selected_setting = 4;
    tab.input(InputKey::Char('a'), None);
    assert_eq!(tab.stats_setting.pixela_username.as_deref(), Some("a"));
    assert_eq!(tab.stats_setting.pixela_token.as_deref(), Some(""));
    tab.change_mode(Mode::Input);
    assert_eq!(*tab.mode(), Mode::Input);
}

#[test]
fn error_messages_read_as_expected() {
    assert_eq!(
        SettingsError::UpdateError.message(),
        "Update failed! Stop the timer first"
    );
    assert_eq!(
        StatsError::QuantityIsNotBigEnough.message(),
        "Your graph cannot store progress this small"
    );
    assert_eq!(
        Error::StatsError(StatsError::SubjectsSyncFailed).message(),
        "Stats Error: The sync has failed"
    );
    assert_eq!(
        SettingsError::SaveError(String::from("disk full")).message(),
        "There was an error with saving your data: disk full"
    );
}

#[test]
fn tab_navigation_cycles() {
    let mut tab = Tabs::TimerTab;
    tab.next();
    assert!(matches!(tab, Tabs::SettingsTab));
    tab.next();
    assert!(matches!(tab, Tabs::StatsTab));
    tab.next();
    assert!(matches!(tab, Tabs::TimerTab));
    tab.prev();
    assert!(matches!(tab, Tabs::StatsTab));
    assert_eq!(Tabs::StatsTab.index(), 2);

    assert_eq!(SettingsTabs::Mode.down(false), SettingsTabs::Pomodoro);
    assert_eq!(SettingsTabs::Mode.down(true), SettingsTabs::Preferences);
    assert_eq!(SettingsTabs::Preferences.up(false), SettingsTabs::Pomodoro);
    assert_eq!(SettingsTabs::Pomodoro.right(), SettingsTabs::Stats);
    assert_eq!(SettingsTabs::Stats.left(), SettingsTabs::Mode);
    assert_eq!(SettingsTabs::Stats.amount(), 3);

    let mut pane = PixelaTabs::Pixels;
    pane.right();
    assert!(matches!(pane, PixelaTabs::Subject));
    pane.left();
    assert!(matches!(pane, PixelaTabs::Pixels));
}
