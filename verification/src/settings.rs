//! The settings surface: persisted timer durations, interface preferences
//! and the remote-tracking credentials, together with the pure editing
//! logic the settings view runs. Reading and writing the configuration
//! file is plumbing outside this crate; it hands values in and out of
//! these types.

use vstd::prelude::*;

use crate::text::{pop_char, push_char};
use crate::{BREAK_TIME_INCR, DEFAULT_BREAK, DEFAULT_ITERATIONS, DEFAULT_WORK, WORK_TIME_INCR};

verus! {

/// Whether keystrokes edit a text field or navigate the settings.
#[derive(Debug, Clone, Default, PartialEq, Eq, Structural)]
pub enum Mode {
    Input,
    #[default]
    Normal,
}

/// Interface preferences.
#[derive(Debug, Clone, Default)]
pub struct UISettings {
    pub pause_after_state_change: bool,
    pub hide_work_countdown: bool,
}

/// Durations and iteration target of the timer, in seconds; an immutable
/// snapshot of this is handed into every restart.
#[derive(Debug, Clone)]
pub struct TimerSettings {
    pub work_time: i64,
    pub break_time: i64,
    pub iterations: u8,
}

impl Default for TimerSettings {
    fn default() -> (r: Self)
        ensures
            r.work_time == DEFAULT_WORK,
            r.break_time == DEFAULT_BREAK,
            r.iterations == DEFAULT_ITERATIONS,
    {
        TimerSettings {
            work_time: DEFAULT_WORK,
            break_time: DEFAULT_BREAK,
            iterations: DEFAULT_ITERATIONS,
        }
    }
}

/// One editable facet of the timer configuration.
#[derive(Debug, Clone, Copy, PartialEq, Eq, Structural)]
pub enum PomodoroSettings {
    WorkTime(i64),
    BreakTime(i64),
    Iterations(u8),
}

/// Remote-tracking switch and credentials.
#[derive(Debug, Clone, Default)]
pub struct StatsSettings {
    pub stats_on: bool,
    pub pixela_username: Option<String>,
    pub pixela_token: Option<String>,
}

impl StatsSettings {
    /// Makes both credential fields editable by replacing an absent value
    /// with an empty one.
    pub fn init_stats(&mut self)
        ensures
            final(self).stats_on == old(self).stats_on,
            final(self).pixela_username is Some,
            final(self).pixela_token is Some,
            old(self).pixela_username is Some ==> final(self).pixela_username
                == old(self).pixela_username,
            old(self).pixela_username is None ==> final(self).pixela_username.unwrap()@
                == Seq::<char>::empty(),
            old(self).pixela_token is Some ==> final(self).pixela_token == old(self).pixela_token,
            old(self).pixela_token is None ==> final(self).pixela_token.unwrap()@
                == Seq::<char>::empty(),
    {
        if self.pixela_username.is_none() {
            self.pixela_username = Some(String::new());
        }
        if self.pixela_token.is_none() {
            self.pixela_token = Some(String::new());
        }
    }
}

/// A keystroke as the settings editor understands it: the terminal event
/// decoding outside this crate reduces each key press to one of these.
#[derive(Debug, Clone, Copy, PartialEq, Eq, Structural)]
pub enum InputKey {
    Backspace,
    Paste,
    Char(char),
    Other,
}

/// The settings view: which entry is selected, whether a text field is
/// being edited, and the three groups of persisted values.
#[derive(Debug, Clone, Default)]
pub struct SettingsTab {
    pub selected_setting: u8,
    pub mode: Mode,
    pub ui_settings: UISettings,
    pub timer_settings: TimerSettings,
    pub stats_setting: StatsSettings,
}

impl SettingsTab {
    /// Puts the timer durations and interface preferences back to their
    /// defaults; the remote-tracking settings are kept.
    pub fn restore_defaults(&mut self)
        ensures
            final(self).timer_settings.work_time == DEFAULT_WORK,
            final(self).timer_settings.break_time == DEFAULT_BREAK,
            final(self).timer_settings.iterations == DEFAULT_ITERATIONS,
            !final(self).ui_settings.pause_after_state_change,
            !final(self).ui_settings.hide_work_countdown,
            final(self).stats_setting == old(self).stats_setting,
            final(self).selected_setting == old(self).selected_setting,
            final(self).mode == old(self).mode,
    {
        self.timer_settings = TimerSettings::default();
        self.ui_settings = UISettings { pause_after_state_change: false, hide_work_countdown: false };
    }

    /// The current value of the requested facet; the payload of the
    /// argument only selects which facet is read.
    pub fn get_pomodoro_setting(&self, setting: PomodoroSettings) -> (r: PomodoroSettings)
        ensures
            r == (match setting {
                PomodoroSettings::WorkTime(_) => PomodoroSettings::WorkTime(
                    self.timer_settings.work_time,
                ),
                PomodoroSettings::BreakTime(_) => PomodoroSettings::BreakTime(
                    self.timer_settings.break_time,
                ),
                PomodoroSettings::Iterations(_) => PomodoroSettings::Iterations(
                    self.timer_settings.iterations,
                ),
            }),
    {
        match setting {
            PomodoroSettings::BreakTime(_) => PomodoroSettings::BreakTime(
                self.timer_settings.break_time,
            ),
            PomodoroSettings::WorkTime(_) => PomodoroSettings::WorkTime(
                self.timer_settings.work_time,
            ),
            PomodoroSettings::Iterations(_) => PomodoroSettings::Iterations(
                self.timer_settings.iterations,
            ),
        }
    }

    /// Where the selection lands when it moves down from `from`: the two
    /// credential rows are skipped while tracking is off, and the selection
    /// wraps from the last row to the first.
    pub open spec fn spec_select_down(from: int, stats_on: bool) -> int {
        let hop = if !stats_on && from == 3 {
            5int
        } else {
            from
        };
        if hop == 7 {
            0int
        } else {
            hop + 1
        }
    }

    /// Where the selection lands when it moves up from `from`.
    pub open spec fn spec_select_up(from: int, stats_on: bool) -> int {
        let hop = if !stats_on && from == 6 {
            4int
        } else {
            from
        };
        if hop == 0 {
            7int
        } else {
            hop - 1
        }
    }

    /// Moves the selection one row down.
    pub fn select_down(&mut self)
        requires
            old(self).selected_setting <= 7,
        ensures
            final(self).selected_setting == Self::spec_select_down(
                old(self).selected_setting as int,
                old(self).stats_setting.stats_on,
            ),
            final(self).mode == old(self).mode,
            final(self).ui_settings == old(self).ui_settings,
            final(self).timer_settings == old(self).timer_settings,
            final(self).stats_setting == old(self).stats_setting,
    {
        if !self.stats_setting.stats_on && (self.selected_setting == 3) {
            self.selected_setting = 5;
        }
        if self.selected_setting == 7 {
            self.selected_setting = 0;
        } else {
            self.selected_setting = self.selected_setting + 1;
        }
    }

    /// Moves the selection one row up.
    pub fn select_up(&mut self)
        requires
            old(self).selected_setting <= 7,
        ensures
            final(self).selected_setting == Self::spec_select_up(
                old(self).selected_setting as int,
                old(self).stats_setting.stats_on,
            ),
            final(self).mode == old(self).mode,
            final(self).ui_settings == old(self).ui_settings,
            final(self).timer_settings == old(self).timer_settings,
            final(self).stats_setting == old(self).stats_setting,
    {
        if !self.stats_setting.stats_on && (self.selected_setting == 6) {
            self.selected_setting = 4;
        }
        if self.selected_setting == 0 {
            self.selected_setting = 7;
        } else {
            self.selected_setting = self.selected_setting - 1;
        }
    }

    /// Lowers the selected value one step: durations shrink only while the
    /// result stays positive, the iteration target only above one, and the
    /// boolean rows toggle.
    pub fn decrement(&mut self)
        ensures
            final(self).selected_setting == old(self).selected_setting,
            final(self).mode == old(self).mode,
            old(self).selected_setting != 0 ==> final(self).timer_settings.work_time == old(self).timer_settings.work_time,
            old(self).selected_setting != 1 ==> final(self).timer_settings.break_time == old(self).timer_settings.break_time,
            old(self).selected_setting != 2 ==> final(self).timer_settings.iterations == old(self).timer_settings.iterations,
            old(self).selected_setting != 3 ==> final(self).stats_setting.stats_on == old(self).stats_setting.stats_on
                && final(self).stats_setting.pixela_username == old(self).stats_setting.pixela_username
                && final(self).stats_setting.pixela_token == old(self).stats_setting.pixela_token,
            old(self).selected_setting != 6 ==> final(self).ui_settings.pause_after_state_change
                == old(self).ui_settings.pause_after_state_change,
            old(self).selected_setting != 7 ==> final(self).ui_settings.hide_work_countdown
                == old(self).ui_settings.hide_work_countdown,
            final(self).selected_setting == 0 ==> final(self).timer_settings.work_time == (
            if old(self).timer_settings.work_time - WORK_TIME_INCR > 0 {
                old(self).timer_settings.work_time - WORK_TIME_INCR
            } else {
                old(self).timer_settings.work_time as int
            }),
            final(self).selected_setting == 1 ==> final(self).timer_settings.break_time == (
            if old(self).timer_settings.break_time - BREAK_TIME_INCR > 0 {
                old(self).timer_settings.break_time - BREAK_TIME_INCR
            } else {
                old(self).timer_settings.break_time as int
            }),
            final(self).selected_setting == 2 ==> final(self).timer_settings.iterations == (
            if old(self).timer_settings.iterations > 1 {
                old(self).timer_settings.iterations - 1
            } else {
                old(self).timer_settings.iterations as int
            }),
            final(self).selected_setting == 3 ==> final(self).stats_setting.stats_on
                == !old(self).stats_setting.stats_on,
            final(self).selected_setting == 6 ==> final(self).ui_settings.pause_after_state_change
                == !old(self).ui_settings.pause_after_state_change,
            final(self).selected_setting == 7 ==> final(self).ui_settings.hide_work_countdown
                == !old(self).ui_settings.hide_work_countdown,
    {
        match self.selected_setting {
            0 => {
                if self.timer_settings.work_time > WORK_TIME_INCR {
                    self.timer_settings.work_time = self.timer_settings.work_time - WORK_TIME_INCR;
                }
            },
            1 => {
                if self.timer_settings.break_time > BREAK_TIME_INCR {
                    self.timer_settings.break_time = self.timer_settings.break_time
                        - BREAK_TIME_INCR;
                }
            },
            2 => {
                if self.timer_settings.iterations > 1 {
                    self.timer_settings.iterations = self.timer_settings.iterations - 1;
                }
            },
            3 => {
                self.stats_setting.stats_on = !self.stats_setting.stats_on;
            },
            6 => {
                self.ui_settings.pause_after_state_change =
                !self.ui_settings.pause_after_state_change;
            },
            7 => {
                self.ui_settings.hide_work_countdown = !self.ui_settings.hide_work_countdown;
            },
            _ => {},
        }
    }

    /// Raises the selected value one step; values already at their machine
    /// ceiling stay put.
    pub fn increment(&mut self)
        ensures
            final(self).selected_setting == old(self).selected_setting,
            final(self).mode == old(self).mode,
            old(self).selected_setting != 0 ==> final(self).timer_settings.work_time == old(self).timer_settings.work_time,
            old(self).selected_setting != 1 ==> final(self).timer_settings.break_time == old(self).timer_settings.break_time,
            old(self).selected_setting != 2 ==> final(self).timer_settings.iterations == old(self).timer_settings.iterations,
            old(self).selected_setting != 3 ==> final(self).stats_setting.stats_on == old(self).stats_setting.stats_on
                && final(self).stats_setting.pixela_username == old(self).stats_setting.pixela_username
                && final(self).stats_setting.pixela_token == old(self).stats_setting.pixela_token,
            old(self).selected_setting != 6 ==> final(self).ui_settings.pause_after_state_change
                == old(self).ui_settings.pause_after_state_change,
            old(self).selected_setting != 7 ==> final(self).ui_settings.hide_work_countdown
                == old(self).ui_settings.hide_work_countdown,
            final(self).selected_setting == 0 ==> final(self).timer_settings.work_time == (
            if old(self).timer_settings.work_time + WORK_TIME_INCR <= i64::MAX {
                old(self).timer_settings.work_time + WORK_TIME_INCR
            } else {
                old(self).timer_settings.work_time as int
            }),
            final(self).selected_setting == 1 ==> final(self).timer_settings.break_time == (
            if old(self).timer_settings.break_time + BREAK_TIME_INCR <= i64::MAX {
                old(self).timer_settings.break_time + BREAK_TIME_INCR
            } else {
                old(self).timer_settings.break_time as int
            }),
            final(self).selected_setting == 2 ==> final(self).timer_settings.iterations == (
            if old(self).timer_settings.iterations < u8::MAX {
                old(self).timer_settings.iterations + 1
            } else {
                old(self).timer_settings.iterations as int
            }),
            final(self).selected_setting == 3 ==> final(self).stats_setting.stats_on
                == !old(self).stats_setting.stats_on,
            final(self).selected_setting == 6 ==> final(self).ui_settings.pause_after_state_change
                == !old(self).ui_settings.pause_after_state_change,
            final(self).selected_setting == 7 ==> final(self).ui_settings.hide_work_countdown
                == !old(self).ui_settings.hide_work_countdown,
    {
        match self.selected_setting {
            0 => {
                if self.timer_settings.work_time <= i64::MAX - WORK_TIME_INCR {
                    self.timer_settings.work_time = self.timer_settings.work_time + WORK_TIME_INCR;
                }
            },
            1 => {
                if self.timer_settings.break_time <= i64::MAX - BREAK_TIME_INCR {
                    self.timer_settings.break_time = self.timer_settings.break_time
                        + BREAK_TIME_INCR;
                }
            },
            2 => {
                if self.timer_settings.iterations < u8::MAX {
                    self.timer_settings.iterations = self.timer_settings.iterations + 1;
                }
            },
            3 => {
                self.set_stats();
            },
            6 => {
                self.ui_settings.pause_after_state_change =
                !self.ui_settings.pause_after_state_change;
            },
            7 => {
                self.ui_settings.hide_work_countdown = !self.ui_settings.hide_work_countdown;
            },
            _ => {},
        }
    }

    /// Toggles remote tracking; turning it on makes the credential fields
    /// editable.
    pub fn set_stats(&mut self)
        ensures
            final(self).stats_setting.stats_on == !old(self).stats_setting.stats_on,
            final(self).selected_setting == old(self).selected_setting,
            final(self).mode == old(self).mode,
            final(self).ui_settings == old(self).ui_settings,
            final(self).timer_settings == old(self).timer_settings,
            final(self).stats_setting.stats_on ==> final(self).stats_setting.pixela_username
                is Some && final(self).stats_setting.pixela_token is Some,
    {
        self.stats_setting.stats_on = !self.stats_setting.stats_on;
        if self.stats_setting.stats_on {
            self.stats_setting.init_stats();
        }
    }

    /// Switches between navigating and editing a text field.
    pub fn change_mode(&mut self, mode: Mode)
        ensures
            final(self).mode == mode,
            final(self).selected_setting == old(self).selected_setting,
            final(self).ui_settings == old(self).ui_settings,
            final(self).timer_settings == old(self).timer_settings,
            final(self).stats_setting == old(self).stats_setting,
    {
        self.mode = mode;
    }

    /// The current editing mode.
    pub fn mode(&self) -> (m: &Mode)
        ensures
            *m == self.mode,
    {
        &self.mode
    }

    /// Routes a keystroke to whichever credential field is selected; any
    /// other selection ignores it.
    pub fn input(&mut self, key: InputKey, clipboard_response: Option<String>)
        ensures
            final(self).selected_setting == old(self).selected_setting,
            final(self).mode == old(self).mode,
            final(self).ui_settings == old(self).ui_settings,
            final(self).timer_settings == old(self).timer_settings,
            final(self).stats_setting.stats_on == old(self).stats_setting.stats_on,
            !(old(self).selected_setting == 4 || old(self).selected_setting == 5)
                ==> final(self).stats_setting == old(self).stats_setting,
            old(self).selected_setting == 4 ==> final(self).stats_setting.pixela_token == old(
                self,
            ).stats_setting.pixela_token && Self::edited(
                old(self).stats_setting.pixela_username,
                final(self).stats_setting.pixela_username,
                key,
                clipboard_response,
            ),
            old(self).selected_setting == 5 ==> final(self).stats_setting.pixela_username == old(
                self,
            ).stats_setting.pixela_username && Self::edited(
                old(self).stats_setting.pixela_token,
                final(self).stats_setting.pixela_token,
                key,
                clipboard_response,
            ),
    {
        let clip = clipboard_response;
        match self.selected_setting {
            4 => {
                match &mut self.stats_setting.pixela_username {
                    Some(value) => Self::process_input(key, value, clip),
                    None => {},
                }
            },
            5 => {
                match &mut self.stats_setting.pixela_token {
                    Some(value) => Self::process_input(key, value, clip),
                    None => {},
                }
            },
            _ => {},
        }
    }

    /// How an optional text field relates to its old value after one
    /// keystroke: an absent field stays absent and untouched, a present one
    /// holds the edited text.
    pub open spec fn edited(
        before: Option<String>,
        after: Option<String>,
        key: InputKey,
        clipboard: Option<String>,
    ) -> bool {
        match (before, after) {
            (Option::None, Option::None) => true,
            (Option::Some(b), Option::Some(a)) => a@ == Self::spec_edit(
                b@,
                key,
                match clipboard {
                    Option::Some(clip) => Option::Some(clip@),
                    Option::None => Option::None,
                },
            ),
            _ => false,
        }
    }

    /// The text after one keystroke: backspace drops the last character,
    /// paste replaces the whole text with the clipboard, and a plain
    /// character is appended.
    pub open spec fn spec_edit(
        text: Seq<char>,
        key: InputKey,
        clipboard: Option<Seq<char>>,
    ) -> Seq<char> {
        match key {
            InputKey::Backspace => if text.len() > 0 {
                text.drop_last()
            } else {
                text
            },
            InputKey::Paste => match clipboard {
                Some(clip) => clip,
                None => text,
            },
            InputKey::Char(c) => text.push(c),
            InputKey::Other => text,
        }
    }

    /// Applies one keystroke to a text field.
    pub fn process_input(
        key: InputKey,
        value_to_modify: &mut String,
        clipboard_response: Option<String>,
    )
        ensures
            final(value_to_modify)@ == Self::spec_edit(
                old(value_to_modify)@,
                key,
                match clipboard_response {
                    Some(clip) => Some(clip@),
                    None => None,
                },
            ),
    {
        match key {
            InputKey::Backspace => {
                if !value_to_modify.as_str().is_empty() {
                    let _ = pop_char(value_to_modify);
                }
            },
            InputKey::Paste => {
                if let Some(clip) = clipboard_response {
                    *value_to_modify = clip;
                }
            },
            InputKey::Char(letter) => {
                push_char(value_to_modify, letter);
            },
            InputKey::Other => {},
        }
    }
}

} // verus!
