//! Tab navigation state for the three top-level views and for the panes of
//! the settings and statistics views.

use vstd::prelude::*;

verus! {

/// Top-level view that currently has the keyboard focus.
#[derive(Debug, Clone, Copy, PartialEq, Eq, Structural)]
pub enum Tabs {
    TimerTab,
    SettingsTab,
    StatsTab,
    NoTab,
}

impl Tabs {
    /// Moves the focus to the next view; the detached state stays put.
    pub fn next(&mut self)
        ensures
            *final(self) == (match *old(self) {
                Tabs::TimerTab => Tabs::SettingsTab,
                Tabs::SettingsTab => Tabs::StatsTab,
                Tabs::StatsTab => Tabs::TimerTab,
                Tabs::NoTab => Tabs::NoTab,
            }),
    {
        *self = match self {
            Tabs::TimerTab => Tabs::SettingsTab,
            Tabs::SettingsTab => Tabs::StatsTab,
            Tabs::StatsTab => Tabs::TimerTab,
            Tabs::NoTab => Tabs::NoTab,
        };
    }

    /// Moves the focus to the previous view; the detached state stays put.
    pub fn prev(&mut self)
        ensures
            *final(self) == (match *old(self) {
                Tabs::TimerTab => Tabs::StatsTab,
                Tabs::SettingsTab => Tabs::TimerTab,
                Tabs::StatsTab => Tabs::SettingsTab,
                Tabs::NoTab => Tabs::NoTab,
            }),
    {
        *self = match self {
            Tabs::TimerTab => Tabs::StatsTab,
            Tabs::SettingsTab => Tabs::TimerTab,
            Tabs::StatsTab => Tabs::SettingsTab,
            Tabs::NoTab => Tabs::NoTab,
        };
    }

    /// Index of the view, as the rendering layer orders them.
    pub fn index(&self) -> (i: usize)
        ensures
            i == (match *self {
                Tabs::TimerTab => 0usize,
                Tabs::SettingsTab => 1usize,
                Tabs::StatsTab => 2usize,
                Tabs::NoTab => 3usize,
            }),
    {
        match self {
            Tabs::TimerTab => 0,
            Tabs::SettingsTab => 1,
            Tabs::StatsTab => 2,
            Tabs::NoTab => 3,
        }
    }
}

/// Pane of the settings view that is currently selected.
#[derive(Debug, Clone, Copy, Default, PartialEq, Eq, Structural)]
pub enum SettingsTabs {
    #[default]
    Mode,
    Pomodoro,
    Preferences,
    Stats,
}

impl SettingsTabs {
    /// How many individual settings the pane holds.
    pub fn amount(&self) -> (n: u8)
        ensures
            n == (match *self {
                SettingsTabs::Mode => 1u8,
                SettingsTabs::Pomodoro => 3u8,
                SettingsTabs::Preferences => 2u8,
                SettingsTabs::Stats => 3u8,
            }),
    {
        match self {
            SettingsTabs::Mode => 1,
            SettingsTabs::Pomodoro => 3,
            SettingsTabs::Preferences => 2,
            SettingsTabs::Stats => 3,
        }
    }

    /// Pane below this one; the pomodoro pane is skipped when it is off.
    pub fn down(self, pomodoro_off: bool) -> (r: Self)
        ensures
            r == (match self {
                SettingsTabs::Mode => if pomodoro_off {
                    SettingsTabs::Preferences
                } else {
                    SettingsTabs::Pomodoro
                },
                SettingsTabs::Pomodoro => SettingsTabs::Preferences,
                SettingsTabs::Preferences => SettingsTabs::Preferences,
                SettingsTabs::Stats => SettingsTabs::Preferences,
            }),
    {
        match self {
            SettingsTabs::Mode if pomodoro_off => SettingsTabs::Preferences,
            SettingsTabs::Mode => SettingsTabs::Pomodoro,
            SettingsTabs::Pomodoro => SettingsTabs::Preferences,
            SettingsTabs::Preferences => SettingsTabs::Preferences,
            SettingsTabs::Stats => SettingsTabs::Preferences,
        }
    }

    /// Pane above this one; the pomodoro pane is skipped when it is off.
    pub fn up(self, pomodoro_off: bool) -> (r: Self)
        ensures
            r == (match self {
                SettingsTabs::Mode => SettingsTabs::Mode,
                SettingsTabs::Pomodoro => SettingsTabs::Mode,
                SettingsTabs::Preferences => if pomodoro_off {
                    SettingsTabs::Mode
                } else {
                    SettingsTabs::Pomodoro
                },
                SettingsTabs::Stats => SettingsTabs::Stats,
            }),
    {
        match self {
            SettingsTabs::Mode => SettingsTabs::Mode,
            SettingsTabs::Pomodoro => SettingsTabs::Mode,
            SettingsTabs::Preferences if pomodoro_off => SettingsTabs::Mode,
            SettingsTabs::Preferences => SettingsTabs::Pomodoro,
            SettingsTabs::Stats => SettingsTabs::Stats,
        }
    }

    /// Pane to the right: always the statistics pane.
    pub fn right(self) -> (r: Self)
        ensures
            r == SettingsTabs::Stats,
    {
        SettingsTabs::Stats
    }

    /// Pane to the left: only the statistics pane moves, back to the first.
    pub fn left(self) -> (r: Self)
        ensures
            r == (match self {
                SettingsTabs::Stats => SettingsTabs::Mode,
                _ => self,
            }),
    {
        match self {
            SettingsTabs::Mode => SettingsTabs::Mode,
            SettingsTabs::Pomodoro => SettingsTabs::Pomodoro,
            SettingsTabs::Preferences => SettingsTabs::Preferences,
            SettingsTabs::Stats => SettingsTabs::Mode,
        }
    }
}

/// Pane of the statistics view that has the focus.
#[derive(Debug, Clone, Copy, PartialEq, Eq, Structural)]
pub enum PixelaTabs {
    Pixels,
    Subject,
}

impl PixelaTabs {
    /// Moves the focus one pane to the right; the rightmost pane stays.
    pub fn right(&mut self)
        ensures
            *final(self) == PixelaTabs::Subject,
    {
        *self = match self {
            PixelaTabs::Pixels => PixelaTabs::Subject,
            PixelaTabs::Subject => PixelaTabs::Subject,
        };
    }

    /// Moves the focus one pane to the left; the leftmost pane stays.
    pub fn left(&mut self)
        ensures
            *final(self) == PixelaTabs::Pixels,
    {
        *self = match self {
            PixelaTabs::Pixels => PixelaTabs::Pixels,
            PixelaTabs::Subject => PixelaTabs::Pixels,
        };
    }
}

} // verus!
