//! Core logic of a terminal work/break interval timer that can report
//! accumulated work time to a remote habit-tracking service.
//!
//! The crate holds the verified state machines and rules: the clock driver
//! counter, the timer facade, the progress ledger and the upload session.
//! All terminal, file and network plumbing lives outside, in ordinary Rust
//! that drives these types through their public methods.

use vstd::prelude::*;

pub mod ascii_time;
pub mod counter;
pub mod dates;
pub mod error;
pub mod graph;
pub mod pixel;
pub mod pixela_client;
pub mod pixela_user;
pub mod pomodoro;
pub mod progress;
pub mod settings;
pub mod stateful_list;
pub mod subjects;
pub mod sync;
pub mod tabs;
pub mod text;
pub mod timer;
pub mod timer_data;

verus! {

/// Default length of a work phase, in seconds.
pub const DEFAULT_WORK: i64 = 1500;

/// Default length of a break phase, in seconds.
pub const DEFAULT_BREAK: i64 = 300;

/// Default number of work phases in one run.
pub const DEFAULT_ITERATIONS: u8 = 4;

/// Step used when a work duration is edited in the settings, in seconds.
pub const WORK_TIME_INCR: i64 = 60;

/// Step used when a break duration is edited in the settings, in seconds.
pub const BREAK_TIME_INCR: i64 = 60;

/// Smallest progress, in minutes, that a minutes-based graph accepts.
pub const MIN_MINS_INCREMENT: u64 = 1;

/// Smallest progress, in minutes, that an hours-based integer graph accepts.
pub const MIN_HOUR_INCREMENT: u64 = 60;

/// Smallest progress, in minutes, that an hours-based fractional graph
/// accepts: a quarter of an hour.
pub const MIN_FLOAT_HOUR_INCREMENT: u64 = 15;

} // verus!
