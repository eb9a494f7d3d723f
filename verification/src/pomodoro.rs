//! The controller that ties the timer to the progress ledger: it counts
//! the seconds worked since the last flush, and on phase boundaries turns
//! them into a progress record for the tracking client. The event loop,
//! the channels and the persistence around it live outside this crate.

use vstd::prelude::*;

use crate::counter::{TimerCommand, TimerState};
use crate::dates::PixelDate;
use crate::error::{Error, StatsError};
use crate::pixel::{Pixel, PixelView};
use crate::pixela_client::PixelaClient;
use crate::pixela_user::PixelaUser;
use crate::progress::Progress;
use crate::settings::{StatsSettings, TimerSettings};
use crate::subjects::{spec_transform_progress, Subject};
use crate::timer::{
    spec_next_iteration, spec_next_iteration_cmds, spec_reset_work, spec_restart,
    spec_settings_ok, Timer, TimerModel, TimerTickOutcome,
};

verus! {

/// Whether a flush of `seconds` of work would be refused: a subject is
/// chosen and the scaled value falls below the smallest progress its
/// graph accepts. With no subject chosen the record is a plain local
/// note, which no minimum applies to.
pub open spec fn spec_flush_rejected(client: PixelaClient, seconds: int) -> bool {
    &&& client.current_subject_index != 0
    &&& (client.current_subject_index as int) < client.subjects@.items.len()
    &&& ({
        let subject = client.subjects@.items[client.current_subject_index as int]@;
        crate::progress::spec_minute_value(spec_transform_progress(subject.data_type, seconds))
            < crate::subjects::spec_min_increment_minutes(subject.unit, subject.data_type)
    })
}

/// The timer, the tracking client when one is configured, and the
/// seconds of work accumulated since the last record was flushed.
#[derive(Debug)]
pub struct Pomodoro {
    pub timer: Timer,
    pub pixela_client: Option<PixelaClient>,
    pub duration_since_last_save: i64,
}

impl Pomodoro {
    /// A controller over a timer, with no tracking client yet and
    /// nothing accumulated.
    pub fn new(timer: Timer) -> (r: Pomodoro)
        ensures
            r.timer@ == timer@,
            r.pixela_client is None,
            r.duration_since_last_save == 0,
    {
        Pomodoro { timer, pixela_client: None, duration_since_last_save: 0 }
    }

    /// The subject progress is being logged against, when a client is
    /// configured and a subject chosen.
    pub fn get_current_subject(&self) -> (r: Option<Subject>)
        ensures
            self.pixela_client is None ==> r is None,
            self.pixela_client matches Some(client) ==> (match r {
                Some(s) => client.current_subject_index != 0 && client.current_subject_index
                    < client.subjects@.items.len() && s@ == client.subjects@.items[client.current_subject_index as int]@,
                None => client.current_subject_index == 0 || client.current_subject_index
                    >= client.subjects@.items.len(),
            }),
    {
        if let Some(pixela) = &self.pixela_client {
            pixela.get_current_subject()
        } else {
            None
        }
    }

    /// Starts the timer when it stands, stops it when it runs; the
    /// commands go to the clock driver.
    pub fn cycle(&mut self) -> (cmds: Vec<TimerCommand>)
        ensures
            final(self).timer@ == (TimerModel {
                running: !old(self).timer@.running,
                ..old(self).timer@
            }),
            cmds@ == (if old(self).timer@.running {
                seq![TimerCommand::Stop]
            } else {
                seq![TimerCommand::Start]
            }),
            final(self).pixela_client == old(self).pixela_client,
            final(self).duration_since_last_save == old(self).duration_since_last_save,
    {
        if self.timer.get_running() {
            self.timer.stop()
        } else {
            self.timer.start()
        }
    }

    /// The configured work phase.
    pub fn get_work_state(&self) -> (r: TimerState)
        ensures
            r == self.timer@.data.work_state,
    {
        self.timer.work_state()
    }

    /// Whether everything counted so far has been flushed into a record.
    pub fn is_duration_saved(&self) -> (r: bool)
        ensures
            r == (self.duration_since_last_save == 0),
    {
        self.duration_since_last_save == 0
    }

    /// Opens the tracking client from the persisted settings and the
    /// records read from local storage. Refused while tracking is off,
    /// and when the credentials are absent or empty.
    pub fn try_init_pixela_client(&mut self, stats: &StatsSettings, pixels: Vec<Pixel>) -> (r:
        Result<(), Error>)
        requires
            2 * pixels@.len() <= usize::MAX,
        ensures
            final(self).timer@ == old(self).timer@,
            final(self).duration_since_last_save == old(self).duration_since_last_save,
            match r {
                Ok(_) => {
                    &&& stats.stats_on
                    &&& stats.pixela_username matches Some(u) && u@.len() > 0
                    &&& stats.pixela_token is Some
                    &&& final(self).pixela_client matches Some(client)
                        && client.pixels@.items == pixels@ && !client.logged_in && client.user@.username
                        == stats.pixela_username.unwrap()@ && client.user@.token
                        == stats.pixela_token.unwrap()@
                },
                Err(e) => final(self).pixela_client == old(self).pixela_client && ((e matches
                Error::StatsError(StatsError::StatsTrackingTurnedOff) && !stats.stats_on) || (
                e matches Error::StatsError(StatsError::UserNotProvided) && stats.stats_on && (
                stats.pixela_username is None || stats.pixela_token is None
                    || stats.pixela_username.unwrap()@.len() == 0))),
            },
    {
        if !stats.stats_on {
            return Err(Error::StatsError(StatsError::StatsTrackingTurnedOff));
        }
        let username = match &stats.pixela_username {
            Some(u) => u.clone(),
            None => {
                return Err(Error::StatsError(StatsError::UserNotProvided));
            },
        };
        let token = match &stats.pixela_token {
            Some(t) => t.clone(),
            None => {
                return Err(Error::StatsError(StatsError::UserNotProvided));
            },
        };
        let user = PixelaUser::new(username, token);
        if !user.validate_not_empty() {
            return Err(Error::StatsError(StatsError::UserNotProvided));
        }
        self.pixela_client = Some(PixelaClient::new(user, pixels));
        Ok(())
    }

    /// Books one published tick: the timer stores it, and the ledger
    /// counts one more second towards the next record.
    pub fn set_time_left(&mut self, time: i64)
        requires
            old(self).timer@.data.current_state is Work ==> old(self).timer@.data.total_elapsed
                < i64::MAX,
            old(self).duration_since_last_save < i64::MAX,
        ensures
            final(self).timer@.data.time_left == time as int,
            final(self).timer@.data.total_elapsed == if old(self).timer@.data.current_state
                is Work {
                old(self).timer@.data.total_elapsed + 1
            } else {
                old(self).timer@.data.total_elapsed as int
            },
            final(self).timer@.running == old(self).timer@.running,
            final(self).timer@.mode == old(self).timer@.mode,
            final(self).timer@.data.iteration == old(self).timer@.data.iteration,
            final(self).timer@.data.current_state == old(self).timer@.data.current_state,
            final(self).timer@.data.work_state == old(self).timer@.data.work_state,
            final(self).timer@.data.break_state == old(self).timer@.data.break_state,
            final(self).timer@.data.total_iterations == old(self).timer@.data.total_iterations,
            final(self).timer@.data.total_time == old(self).timer@.data.total_time,
            final(self).duration_since_last_save == old(self).duration_since_last_save + 1,
            final(self).pixela_client == old(self).pixela_client,
    {
        self.timer.handle_time_left(time);
        self.duration_since_last_save = self.duration_since_last_save + 1;
    }

    /// Flushes the seconds counted since the last record into one
    /// progress record dated `date`: scaled by the chosen subject when
    /// one is chosen, a plain note of whole minutes otherwise. The
    /// accumulator starts over. Refused when no tracking client is
    /// configured; emission of a value below the chosen subject's
    /// minimum increment is rejected with the quantity error, and the
    /// accumulated work is kept for the next flush, never dropped. The
    /// caller persists the store afterwards.
    pub fn log_pixel_from_duration(&mut self, date: PixelDate) -> (r: Result<(), Error>)
        requires
            date.wf(),
            0 <= old(self).duration_since_last_save,
            old(self).duration_since_last_save * 100 <= u64::MAX,
        ensures
            final(self).timer@ == old(self).timer@,
            match r {
                Ok(_) => {
                    &&& old(self).pixela_client is Some
                    &&& final(self).duration_since_last_save == 0
                    &&& final(self).pixela_client matches Some(client)
                    &&& old(self).pixela_client matches Some(old_client) && ({
                        let seconds = old(self).duration_since_last_save as int;
                        let chosen = old_client.current_subject_index != 0
                            && old_client.current_subject_index < old_client.subjects@.items.len();
                        &&& !spec_flush_rejected(old_client, seconds)
                        &&& client.pixels@.items.len() == old_client.pixels@.items.len() + 1
                        &&& forall|i: int|
                            0 <= i < old_client.pixels@.items.len()
                                ==> #[trigger] client.pixels@.items[i] == old_client.pixels@.items[i]
                        &&& (if chosen {
                            client.pixels@.items.last()@ matches PixelView::Complex(cp)
                                && cp.subject == old_client.subjects@.items[old_client.current_subject_index as int]@
                                && cp.date == date && cp.progress == spec_transform_progress(
                                cp.subject.data_type,
                                seconds,
                            )
                        } else {
                            client.pixels@.items.last()@ matches PixelView::Simple(sp)
                                && sp.progress == seconds / 60 && sp.date == date.spec_display()
                        })
                    })
                },
                Err(e) => match old(self).pixela_client {
                    Option::None => *final(self) == *old(self) && e matches Error::StatsError(
                        StatsError::StatsTrackingTurnedOff,
                    ),
                    Option::Some(old_client) => {
                        &&& spec_flush_rejected(
                            old_client,
                            old(self).duration_since_last_save as int,
                        )
                        &&& e matches Error::StatsError(StatsError::QuantityIsNotBigEnough)
                        &&& final(self).pixela_client == old(self).pixela_client
                        &&& final(self).duration_since_last_save == old(self).duration_since_last_save
                    },
                },
            },
    {
        let seconds = self.duration_since_last_save;
        match &mut self.pixela_client {
            Some(client) => {
                let subject = client.get_current_subject();
                let duration: Progress = match &subject {
                    Some(s) => s.transform_progress(seconds),
                    None => Progress::Int((seconds / 60) as u64),
                };
                if let Some(s) = &subject {
                    if duration.minute_value() < s.get_min_increment() {
                        return Err(Error::StatsError(StatsError::QuantityIsNotBigEnough));
                    }
                }
                proof {
                    if duration matches Progress::Float(c) {
                        assert(seconds * 100 / 3600 < u64::MAX);
                    }
                }
                client.add_pixel(date, subject, duration);
                self.duration_since_last_save = 0;
                Ok(())
            },
            None => Err(Error::StatsError(StatsError::StatsTrackingTurnedOff)),
        }
    }

    /// Answers one tick value. At the terminal tick the work just done is
    /// flushed into a record — when a tracking client with work to flush
    /// is there — and the timer advances or, at the last work phase,
    /// finishes. A failure to flush is reported back without holding up
    /// the timer; an ordinary tick is plain bookkeeping.
    pub fn handle_timer_responses(
        &mut self,
        time: i64,
        settings: &TimerSettings,
        pause_after: bool,
        date: PixelDate,
    ) -> (r: (TimerTickOutcome, Vec<TimerCommand>, Option<Error>))
        requires
            date.wf(),
            old(self).timer@.mode is Countup ==> 0 <= old(self).timer@.data.time_left,
            spec_settings_ok(settings.work_time, settings.break_time),
            old(self).timer@.data.total_elapsed < i64::MAX,
            0 <= old(self).duration_since_last_save,
            old(self).duration_since_last_save * 100 <= u64::MAX,
            old(self).duration_since_last_save < i64::MAX,
        ensures
            time == -1 && old(self).timer@.data.iteration < old(self).timer@.data.total_iterations
                ==> ({
                &&& r.0 == TimerTickOutcome::Advanced
                &&& final(self).timer@ == spec_next_iteration(
                    old(self).timer@,
                    settings.work_time,
                    settings.break_time,
                    pause_after,
                )
                &&& r.1@ == spec_next_iteration_cmds(
                    old(self).timer@,
                    settings.work_time,
                    settings.break_time,
                    pause_after,
                )
            }),
            time == -1 && old(self).timer@.data.iteration >= old(self).timer@.data.total_iterations
                ==> ({
                let stopped = TimerModel { running: false, ..old(self).timer@ };
                &&& r.0 == TimerTickOutcome::Finished
                &&& final(self).timer@ == spec_restart(
                    stopped,
                    settings.work_time,
                    settings.break_time,
                )
                &&& r.1@ == seq![TimerCommand::Stop] + seq![
                    TimerCommand::Restart(spec_reset_work(stopped, settings.work_time)),
                ]
            }),
            time != -1 ==> ({
                &&& r.0 == TimerTickOutcome::Ticked
                &&& r.1@ == Seq::<TimerCommand>::empty()
                &&& final(self).timer@.data.time_left == time as int
                &&& final(self).duration_since_last_save == old(self).duration_since_last_save + 1
                &&& r.2 is None
            }),
            time == -1 && old(self).pixela_client is None ==> final(self).pixela_client is None,
            time == -1 && old(self).pixela_client is Some && old(self).timer@.data.current_state
                is Work ==> (old(self).pixela_client matches Some(old_client) && (
            if spec_flush_rejected(old_client, old(self).duration_since_last_save as int) {
                &&& final(self).duration_since_last_save == old(self).duration_since_last_save
                &&& final(self).pixela_client == old(self).pixela_client
                &&& r.2 matches Some(e) && e matches Error::StatsError(
                    StatsError::QuantityIsNotBigEnough,
                )
            } else {
                &&& final(self).duration_since_last_save == 0
                &&& r.2 is None
                &&& final(self).pixela_client matches Some(client)
                    && client.pixels@.items.len() == old_client.pixels@.items.len() + 1
            })),
            time == -1 && !(old(self).pixela_client is Some
                && old(self).timer@.data.current_state is Work) ==> final(self).duration_since_last_save
                == old(self).duration_since_last_save && final(self).pixela_client == old(self).pixela_client,
    {
        if time == -1 {
            let flush_report: Option<Error> = if self.pixela_client.is_some() && self.timer.in_work_state() {
                match self.log_pixel_from_duration(date) {
                    Ok(_) => None,
                    Err(e) => Some(e),
                }
            } else {
                None
            };
            if self.timer.iteration() < self.timer.total_iterations() {
                let cmds = self.timer.next_iteration(settings, pause_after);
                (TimerTickOutcome::Advanced, cmds, flush_report)
            } else {
                let mut cmds = self.timer.stop();
                let mut rest = self.timer.restart(settings);
                cmds.append(&mut rest);
                proof {
                    let stopped = TimerModel { running: false, ..old(self).timer@ };
                    assert(cmds@ =~= seq![TimerCommand::Stop] + seq![
                        TimerCommand::Restart(spec_reset_work(stopped, settings.work_time)),
                    ]);
                }
                (TimerTickOutcome::Finished, cmds, flush_report)
            }
        } else {
            self.set_time_left(time);
            let cmds: Vec<TimerCommand> = Vec::new();
            proof {
                assert(cmds@ =~= Seq::<TimerCommand>::empty());
            }
            (TimerTickOutcome::Ticked, cmds, None)
        }
    }

    /// Chooses the subject progress is logged against, when a tracking
    /// client is configured.
    pub fn set_current_subject_index(&mut self, current_subject_index: usize)
        ensures
            final(self).timer@ == old(self).timer@,
            final(self).duration_since_last_save == old(self).duration_since_last_save,
            old(self).pixela_client is None ==> final(self).pixela_client is None,
            old(self).pixela_client matches Some(_) ==> final(self).pixela_client matches Some(
                client,
            ) && client.current_subject_index == current_subject_index,
    {
        if let Some(client) = &mut self.pixela_client {
            client.current_subject_index = current_subject_index;
        }
    }
}

} // verus!
