//! Calendar timestamps as plain values. Progress records carry the moment
//! they were made as year, month, day, hour and minute; aggregation
//! compares the date part only, and the remote service is addressed with
//! the date formatted as eight digits. What only a calendar implementation
//! can compute — the present moment, and walking whole days backwards
//! across month and leap-year boundaries — is obtained from the `chrono`
//! crate through the two trusted functions at the bottom.

use vstd::prelude::*;

use chrono::{Datelike, Timelike};

use crate::text::{push_char, spec_digit_char};

verus! {

/// A local calendar timestamp, to the minute.
#[derive(Debug, Clone, Copy, PartialEq, Eq, Structural)]
pub struct PixelDate {
    pub year: i32,
    pub month: u8,
    pub day: u8,
    pub hour: u8,
    pub minute: u8,
}

impl PixelDate {
    /// The ranges a calendar timestamp keeps to. Years are confined to
    /// four digits, as the remote service's date format spells them.
    pub open spec fn wf(self) -> bool {
        &&& 0 <= self.year <= 9999
        &&& 1 <= self.month <= 12
        &&& 1 <= self.day <= 31
        &&& self.hour <= 23
        &&& self.minute <= 59
    }

    /// Whether two timestamps fall on the same calendar date.
    pub open spec fn spec_same_day(self, other: PixelDate) -> bool {
        self.year == other.year && self.month == other.month && self.day == other.day
    }

    /// Whether this timestamp falls on the same calendar date as `other`.
    pub fn same_day(&self, other: &PixelDate) -> (r: bool)
        ensures
            r == self.spec_same_day(*other),
    {
        self.year == other.year && self.month == other.month && self.day == other.day
    }

    /// The timestamp with its time of day discarded.
    pub fn day_only(&self) -> (r: PixelDate)
        ensures
            r == (PixelDate { hour: 0, minute: 0, ..*self }),
    {
        PixelDate { year: self.year, month: self.month, day: self.day, hour: 0, minute: 0 }
    }

    /// The eight digits of the date, year then month then day, each part
    /// padded with zeros.
    pub open spec fn spec_yyyymmdd(self) -> Seq<char> {
        seq![
            spec_digit_char(self.year as int / 1000 % 10),
            spec_digit_char(self.year as int / 100 % 10),
            spec_digit_char(self.year as int / 10 % 10),
            spec_digit_char(self.year as int % 10),
            spec_digit_char(self.month as int / 10 % 10),
            spec_digit_char(self.month as int % 10),
            spec_digit_char(self.day as int / 10 % 10),
            spec_digit_char(self.day as int % 10),
        ]
    }

    /// The date as the remote service addresses it: eight digits, year,
    /// month and day, zero-padded.
    pub fn format_yyyymmdd(&self) -> (r: String)
        requires
            self.wf(),
        ensures
            r@ == self.spec_yyyymmdd(),
    {
        let mut s = String::new();
        push_digit(&mut s, (self.year / 1000 % 10) as u64);
        push_digit(&mut s, (self.year / 100 % 10) as u64);
        push_digit(&mut s, (self.year / 10 % 10) as u64);
        push_digit(&mut s, (self.year % 10) as u64);
        push_digit(&mut s, (self.month / 10 % 10) as u64);
        push_digit(&mut s, (self.month % 10) as u64);
        push_digit(&mut s, (self.day / 10 % 10) as u64);
        push_digit(&mut s, (self.day % 10) as u64);
        proof {
            assert(s@ =~= self.spec_yyyymmdd());
        }
        s
    }
}

impl PixelDate {
    /// The timestamp written out for people: date with slashes, then the
    /// time, minute precision.
    pub open spec fn spec_display(self) -> Seq<char> {
        seq![
            spec_digit_char(self.year as int / 1000 % 10),
            spec_digit_char(self.year as int / 100 % 10),
            spec_digit_char(self.year as int / 10 % 10),
            spec_digit_char(self.year as int % 10),
            '/',
            spec_digit_char(self.month as int / 10 % 10),
            spec_digit_char(self.month as int % 10),
            '/',
            spec_digit_char(self.day as int / 10 % 10),
            spec_digit_char(self.day as int % 10),
            ' ',
            spec_digit_char(self.hour as int / 10 % 10),
            spec_digit_char(self.hour as int % 10),
            ':',
            spec_digit_char(self.minute as int / 10 % 10),
            spec_digit_char(self.minute as int % 10),
        ]
    }

    /// Writes the timestamp out for people: date with slashes, then the
    /// time, minute precision.
    #[verifier::rlimit(100)]
    pub fn format_display(&self) -> (r: String)
        requires
            self.wf(),
        ensures
            r@ == self.spec_display(),
    {
        let y1: u64 = (self.year / 1000 % 10) as u64;
        let y2: u64 = (self.year / 100 % 10) as u64;
        let y3: u64 = (self.year / 10 % 10) as u64;
        let y4: u64 = (self.year % 10) as u64;
        let m1: u64 = (self.month / 10 % 10) as u64;
        let m2: u64 = (self.month % 10) as u64;
        let d1: u64 = (self.day / 10 % 10) as u64;
        let d2: u64 = (self.day % 10) as u64;
        let h1: u64 = (self.hour / 10 % 10) as u64;
        let h2: u64 = (self.hour % 10) as u64;
        let n1: u64 = (self.minute / 10 % 10) as u64;
        let n2: u64 = (self.minute % 10) as u64;
        proof {
            assert(y1 as int == self.year as int / 1000 % 10);
            assert(y2 as int == self.year as int / 100 % 10);
            assert(y3 as int == self.year as int / 10 % 10);
            assert(y4 as int == self.year as int % 10);
            assert(m1 as int == self.month as int / 10 % 10);
            assert(m2 as int == self.month as int % 10);
            assert(d1 as int == self.day as int / 10 % 10);
            assert(d2 as int == self.day as int % 10);
            assert(h1 as int == self.hour as int / 10 % 10);
            assert(h2 as int == self.hour as int % 10);
            assert(n1 as int == self.minute as int / 10 % 10);
            assert(n2 as int == self.minute as int % 10);
        }
        let mut s = String::new();
        push_digit(&mut s, y1);
        push_digit(&mut s, y2);
        push_digit(&mut s, y3);
        push_digit(&mut s, y4);
        push_char(&mut s, '/');
        push_digit(&mut s, m1);
        push_digit(&mut s, m2);
        push_char(&mut s, '/');
        push_digit(&mut s, d1);
        push_digit(&mut s, d2);
        push_char(&mut s, ' ');
        push_digit(&mut s, h1);
        push_digit(&mut s, h2);
        push_char(&mut s, ':');
        push_digit(&mut s, n1);
        push_digit(&mut s, n2);
        proof {
            assert(s@ =~= self.spec_display());
        }
        s
    }
}

fn push_digit(s: &mut String, d: u64)
    requires
        d < 10,
    ensures
        final(s)@ == old(s)@.push(spec_digit_char(d as int)),
{
    match d {
        0 => push_char(s, '0'),
        1 => push_char(s, '1'),
        2 => push_char(s, '2'),
        3 => push_char(s, '3'),
        4 => push_char(s, '4'),
        5 => push_char(s, '5'),
        6 => push_char(s, '6'),
        7 => push_char(s, '7'),
        8 => push_char(s, '8'),
        _ => push_char(s, '9'),
    }
}

/// The calendar date `n` whole days before the given one, as year, month
/// and day. Walking across month ends and leap years is the calendar
/// implementation's business; this name stands for its answer.
pub uninterp spec fn spec_days_back(year: int, month: int, day: int, n: int) -> (int, int, int);

/// Relies on chrono's NaiveDate::checked_sub_days: the date `n` whole days
/// earlier, which depends on the arguments alone. NaiveDate::from_ymd_opt
/// converts the plain values in and answers nothing for an impossible
/// date, such as the thirty-first of a short month; the Datelike
/// accessors convert the answer back, with the ranges their
/// documentation gives for month and day.
#[verifier::external_body]
fn chrono_days_back(date: &PixelDate, n: u32) -> (r: Option<PixelDate>)
    ensures
        match r {
            Some(p) => {
                &&& 1 <= p.month <= 12
                &&& 1 <= p.day <= 31
                &&& p.hour == 0
                &&& p.minute == 0
                &&& (p.year as int, p.month as int, p.day as int) == spec_days_back(
                    date.year as int,
                    date.month as int,
                    date.day as int,
                    n as int,
                )
            },
            None => true,
        },
{
    let d = chrono::NaiveDate::from_ymd_opt(date.year, date.month as u32, date.day as u32)?;
    let back = d.checked_sub_days(chrono::Days::new(n as u64))?;
    Some(PixelDate {
        year: back.year(),
        month: back.month() as u8,
        day: back.day() as u8,
        hour: 0,
        minute: 0,
    })
}

/// The date `n` whole days before the given one, when the calendar can
/// compute it and it stays within the four-digit years this crate
/// handles.
pub fn days_back(date: &PixelDate, n: u32) -> (r: Option<PixelDate>)
    ensures
        match r {
            Some(p) => {
                &&& p.wf()
                &&& p.hour == 0
                &&& p.minute == 0
                &&& (p.year as int, p.month as int, p.day as int) == spec_days_back(
                    date.year as int,
                    date.month as int,
                    date.day as int,
                    n as int,
                )
            },
            None => true,
        },
{
    match chrono_days_back(date, n) {
        Some(p) => {
            if 0 <= p.year && p.year <= 9999 {
                Some(p)
            } else {
                None
            }
        },
        None => None,
    }
}

/// Relies on chrono's Local::now: the present local moment, reduced to
/// plain calendar values by the Datelike and Timelike accessors, whose
/// documentation gives the ranges promised here. The year is whatever
/// the clock says.
#[verifier::external_body]
fn chrono_now_local() -> (r: PixelDate)
    ensures
        1 <= r.month <= 12,
        1 <= r.day <= 31,
        r.hour <= 23,
        r.minute <= 59,
{
    let now = chrono::Local::now();
    PixelDate {
        year: now.year(),
        month: now.month() as u8,
        day: now.day() as u8,
        hour: now.hour() as u8,
        minute: now.minute() as u8,
    }
}

/// The present local moment, with the year held to the four digits this
/// crate handles.
pub fn now_local() -> (r: PixelDate)
    ensures
        r.wf(),
{
    let now = chrono_now_local();
    let year = if now.year < 0 {
        0
    } else if now.year > 9999 {
        9999
    } else {
        now.year
    };
    PixelDate { year, month: now.month, day: now.day, hour: now.hour, minute: now.minute }
}

/// The date `k` days before `today`, with the time of day discarded;
/// zero days back is `today`'s own date.
pub open spec fn spec_window_day(today: PixelDate, k: int) -> PixelDate {
    if k == 0 {
        PixelDate { hour: 0, minute: 0, ..today }
    } else {
        let (y, m, d) = spec_days_back(today.year as int, today.month as int, today.day as int, k);
        PixelDate { year: y as i32, month: m as u8, day: d as u8, hour: 0, minute: 0 }
    }
}

/// The last `n` calendar dates up to and including `today`, oldest first.
/// When the calendar cannot reach far enough back, the result holds only
/// the newest dates it could compute, still ending with `today`.
pub fn recent_window(today: &PixelDate, n: usize) -> (r: Vec<PixelDate>)
    requires
        1 <= n <= u32::MAX,
    ensures
        1 <= r@.len() <= n,
        forall|i: int|
            0 <= i < r@.len() ==> #[trigger] r@[i] == spec_window_day(
                *today,
                r@.len() - 1 - i,
            ),
{
    let mut back: Vec<PixelDate> = Vec::new();
    back.push(today.day_only());
    let mut k: usize = 1;
    while k < n
        invariant
            1 <= back@.len() <= k <= n <= u32::MAX,
            forall|i: int| 0 <= i < back@.len() ==> #[trigger] back@[i] == spec_window_day(
                *today,
                i,
            ),
        decreases n - k,
    {
        if back.len() == k {
            match days_back(today, k as u32) {
                Some(d) => {
                    proof {
                        let (y, m, dd) = spec_days_back(
                            today.year as int,
                            today.month as int,
                            today.day as int,
                            k as int,
                        );
                        assert(y == d.year as int && m == d.month as int && dd == d.day as int);
                        assert(d == spec_window_day(*today, k as int));
                    }
                    back.push(d);
                },
                None => {},
            }
        }
        k = k + 1;
    }
    let mut r: Vec<PixelDate> = Vec::new();
    let total = back.len();
    let mut j: usize = 0;
    while j < total
        invariant
            total == back@.len(),
            j <= total,
            forall|i: int| 0 <= i < back@.len() ==> #[trigger] back@[i] == spec_window_day(
                *today,
                i,
            ),
            r@.len() == j,
            forall|i: int| 0 <= i < j ==> #[trigger] r@[i] == spec_window_day(
                *today,
                total - 1 - i,
            ),
        decreases total - j,
    {
        r.push(back[total - 1 - j]);
        j = j + 1;
    }
    r
}

} // verus!
