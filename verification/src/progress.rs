//! Progress amounts. A record's progress is either a whole number of
//! minutes or a fractional number of hours; the fractional form is held
//! in hundredths of an hour, so every rule about it is exact integer
//! arithmetic.

use vstd::prelude::*;

use crate::subjects::SubjectUnit;

verus! {

/// An amount of time in one of the units the tracker speaks.
#[derive(Debug, Clone, Copy, PartialEq, Eq, Structural)]
pub enum TimeUnit {
    /// Hours, in hundredths.
    Hours(u64),
    /// Whole minutes.
    Minutes(u64),
    /// Whole seconds.
    Seconds(i64),
}

/// Hundredths of an hour rounded to whole hours; only a fraction above
/// eight tenths rounds up.
pub open spec fn spec_rounded_hours(centihours: int) -> int {
    if centihours % 100 > 80 {
        centihours / 100 + 1
    } else {
        centihours / 100
    }
}

impl TimeUnit {
    /// Rounds hundredths of an hour to whole hours; only a fraction above
    /// eight tenths rounds up.
    pub fn round_hours(hours: u64) -> (r: u64)
        requires
            hours < u64::MAX,
        ensures
            r == spec_rounded_hours(hours as int),
    {
        if hours % 100 > 80 {
            hours / 100 + 1
        } else {
            hours / 100
        }
    }
}

/// A record's progress value: a whole number of minutes, or a number of
/// hours in hundredths.
#[derive(Debug, Clone, Copy, PartialEq, Eq, Structural)]
pub enum Progress {
    /// Whole minutes.
    Int(u64),
    /// Hundredths of an hour.
    Float(u64),
}

/// The plain number a progress value shows: minutes as they are, hours
/// rounded to whole hours.
pub open spec fn spec_as_int(p: Progress) -> int {
    match p {
        Progress::Int(m) => m as int,
        Progress::Float(c) => spec_rounded_hours(c as int),
    }
}

/// The exact worth of a progress value in whole minutes, rounded down.
pub open spec fn spec_minute_value(p: Progress) -> int {
    match p {
        Progress::Int(m) => m as int,
        Progress::Float(c) => c * 60 / 100,
    }
}

/// The worth of a progress value in hundredths of an hour.
pub open spec fn spec_centihours(p: Progress) -> int {
    match p {
        Progress::Int(m) => m * 100 / 60,
        Progress::Float(c) => c as int,
    }
}

impl Progress {
    /// A progress value made of an amount of time, expressed in whole
    /// minutes.
    pub fn new_minutes(time: TimeUnit) -> (r: Progress)
        requires
            time matches TimeUnit::Hours(c) ==> c * 60 <= u64::MAX,
            time matches TimeUnit::Seconds(s) ==> s >= 0,
        ensures
            r == (match time {
                TimeUnit::Minutes(m) => Progress::Int(m),
                TimeUnit::Hours(c) => Progress::Int((c * 60 / 100) as u64),
                TimeUnit::Seconds(s) => Progress::Int((s / 60) as u64),
            }),
    {
        match time {
            TimeUnit::Minutes(mins) => Progress::Int(mins),
            TimeUnit::Hours(hours) => Progress::Int(hours * 60 / 100),
            TimeUnit::Seconds(seconds) => Progress::Int((seconds / 60) as u64),
        }
    }

    /// The plain number this value shows: minutes as they are, hours
    /// rounded to whole hours.
    pub fn get_as_int(&self) -> (r: u64)
        requires
            self matches Progress::Float(c) ==> c < u64::MAX,
        ensures
            r == spec_as_int(*self),
    {
        match self {
            Progress::Int(num) => *num,
            Progress::Float(num) => TimeUnit::round_hours(*num),
        }
    }

    /// The value in whole minutes, read under the given unit: an hours
    /// graph counts each shown unit as sixty minutes.
    pub fn minutes(&self, unit: &SubjectUnit) -> (r: u64)
        requires
            self matches Progress::Float(c) ==> c < u64::MAX,
            unit is Hours ==> spec_as_int(*self) * 60 <= u64::MAX,
        ensures
            r == (match *unit {
                SubjectUnit::Hours => spec_as_int(*self) * 60,
                SubjectUnit::Minutes => spec_as_int(*self),
            }),
    {
        match unit {
            SubjectUnit::Hours => self.get_as_int() * 60,
            SubjectUnit::Minutes => self.get_as_int(),
        }
    }

    /// The value in whole hours, rounded down, read under the given unit.
    pub fn hours_floored(&self, unit: &SubjectUnit) -> (r: u64)
        requires
            self matches Progress::Float(c) ==> c < u64::MAX,
        ensures
            r == (match *unit {
                SubjectUnit::Hours => spec_as_int(*self),
                SubjectUnit::Minutes => spec_as_int(*self) / 60,
            }),
    {
        match unit {
            SubjectUnit::Hours => self.get_as_int(),
            SubjectUnit::Minutes => self.get_as_int() / 60,
        }
    }

    /// The exact worth of this value in whole minutes, rounded down.
    pub fn minute_value(&self) -> (r: u64)
        ensures
            r == spec_minute_value(*self),
    {
        match self {
            Progress::Int(m) => *m,
            Progress::Float(c) => {
                let wide: u128 = (*c as u128) * 60 / 100;
                proof {
                    assert(*c * 60 / 100 <= *c) by (nonlinear_arith);
                }
                wide as u64
            },
        }
    }

    /// The worth of this value in hundredths of an hour.
    pub fn centihour_value(&self) -> (r: u64)
        requires
            self matches Progress::Int(m) ==> m * 100 <= u64::MAX,
        ensures
            r == spec_centihours(*self),
    {
        match self {
            Progress::Int(m) => *m * 100 / 60,
            Progress::Float(c) => *c,
        }
    }

    /// Adds a plain amount to the stored number, whichever form it has.
    pub fn increment(&mut self, amount: u64)
        requires
            (match *old(self) {
                Progress::Int(m) => m as int,
                Progress::Float(c) => c as int,
            }) + amount <= u64::MAX,
        ensures
            *final(self) == (match *old(self) {
                Progress::Int(m) => Progress::Int((m + amount) as u64),
                Progress::Float(c) => Progress::Float((c + amount) as u64),
            }),
    {
        match self {
            Progress::Int(m) => {
                *self = Progress::Int(*m + amount);
            },
            Progress::Float(c) => {
                *self = Progress::Float(*c + amount);
            },
        }
    }

    /// Divides the stored number, whichever form it has.
    pub fn divide(&mut self, divider: u64)
        requires
            divider > 0,
        ensures
            *final(self) == (match *old(self) {
                Progress::Int(m) => Progress::Int((m as int / divider as int) as u64),
                Progress::Float(c) => Progress::Float((c as int / divider as int) as u64),
            }),
    {
        match self {
            Progress::Int(m) => {
                *self = Progress::Int(*m / divider);
            },
            Progress::Float(c) => {
                *self = Progress::Float(*c / divider);
            },
        }
    }
}

} // verus!
