//! The downloaded history of one remote graph: a month of daily progress
//! values, gap-filled so that every day of the window appears. The
//! download itself is network plumbing outside this crate; it hands the
//! parsed data points in.

use vstd::prelude::*;

use crate::dates::{recent_window, PixelDate};
use crate::progress::{spec_as_int, Progress};
use crate::subjects::{Subject, SubjectUnit, SubjectView};

verus! {

/// The palette of the remote service.
#[derive(Debug, Clone, Copy, PartialEq, Eq, Structural)]
pub enum PixelaColors {
    Shibafu,
    Momiji,
    Sora,
    Ichou,
    Ajisai,
    Kuro,
}

/// One day of a graph's history.
#[derive(Debug, Clone)]
pub struct DataPoint {
    date: PixelDate,
    quantity: Progress,
}

/// Mathematical image of a [`DataPoint`].
pub ghost struct DataPointView {
    pub date: PixelDate,
    pub quantity: Progress,
}

impl View for DataPoint {
    type V = DataPointView;

    closed spec fn view(&self) -> DataPointView {
        DataPointView { date: self.date, quantity: self.quantity }
    }
}

impl DeepView for DataPoint {
    type V = DataPointView;

    open spec fn deep_view(&self) -> DataPointView {
        self@
    }
}

impl DataPoint {
    /// A day of history.
    pub fn new(date: PixelDate, quantity: Progress) -> (r: DataPoint)
        ensures
            r@.date == date,
            r@.quantity == quantity,
    {
        DataPoint { date, quantity }
    }

    /// The day's progress in whole units of the subject's graph.
    pub fn quantity_as_u64(&self, subject: &Subject) -> (r: u64)
        requires
            self@.quantity matches Progress::Float(c) ==> c < u64::MAX,
            subject@.unit is Hours ==> spec_as_int(self@.quantity) * 60 <= u64::MAX,
        ensures
            r == spec_point_units(self@.quantity, subject@.unit),
    {
        self.quantity.minutes(subject.unit()) / 60
    }

    /// The day's date.
    pub fn date(&self) -> (r: PixelDate)
        ensures
            r == self@.date,
    {
        self.date
    }

    /// The two-digit day of month shown under the bar.
    pub fn label(&self) -> (r: String)
        requires
            self@.date.wf(),
        ensures
            r@ == self@.date.spec_yyyymmdd().subrange(6, 8),
    {
        let full = self.date.format_yyyymmdd();
        let s = full.as_str().substring_char(6, 8);
        proof {
            assert(s@ =~= self@.date.spec_yyyymmdd().subrange(6, 8));
        }
        s.to_owned()
    }

    /// The day's progress value as stored.
    pub fn quantity(&self) -> (r: &Progress)
        ensures
            *r == self@.quantity,
    {
        &self.quantity
    }
}

/// The day's progress read in whole units of the graph, rounded down:
/// minutes become hours on an hours graph.
pub open spec fn spec_point_units(p: Progress, unit: SubjectUnit) -> int {
    match unit {
        SubjectUnit::Hours => spec_as_int(p) * 60 / 60,
        SubjectUnit::Minutes => spec_as_int(p) / 60,
    }
}

/// A month of one graph's history, its colour, and the subject it
/// belongs to.
#[derive(Debug)]
pub struct Graph {
    data: Vec<DataPoint>,
    color: PixelaColors,
    subject: Subject,
}

/// Mathematical image of a [`Graph`].
pub ghost struct GraphView {
    pub data: Seq<DataPointView>,
    pub color: PixelaColors,
    pub subject: SubjectView,
}

impl View for Graph {
    type V = GraphView;

    closed spec fn view(&self) -> GraphView {
        GraphView { data: self.data.deep_view(), color: self.color, subject: self.subject@ }
    }
}

impl Graph {
    /// A graph built from downloaded data points; its colour is the
    /// subject's.
    pub fn new(data: Vec<DataPoint>, subject: Subject) -> (r: Graph)
        ensures
            r@.data == data.deep_view(),
            r@.subject == subject@,
            r@.color == subject@.color,
    {
        let color = *subject.color();
        Graph { data, color, subject }
    }

    /// The days of history, oldest first.
    pub fn data(&self) -> (r: &Vec<DataPoint>)
        ensures
            r.deep_view() == self@.data,
    {
        &self.data
    }

    /// The graph's colour.
    pub fn color(&self) -> (r: &PixelaColors)
        ensures
            *r == self@.color,
    {
        &self.color
    }

    /// The subject this history belongs to.
    pub fn subject(&self) -> (r: &Subject)
        ensures
            r@ == self@.subject,
    {
        &self.subject
    }

    /// The two-digit day labels of the data points, in order.
    pub fn get_labels(&self) -> (r: Vec<String>)
        requires
            forall|i: int| 0 <= i < self@.data.len() ==> (#[trigger] self@.data[i]).date.wf(),
        ensures
            r@.len() == self@.data.len(),
            forall|i: int|
                0 <= i < r@.len() ==> (#[trigger] r@[i])@ == self@.data[i].date.spec_yyyymmdd().subrange(
                    6,
                    8,
                ),
    {
        let mut r: Vec<String> = Vec::new();
        let mut i: usize = 0;
        let n = self.data.len();
        while i < n
            invariant
                n == self.data@.len(),
                self@.data.len() == self.data@.len(),
                i <= n,
                forall|j: int| 0 <= j < self@.data.len() ==> (#[trigger] self@.data[j]).date.wf(),
                forall|j: int| 0 <= j < self.data@.len() ==> self@.data[j] == self.data@[j]@,
                r@.len() == i,
                forall|j: int|
                    0 <= j < i ==> (#[trigger] r@[j])@ == self@.data[j].date.spec_yyyymmdd().subrange(
                        6,
                        8,
                    ),
            decreases n - i,
        {
            proof {
                assert(self@.data[i as int] == self.data@[i as int]@);
                assert(self@.data[i as int].date.wf());
            }
            r.push(self.data[i].label());
            i = i + 1;
        }
        r
    }

    /// The day's progress of each data point in whole graph units,
    /// paired with its position.
    pub fn datapoints_into_u64(&self) -> (r: Vec<(u64, u64)>)
        requires
            forall|i: int|
                0 <= i < self@.data.len() ==> ((#[trigger] self@.data[i]).quantity matches
                Progress::Float(c) ==> c < u64::MAX),
            self@.subject.unit is Hours ==> forall|i: int|
                0 <= i < self@.data.len() ==> spec_as_int((#[trigger] self@.data[i]).quantity) * 60
                    <= u64::MAX,
        ensures
            r@.len() == self@.data.len(),
            forall|i: int|
                0 <= i < r@.len() ==> #[trigger] r@[i] == (
                i as u64,
                spec_point_units(self@.data[i].quantity, self@.subject.unit) as u64,
                ),
    {
        let mut days: Vec<(u64, u64)> = Vec::new();
        let mut i: usize = 0;
        let n = self.data.len();
        while i < n
            invariant
                n == self.data@.len(),
                self@.data.len() == self.data@.len(),
                i <= n,
                n <= u64::MAX,
                forall|j: int| 0 <= j < self.data@.len() ==> self@.data[j] == self.data@[j]@,
                forall|j: int|
                    0 <= j < self@.data.len() ==> ((#[trigger] self@.data[j]).quantity matches
                    Progress::Float(c) ==> c < u64::MAX),
                self@.subject.unit is Hours ==> forall|j: int|
                    0 <= j < self@.data.len() ==> spec_as_int((#[trigger] self@.data[j]).quantity)
                        * 60 <= u64::MAX,
                self.subject@ == self@.subject,
                days@.len() == i,
                forall|j: int|
                    0 <= j < i ==> #[trigger] days@[j] == (
                    j as u64,
                    spec_point_units(self@.data[j].quantity, self@.subject.unit) as u64,
                    ),
            decreases n - i,
        {
            proof {
                assert(self@.data[i as int] == self.data@[i as int]@);
            }
            let q = self.data[i].quantity_as_u64(&self.subject);
            days.push((i as u64, q));
            i = i + 1;
        }
        days
    }

    /// The largest day's progress of the month, in whole graph units.
    pub fn get_max_quantity(&self) -> (r: u64)
        requires
            forall|i: int|
                0 <= i < self@.data.len() ==> ((#[trigger] self@.data[i]).quantity matches
                Progress::Float(c) ==> c < u64::MAX),
            self@.subject.unit is Hours ==> forall|i: int|
                0 <= i < self@.data.len() ==> spec_as_int((#[trigger] self@.data[i]).quantity) * 60
                    <= u64::MAX,
        ensures
            forall|i: int|
                0 <= i < self@.data.len() ==> spec_point_units(
                    (#[trigger] self@.data[i]).quantity,
                    self@.subject.unit,
                ) <= r,
            r == 0 || exists|i: int|
                0 <= i < self@.data.len() && spec_point_units(
                    (#[trigger] self@.data[i]).quantity,
                    self@.subject.unit,
                ) == r,
    {
        let mut best: u64 = 0;
        let mut i: usize = 0;
        let n = self.data.len();
        while i < n
            invariant
                n == self.data@.len(),
                self@.data.len() == self.data@.len(),
                i <= n,
                forall|j: int| 0 <= j < self.data@.len() ==> self@.data[j] == self.data@[j]@,
                forall|j: int|
                    0 <= j < self@.data.len() ==> ((#[trigger] self@.data[j]).quantity matches
                    Progress::Float(c) ==> c < u64::MAX),
                self@.subject.unit is Hours ==> forall|j: int|
                    0 <= j < self@.data.len() ==> spec_as_int((#[trigger] self@.data[j]).quantity)
                        * 60 <= u64::MAX,
                self.subject@ == self@.subject,
                forall|j: int|
                    0 <= j < i ==> spec_point_units(
                        (#[trigger] self@.data[j]).quantity,
                        self@.subject.unit,
                    ) <= best,
                best == 0 || exists|j: int|
                    0 <= j < i && spec_point_units(
                        (#[trigger] self@.data[j]).quantity,
                        self@.subject.unit,
                    ) == best,
            decreases n - i,
        {
            proof {
                assert(self@.data[i as int] == self.data@[i as int]@);
            }
            let q = self.data[i].quantity_as_u64(&self.subject);
            if q > best {
                best = q;
                proof {
                    assert(spec_point_units(self@.data[i as int].quantity, self@.subject.unit)
                        == best as int);
                }
            }
            i = i + 1;
        }
        best
    }

    /// Rebuilds the month so that every one of the last thirty days up to
    /// `today` appears exactly once, oldest first: a day that had a data
    /// point keeps its first recorded quantity, a day that had none gets
    /// zero.
    pub fn fill_empty_days(&mut self, today: &PixelDate)
        ensures
            ({
                let window = final(self)@.data;
                &&& final(self)@.color == old(self)@.color
                &&& final(self)@.subject == old(self)@.subject
                &&& 1 <= window.len() <= 30
                &&& forall|i: int|
                    0 <= i < window.len() ==> (#[trigger] window[i]).date
                        == crate::dates::spec_window_day(*today, window.len() - 1 - i)
                &&& forall|i: int|
                    0 <= i < window.len() ==> #[trigger] spec_day_quantity(
                        old(self)@.data,
                        window[i].date,
                        window[i].quantity,
                    )
            }),
    {
        let days = recent_window(today, 30);
        let mut result: Vec<DataPoint> = Vec::new();
        let mut i: usize = 0;
        let n = days.len();
        while i < n
            invariant
                n == days@.len(),
                1 <= n <= 30,
                i <= n,
                forall|k: int|
                    0 <= k < days@.len() ==> #[trigger] days@[k] == crate::dates::spec_window_day(
                        *today,
                        days@.len() - 1 - k,
                    ),
                self@ == old(self)@,
                result@.len() == i,
                forall|k: int|
                    0 <= k < i ==> (#[trigger] result@[k])@.date == days@[k],
                forall|k: int|
                    0 <= k < i ==> #[trigger] spec_day_quantity(
                        old(self)@.data,
                        result@[k]@.date,
                        result@[k]@.quantity,
                    ),
            decreases n - i,
        {
            let day = days[i];
            let q = self.first_quantity_on(&day);
            result.push(DataPoint { date: day, quantity: q });
            i = i + 1;
        }
        self.data = result;
        proof {
            let window = self@.data;
            assert forall|k: int| 0 <= k < window.len() implies (#[trigger] window[k]).date
                == crate::dates::spec_window_day(*today, window.len() - 1 - k) by {
                assert(window[k] == result@[k]@);
                assert(window[k].date == days@[k]);
            }
        }
    }

    /// The first recorded quantity on the given day, or zero minutes when
    /// the day has no data point.
    fn first_quantity_on(&self, day: &PixelDate) -> (r: Progress)
        ensures
            spec_day_quantity(self@.data, *day, r),
    {
        let mut i: usize = 0;
        let n = self.data.len();
        while i < n
            invariant
                n == self.data@.len(),
                self@.data.len() == self.data@.len(),
                i <= n,
                forall|j: int| 0 <= j < self.data@.len() ==> self@.data[j] == self.data@[j]@,
                forall|j: int| 0 <= j < i ==> !(#[trigger] self@.data[j]).date.spec_same_day(*day),
            decreases n - i,
        {
            proof {
                assert(self@.data[i as int] == self.data@[i as int]@);
            }
            if self.data[i].date().same_day(day) {
                let q = *self.data[i].quantity();
                proof {
                    let found = self@.data[i as int];
                    assert(found.date.spec_same_day(*day) && found.quantity == q);
                    assert(spec_day_quantity(self@.data, *day, q));
                }
                return q;
            }
            i = i + 1;
        }
        Progress::Int(0)
    }
}

/// How a rebuilt day's quantity relates to the original data points: it
/// is the quantity of the first data point on that calendar day, or zero
/// minutes when no data point falls on it.
pub open spec fn spec_day_quantity(data: Seq<DataPointView>, day: PixelDate, q: Progress) -> bool {
    if exists|j: int| 0 <= j < data.len() && (#[trigger] data[j]).date.spec_same_day(day) {
        exists|j: int|
            {
                &&& 0 <= j < data.len()
                &&& (#[trigger] data[j]).date.spec_same_day(day)
                &&& data[j].quantity == q
                &&& forall|k: int| 0 <= k < j ==> !(#[trigger] data[k]).date.spec_same_day(day)
            }
    } else {
        q == Progress::Int(0)
    }
}

} // verus!
