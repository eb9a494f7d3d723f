//! Subjects: the tracked activities, each standing for one remote graph
//! with a unit, a numeric representation and a colour. A subject decides
//! the smallest progress its graph accepts and how raw seconds of work
//! become a progress value.

use vstd::prelude::*;

use crate::error::StatsError;
use crate::graph::PixelaColors;
use crate::progress::Progress;
use crate::{MIN_FLOAT_HOUR_INCREMENT, MIN_HOUR_INCREMENT, MIN_MINS_INCREMENT};

verus! {

/// Numeric representation of a graph's values.
#[derive(Debug, Clone, Copy, PartialEq, Eq, Structural)]
pub enum SubjectDataType {
    Int,
    Float,
}

/// Unit a graph counts in.
#[derive(Debug, Clone, Copy, PartialEq, Eq, Structural)]
pub enum SubjectUnit {
    Minutes,
    Hours,
}

impl SubjectUnit {
    /// The one-letter abbreviation shown beside values.
    pub fn short_string(&self) -> (r: String)
        ensures
            r@ == (match *self {
                SubjectUnit::Hours => "h"@,
                SubjectUnit::Minutes => "m"@,
            }),
    {
        match self {
            SubjectUnit::Hours => String::from_str("h"),
            SubjectUnit::Minutes => String::from_str("m"),
        }
    }
}

/// Mathematical image of a [`Subject`].
pub ghost struct SubjectView {
    pub id: Seq<char>,
    pub url: Seq<char>,
    pub graph_name: Seq<char>,
    pub data_type: SubjectDataType,
    pub unit: SubjectUnit,
    pub color: PixelaColors,
}

/// One tracked activity: a remote graph's identity, display name, unit,
/// numeric representation and colour.
#[derive(Debug)]
pub struct Subject {
    id: String,
    url: String,
    graph_name: String,
    data_type: SubjectDataType,
    unit: SubjectUnit,
    color: PixelaColors,
}

impl Clone for Subject {
    /// A clone carries the same view.
    fn clone(&self) -> (res: Self)
        ensures
            res@ == self@,
    {
        Subject {
            id: self.id.clone(),
            url: self.url.clone(),
            graph_name: self.graph_name.clone(),
            data_type: self.data_type,
            unit: self.unit,
            color: self.color,
        }
    }
}

impl View for Subject {
    type V = SubjectView;

    closed spec fn view(&self) -> SubjectView {
        SubjectView {
            id: self.id@,
            url: self.url@,
            graph_name: self.graph_name@,
            data_type: self.data_type,
            unit: self.unit,
            color: self.color,
        }
    }
}

/// The smallest progress, in whole minutes, that a graph with this unit
/// and numeric representation accepts.
pub open spec fn spec_min_increment_minutes(unit: SubjectUnit, data_type: SubjectDataType) -> int {
    match (unit, data_type) {
        (SubjectUnit::Hours, SubjectDataType::Float) => MIN_FLOAT_HOUR_INCREMENT as int,
        (SubjectUnit::Hours, SubjectDataType::Int) => MIN_HOUR_INCREMENT as int,
        (SubjectUnit::Minutes, _) => MIN_MINS_INCREMENT as int,
    }
}

/// Seconds of work turned into the progress value this subject logs:
/// whole minutes for an integer graph, hundredths of an hour for a
/// fractional one.
pub open spec fn spec_transform_progress(data_type: SubjectDataType, seconds: int) -> Progress {
    match data_type {
        SubjectDataType::Int => Progress::Int((seconds / 60) as u64),
        SubjectDataType::Float => Progress::Float((seconds * 100 / 3600) as u64),
    }
}

/// The placeholder subject's image: empty identity, the name "None".
pub open spec fn spec_dummy_subject() -> SubjectView {
    SubjectView {
        id: Seq::<char>::empty(),
        url: Seq::<char>::empty(),
        graph_name: "None"@,
        data_type: SubjectDataType::Int,
        unit: SubjectUnit::Minutes,
        color: PixelaColors::Ajisai,
    }
}

impl Subject {
    /// Builds a subject; a fractional minutes graph is no valid
    /// combination, and is refused.
    pub fn try_new(
        id: String,
        url: String,
        graph_name: String,
        data_type: SubjectDataType,
        unit: SubjectUnit,
        color: PixelaColors,
    ) -> (r: Result<Subject, StatsError>)
        ensures
            match r {
                Ok(s) => !(data_type is Float && unit is Minutes) && s@ == (SubjectView {
                    id: id@,
                    url: url@,
                    graph_name: graph_name@,
                    data_type,
                    unit,
                    color,
                }),
                Err(e) => data_type is Float && unit is Minutes && e
                    == StatsError::SubjectCreationFailed,
            },
    {
        if data_type == SubjectDataType::Float && unit == SubjectUnit::Minutes {
            Err(StatsError::SubjectCreationFailed)
        } else {
            Ok(Subject { id, url, graph_name, data_type, unit, color })
        }
    }

    /// The placeholder shown when no subject is selected; it is excluded
    /// from progress logging.
    pub fn new_dummy() -> (r: Subject)
        ensures
            r@ == spec_dummy_subject(),
    {
        Subject {
            id: String::new(),
            url: String::new(),
            graph_name: String::from_str("None"),
            data_type: SubjectDataType::Int,
            unit: SubjectUnit::Minutes,
            color: PixelaColors::Ajisai,
        }
    }

    /// Whether this is the placeholder for "no subject selected".
    pub fn is_dummy(&self) -> (r: bool)
        ensures
            r == (self@.graph_name == "None"@ && self@.id == Seq::<char>::empty()),
    {
        self.graph_name == String::from_str("None") && self.id == String::new()
    }

    /// Address of the remote graph.
    pub fn url(&self) -> (r: &str)
        ensures
            r@ == self@.url,
    {
        self.url.as_str()
    }

    /// Numeric representation of the graph's values.
    pub fn data_type(&self) -> (r: &SubjectDataType)
        ensures
            *r == self@.data_type,
    {
        &self.data_type
    }

    /// Unit the graph counts in.
    pub fn unit(&self) -> (r: &SubjectUnit)
        ensures
            *r == self@.unit,
    {
        &self.unit
    }

    /// Display name of the graph.
    pub fn graph_name(&self) -> (r: &str)
        ensures
            r@ == self@.graph_name,
    {
        self.graph_name.as_str()
    }

    /// The first letter of each word of the display name.
    pub fn shortened_graph_name(&self) -> (r: String)
        ensures
            r@ == spec_initials(self@.graph_name, self@.graph_name.len() as int),
    {
        let name = self.graph_name.as_str();
        let n = name.unicode_len();
        let mut acc = String::new();
        let mut i: usize = 0;
        while i < n
            invariant
                n == name@.len(),
                i <= n,
                name@ == self@.graph_name,
                acc@ == spec_initials(self@.graph_name, i as int),
            decreases n - i,
        {
            let c = name.get_char(i);
            let starts_word = if i == 0 {
                !is_space(c)
            } else {
                !is_space(c) && is_space(name.get_char(i - 1))
            };
            if starts_word {
                crate::text::push_char(&mut acc, c);
            }
            i = i + 1;
        }
        acc
    }

    pub fn set_url(&mut self, url: String)
        ensures
            final(self)@ == (SubjectView { url: url@, ..old(self)@ }),
    {
        self.url = url;
    }

    /// Identity of the remote graph.
    pub fn id(&self) -> (r: &str)
        ensures
            r@ == self@.id,
    {
        self.id.as_str()
    }

    /// Colour the remote service paints the graph with.
    pub fn color(&self) -> (r: &PixelaColors)
        ensures
            *r == self@.color,
    {
        &self.color
    }

    pub fn set_graph_name(&mut self, graph_name: String)
        ensures
            final(self)@ == (SubjectView { graph_name: graph_name@, ..old(self)@ }),
    {
        self.graph_name = graph_name;
    }

    /// The smallest progress, in whole minutes, this subject's graph
    /// accepts.
    pub fn get_min_increment(&self) -> (r: u64)
        ensures
            r == spec_min_increment_minutes(self@.unit, self@.data_type),
    {
        match self.unit {
            SubjectUnit::Hours if self.data_type == SubjectDataType::Float =>
            MIN_FLOAT_HOUR_INCREMENT,
            SubjectUnit::Hours => MIN_HOUR_INCREMENT,
            SubjectUnit::Minutes => MIN_MINS_INCREMENT,
        }
    }

    pub fn set_unit(&mut self, unit: SubjectUnit)
        ensures
            final(self)@ == (SubjectView { unit, ..old(self)@ }),
    {
        self.unit = unit;
    }

    pub fn set_datatype(&mut self, data_type: SubjectDataType)
        ensures
            final(self)@ == (SubjectView { data_type, ..old(self)@ }),
    {
        self.data_type = data_type;
    }

    /// Turns seconds of work into the progress value this subject logs.
    pub fn transform_progress(&self, seconds: i64) -> (r: Progress)
        requires
            0 <= seconds,
            seconds * 100 <= u64::MAX,
        ensures
            r == spec_transform_progress(self@.data_type, seconds as int),
    {
        match self.data_type {
            SubjectDataType::Int => Progress::Int((seconds / 60) as u64),
            SubjectDataType::Float => {
                let centi = (seconds as u64) * 100 / 3600;
                Progress::Float(centi)
            },
        }
    }

    /// Whether two subjects are the same in every field.
    pub fn same_subject(&self, other: &Subject) -> (r: bool)
        ensures
            r == (self@ == other@),
    {
        let same = self.id == other.id && self.url == other.url && self.graph_name
            == other.graph_name && self.data_type == other.data_type && self.unit == other.unit
            && self.color == other.color;
        proof {
            if same {
                assert(self@ == other@);
            } else {
                assert(self@ != other@);
            }
        }
        same
    }
}

/// Whether a character separates words of a display name: the ASCII
/// whitespace characters.
pub open spec fn spec_is_space(c: char) -> bool {
    c == ' ' || c == '\t' || c == '\n' || c == '\r' || c == '\u{c}'
}

fn is_space(c: char) -> (r: bool)
    ensures
        r == spec_is_space(c),
{
    c == ' ' || c == '\t' || c == '\n' || c == '\r' || c == '\u{c}'
}

/// The first letters of the words among the first `n` characters of `s`.
pub open spec fn spec_initials(s: Seq<char>, n: int) -> Seq<char>
    decreases n,
{
    if n <= 0 {
        Seq::empty()
    } else {
        let head = spec_initials(s, n - 1);
        if !spec_is_space(s[n - 1]) && (n == 1 || spec_is_space(s[n - 2])) {
            head.push(s[n - 1])
        } else {
            head
        }
    }
}

} // verus!
