//! Progress records ("pixels"). A simple record is a local-only note of
//! raw minutes; a complex record carries a progress value, its subject
//! and the moment it was made, and is what the sync engine uploads. The
//! rules here decide which records are large enough to upload at all,
//! and how a record renders itself for the remote service.

use vstd::prelude::*;

use crate::dates::PixelDate;
use crate::error::{Error, PixelaResponseError, StatsError};
use crate::progress::{spec_centihours, spec_minute_value, Progress};
use crate::subjects::{
    spec_min_increment_minutes, Subject, SubjectDataType, SubjectUnit, SubjectView,
};
use crate::text::{
    has_prefix, parse_u64, push_char, spec_all_digits, spec_decimal, spec_digit_char,
    spec_digits_value, u64_to_string,
};

verus! {

/// Whether showing a record's value as a plain number loses a fraction.
#[derive(Debug, Clone, Copy, PartialEq, Eq, Structural)]
pub enum IsRounded {
    Yes,
    No,
}

/// Mathematical image of a [`SimplePixel`].
pub ghost struct SimplePixelView {
    pub progress: int,
    pub date: Seq<char>,
}

/// A local-only record: raw minutes and the moment they were noted. It
/// is never combined with others and never uploaded.
#[derive(Debug)]
pub struct SimplePixel {
    progress: u64,
    date: String,
}

impl Clone for SimplePixel {
    /// A clone carries the same view.
    fn clone(&self) -> (res: Self)
        ensures
            res@ == self@,
    {
        SimplePixel { progress: self.progress, date: self.date.clone() }
    }
}

impl View for SimplePixel {
    type V = SimplePixelView;

    closed spec fn view(&self) -> SimplePixelView {
        SimplePixelView { progress: self.progress as int, date: self.date@ }
    }
}

impl SimplePixel {
    /// A local note of raw minutes.
    pub fn new(progress: u64, date: String) -> (r: SimplePixel)
        ensures
            r@.progress == progress as int,
            r@.date == date@,
    {
        SimplePixel { progress, date }
    }

    /// The noted minutes.
    pub fn progress(&self) -> (r: u64)
        ensures
            r == self@.progress,
    {
        self.progress
    }

    /// The moment the note was made.
    pub fn date(&self) -> (r: &str)
        ensures
            r@ == self@.date,
    {
        self.date.as_str()
    }
}

/// Mathematical image of a [`ComplexPixel`].
pub ghost struct ComplexPixelView {
    pub progress: Progress,
    pub date: PixelDate,
    pub subject: SubjectView,
}

/// An uploadable record: a progress value, the subject it belongs to and
/// the moment it was made.
#[derive(Debug)]
pub struct ComplexPixel {
    progress: Progress,
    date: PixelDate,
    subject: Subject,
}

impl Clone for ComplexPixel {
    /// A clone carries the same view.
    fn clone(&self) -> (res: Self)
        ensures
            res@ == self@,
    {
        ComplexPixel { progress: self.progress, date: self.date, subject: self.subject.clone() }
    }
}

impl View for ComplexPixel {
    type V = ComplexPixelView;

    closed spec fn view(&self) -> ComplexPixelView {
        ComplexPixelView { progress: self.progress, date: self.date, subject: self.subject@ }
    }
}

/// The name tag that marks a record as the sum of several others.
pub open spec fn spec_marker() -> Seq<char> {
    "(Aggregated)"@
}

/// Whether a display name already carries the aggregation tag.
pub open spec fn spec_has_marker(name: Seq<char>) -> bool {
    name.len() >= spec_marker().len() && name.subrange(0, spec_marker().len() as int)
        == spec_marker()
}

impl ComplexPixel {
    /// An uploadable record.
    pub fn new(progress: Progress, subject: Subject, date: PixelDate) -> (r: ComplexPixel)
        ensures
            r@.progress == progress,
            r@.date == date,
            r@.subject == subject@,
    {
        ComplexPixel { progress, date, subject }
    }

    /// The record's progress value.
    pub fn progress(&self) -> (r: &Progress)
        ensures
            *r == self@.progress,
    {
        &self.progress
    }

    /// The moment the record was made.
    pub fn date(&self) -> (r: PixelDate)
        ensures
            r == self@.date,
    {
        self.date
    }

    /// The record's moment with the time of day discarded; aggregation
    /// compares records by this.
    pub fn date_no_time(&self) -> (r: PixelDate)
        ensures
            r == (PixelDate { hour: 0, minute: 0, ..self@.date }),
    {
        self.date.day_only()
    }

    /// The record's date as the remote service addresses it: eight
    /// digits, year, month and day.
    pub fn date_pixela_formatted(&self) -> (r: String)
        requires
            self@.date.wf(),
        ensures
            r@ == self@.date.spec_yyyymmdd(),
    {
        self.date.format_yyyymmdd()
    }

    /// The subject the record belongs to.
    pub fn subject(&self) -> (r: &Subject)
        ensures
            r@ == self@.subject,
    {
        &self.subject
    }

    /// Takes the record apart into its progress, date and subject.
    pub fn into_parts(self) -> (r: (Progress, PixelDate, Subject))
        ensures
            r.0 == self@.progress,
            r.1 == self@.date,
            r.2@ == self@.subject,
    {
        (self.progress, self.date, self.subject)
    }

    /// Tags the record's subject name as the sum of several records; a
    /// name already tagged is left alone.
    pub fn into_aggregate(&mut self)
        ensures
            final(self)@.progress == old(self)@.progress,
            final(self)@.date == old(self)@.date,
            final(self)@.subject == (SubjectView {
                graph_name: if spec_has_marker(old(self)@.subject.graph_name) {
                    old(self)@.subject.graph_name
                } else {
                    "(Aggregated) "@ + old(self)@.subject.graph_name
                },
                ..old(self)@.subject
            }),
    {
        if has_prefix(self.subject.graph_name(), "(Aggregated)") {
            proof {
                assert(spec_has_marker(old(self)@.subject.graph_name));
                assert(final(self)@.subject =~= (SubjectView {
                    graph_name: old(self)@.subject.graph_name,
                    ..old(self)@.subject
                }));
            }
            return ;
        }
        let new_name = String::from_str("(Aggregated) ").concat(self.subject.graph_name());
        self.subject.set_graph_name(new_name);
    }

    /// Raises the record's value by the amount the remote service already
    /// holds for its day, handed in as the service's quantity text. A text
    /// that does not read as a number is a fatal response; an amount the
    /// stored number cannot take is refused as malformed data; otherwise
    /// the amount is added.
    pub fn increment_self_quantity(&mut self, quantity_text: &str) -> (r: Result<(), Error>)
        ensures
            ({
                let unreadable = quantity_text@.len() == 0 || !spec_all_digits(quantity_text@)
                    || spec_digits_value(quantity_text@) > u64::MAX;
                let stored = match old(self)@.progress {
                    Progress::Int(m) => m as int,
                    Progress::Float(c) => c as int,
                };
                match r {
                    Ok(_) => {
                        &&& !unreadable
                        &&& stored + spec_digits_value(quantity_text@) <= u64::MAX
                        &&& final(self)@.date == old(self)@.date
                        &&& final(self)@.subject == old(self)@.subject
                        &&& final(self)@.progress == (match old(self)@.progress {
                            Progress::Int(m) => Progress::Int(
                                (m + spec_digits_value(quantity_text@)) as u64,
                            ),
                            Progress::Float(c) => Progress::Float(
                                (c + spec_digits_value(quantity_text@)) as u64,
                            ),
                        })
                    },
                    Err(e) => final(self)@ == old(self)@ && (if unreadable {
                        e matches Error::PixelaResponseError(
                            PixelaResponseError::FatalError(m, code),
                        ) && m@ == "Failed parsing"@ && code == 400
                    } else {
                        stored + spec_digits_value(quantity_text@) > u64::MAX && e matches
                            Error::StatsError(StatsError::WrongPixelData)
                    }),
                }
            }),
    {
        let amount = match parse_u64(quantity_text) {
            Some(v) => v,
            None => {
                return Err(
                    Error::PixelaResponseError(
                        PixelaResponseError::FatalError(String::from_str("Failed parsing"), 400),
                    ),
                );
            },
        };
        let stored = match self.progress {
            Progress::Int(m) => m,
            Progress::Float(c) => c,
        };
        if amount > u64::MAX - stored {
            return Err(Error::StatsError(StatsError::WrongPixelData));
        }
        self.progress.increment(amount);
        Ok(())
    }

    /// Whether showing this record's value as a plain number would lose a
    /// fraction of an hour.
    pub fn is_rounded(&self) -> (r: IsRounded)
        ensures
            r == (match self@.progress {
                Progress::Int(_) => IsRounded::No,
                Progress::Float(c) => if c % 100 == 0 {
                    IsRounded::No
                } else {
                    IsRounded::Yes
                },
            }),
    {
        match &self.progress {
            Progress::Int(_) => IsRounded::No,
            Progress::Float(c) => {
                if *c % 100 == 0 {
                    IsRounded::No
                } else {
                    IsRounded::Yes
                }
            },
        }
    }

    /// The quantity text the remote service is sent: whole minutes or
    /// whole hours for an integer graph, hours with two decimals for a
    /// fractional one.
    pub fn sendable_string(&self) -> (r: String)
        requires
            self@.progress matches Progress::Int(m) ==> m * 100 <= u64::MAX,
        ensures
            r@ == spec_sendable(self@.progress, self@.subject.unit, self@.subject.data_type),
    {
        match self.subject.data_type() {
            SubjectDataType::Int => {
                let minutes = self.progress.minute_value();
                match self.subject.unit() {
                    SubjectUnit::Minutes => u64_to_string(minutes),
                    SubjectUnit::Hours => u64_to_string(minutes / 60),
                }
            },
            SubjectDataType::Float => {
                let centi = self.progress.centihour_value();
                let mut s = u64_to_string(centi / 100);
                push_char(&mut s, '.');
                push_fraction(&mut s, centi % 100);
                proof {
                    assert(s@ =~= spec_sendable(
                        self@.progress,
                        self@.subject.unit,
                        self@.subject.data_type,
                    ));
                }
                s
            },
        }
    }
}

fn push_fraction(s: &mut String, frac: u64)
    requires
        frac < 100,
    ensures
        final(s)@ == old(s)@ + seq![
            spec_digit_char(frac as int / 10),
            spec_digit_char(frac as int % 10),
        ],
{
    let tens = frac / 10;
    let ones = frac % 10;
    push_one_digit(s, tens);
    push_one_digit(s, ones);
    proof {
        assert(final(s)@ =~= old(s)@ + seq![
            spec_digit_char(frac as int / 10),
            spec_digit_char(frac as int % 10),
        ]);
    }
}

fn push_one_digit(s: &mut String, d: u64)
    requires
        d < 10,
    ensures
        final(s)@ == old(s)@.push(spec_digit_char(d as int)),
{
    match d {
        0 => push_char(s, '0'),
        1 => push_char(s, '1'),
        2 => push_char(s, '2'),
        3 => push_char(s, '3'),
        4 => push_char(s, '4'),
        5 => push_char(s, '5'),
        6 => push_char(s, '6'),
        7 => push_char(s, '7'),
        8 => push_char(s, '8'),
        _ => push_char(s, '9'),
    }
}

/// The quantity text a record renders to, by its subject's numeric
/// representation and unit.
pub open spec fn spec_sendable(p: Progress, unit: SubjectUnit, data_type: SubjectDataType) -> Seq<
    char,
> {
    match data_type {
        SubjectDataType::Int => match unit {
            SubjectUnit::Minutes => spec_decimal(spec_minute_value(p) as nat),
            SubjectUnit::Hours => spec_decimal((spec_minute_value(p) / 60) as nat),
        },
        SubjectDataType::Float => spec_decimal((spec_centihours(p) / 100) as nat) + seq![
            '.',
            spec_digit_char(spec_centihours(p) % 100 / 10),
            spec_digit_char(spec_centihours(p) % 100 % 10),
        ],
    }
}

/// Whether a record's value clears the smallest progress its subject's
/// graph accepts.
pub open spec fn spec_quantity_big_enough(p: Progress, subject: SubjectView) -> bool {
    spec_minute_value(p) >= spec_min_increment_minutes(subject.unit, subject.data_type)
}

/// Accepts a record for upload only when its value clears the subject's
/// minimum increment, whatever the unit and numeric representation.
pub fn check_if_quantity_is_big_enough(pixel: &ComplexPixel) -> (r: Result<(), StatsError>)
    ensures
        r is Ok <==> spec_quantity_big_enough(pixel@.progress, pixel@.subject),
        r matches Err(e) ==> e == StatsError::QuantityIsNotBigEnough,
{
    let minutes = pixel.progress().minute_value();
    if minutes < pixel.subject().get_min_increment() {
        Err(StatsError::QuantityIsNotBigEnough)
    } else {
        Ok(())
    }
}

/// Everything one upload request needs, readied and checked: the remote
/// graph's address, the eight-digit date, and the quantity text.
#[derive(Debug, Clone)]
pub struct UploadRequest {
    pub url: String,
    pub date: String,
    pub quantity: String,
}

/// Readies one record for upload. The request carries the subject's
/// address, the record's date and its quantity text; a record below its
/// subject's minimum increment never becomes a request, whatever the
/// unit and numeric representation.
pub fn prepare_upload(pixel: &ComplexPixel) -> (r: Result<UploadRequest, StatsError>)
    requires
        pixel@.date.wf(),
        pixel@.progress matches Progress::Int(m) ==> m * 100 <= u64::MAX,
    ensures
        match r {
            Ok(req) => {
                &&& spec_quantity_big_enough(pixel@.progress, pixel@.subject)
                &&& req.url@ == pixel@.subject.url
                &&& req.date@ == pixel@.date.spec_yyyymmdd()
                &&& req.quantity@ == spec_sendable(
                    pixel@.progress,
                    pixel@.subject.unit,
                    pixel@.subject.data_type,
                )
            },
            Err(e) => !spec_quantity_big_enough(pixel@.progress, pixel@.subject) && e
                == StatsError::QuantityIsNotBigEnough,
        },
{
    check_if_quantity_is_big_enough(pixel)?;
    Ok(
        UploadRequest {
            url: pixel.subject().url().to_owned(),
            date: pixel.date_pixela_formatted(),
            quantity: pixel.sendable_string(),
        },
    )
}

/// One progress record: local-only or uploadable.
#[derive(Debug)]
pub enum Pixel {
    Simple(SimplePixel),
    Complex(ComplexPixel),
}

/// Mathematical image of a [`Pixel`].
pub ghost enum PixelView {
    Simple(SimplePixelView),
    Complex(ComplexPixelView),
}

impl Clone for Pixel {
    /// A clone carries the same view.
    fn clone(&self) -> (res: Self)
        ensures
            res@ == self@,
    {
        match self {
            Pixel::Simple(p) => Pixel::Simple(p.clone()),
            Pixel::Complex(p) => Pixel::Complex(p.clone()),
        }
    }
}

impl View for Pixel {
    type V = PixelView;

    closed spec fn view(&self) -> PixelView {
        match self {
            Pixel::Simple(p) => PixelView::Simple(p@),
            Pixel::Complex(p) => PixelView::Complex(p@),
        }
    }
}

/// How a record's view wraps the view of its variant.
pub proof fn lemma_pixel_view(p: Pixel)
    ensures
        match p {
            Pixel::Simple(s) => p@ == PixelView::Simple(s@),
            Pixel::Complex(c) => p@ == PixelView::Complex(c@),
        },
{
}

impl Pixel {
    /// Whether showing this record's value as a plain number would lose a
    /// fraction; a simple record never does.
    pub fn check_if_value_rounded(&self) -> (r: IsRounded)
        ensures
            r == (match self@ {
                PixelView::Simple(_) => IsRounded::No,
                PixelView::Complex(c) => match c.progress {
                    Progress::Int(_) => IsRounded::No,
                    Progress::Float(f) => if f % 100 == 0 {
                        IsRounded::No
                    } else {
                        IsRounded::Yes
                    },
                },
            }),
    {
        match self {
            Pixel::Simple(_) => IsRounded::No,
            Pixel::Complex(pix) => pix.is_rounded(),
        }
    }

    /// The uploadable record inside, when this is one.
    pub fn into_complex(self) -> (r: Option<ComplexPixel>)
        ensures
            match r {
                Some(c) => self@ == PixelView::Complex(c@),
                None => self@ is Simple,
            },
    {
        match self {
            Pixel::Complex(c) => Some(c),
            Pixel::Simple(_) => None,
        }
    }

    /// Whether this is an uploadable record.
    pub fn is_complex(&self) -> (r: bool)
        ensures
            r == (self@ is Complex),
    {
        match self {
            Pixel::Simple(_) => false,
            Pixel::Complex(_) => true,
        }
    }
}

} // verus!
