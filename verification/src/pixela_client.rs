//! The client-side state of the remote tracking service: the local store
//! of progress records, the known subjects, the selection marks, and the
//! aggregation that merges same-day, same-subject records before an
//! upload. The HTTP traffic and the files that persist the store are
//! plumbing outside this crate.

use vstd::prelude::*;

use crate::dates::PixelDate;
use crate::error::{Error, StatsError};
use crate::graph::Graph;
use crate::pixel::{
    spec_has_marker, ComplexPixel, ComplexPixelView, Pixel, PixelView, SimplePixel,
};
use crate::pixela_user::PixelaUser;
use crate::progress::{spec_as_int, Progress};
use crate::stateful_list::StatefulList;
use crate::subjects::{Subject, SubjectDataType, SubjectUnit, SubjectView};
use crate::tabs::PixelaTabs;

verus! {

/// The date a record counts under: its calendar day, time discarded.
pub open spec fn spec_day_of(d: PixelDate) -> PixelDate {
    PixelDate { hour: 0, minute: 0, ..d }
}

/// One aggregation bucket: a calendar day, a subject, the summed value
/// and whether more than one record fed it.
pub ghost struct GroupView {
    pub date: PixelDate,
    pub subject: SubjectView,
    pub total: int,
    pub merged: bool,
}

/// Whether a record falls into a bucket: same calendar day, same subject.
pub open spec fn spec_group_matches(g: GroupView, c: ComplexPixelView) -> bool {
    g.date == spec_day_of(c.date) && g.subject == c.subject
}

/// The buckets after one more record: it joins the bucket it matches, or
/// opens a new one at the end.
pub open spec fn spec_insert_record(gs: Seq<GroupView>, c: ComplexPixelView) -> Seq<GroupView> {
    if exists|i: int| 0 <= i < gs.len() && spec_group_matches(#[trigger] gs[i], c) {
        let i = choose|i: int| 0 <= i < gs.len() && spec_group_matches(#[trigger] gs[i], c);
        gs.update(
            i,
            GroupView {
                total: gs[i].total + spec_as_int(c.progress),
                merged: true,
                ..gs[i]
            },
        )
    } else {
        gs.push(
            GroupView {
                date: spec_day_of(c.date),
                subject: c.subject,
                total: spec_as_int(c.progress),
                merged: false,
            },
        )
    }
}

/// The buckets a sequence of records sorts into, in order of first
/// appearance.
pub open spec fn spec_combine_groups(s: Seq<ComplexPixelView>) -> Seq<GroupView>
    decreases s.len(),
{
    if s.len() == 0 {
        Seq::empty()
    } else {
        spec_insert_record(spec_combine_groups(s.drop_last()), s.last())
    }
}

/// A subject as aggregation leaves it: tagged in its display name, unless
/// the tag is already there.
pub open spec fn spec_tagged(s: SubjectView) -> SubjectView {
    SubjectView {
        graph_name: if spec_has_marker(s.graph_name) {
            s.graph_name
        } else {
            "(Aggregated) "@ + s.graph_name
        },
        ..s
    }
}

/// The record a bucket turns back into: the summed value as whole
/// minutes, the calendar day, and the subject — tagged as aggregated when
/// more than one record was merged.
pub open spec fn spec_group_pixel(g: GroupView) -> ComplexPixelView {
    ComplexPixelView {
        progress: Progress::Int(g.total as u64),
        date: g.date,
        subject: if g.merged {
            spec_tagged(g.subject)
        } else {
            g.subject
        },
    }
}

/// The views of the uploadable records of a batch, in their order;
/// local-only records do not take part.
pub open spec fn spec_complex_views(pixels: Seq<Pixel>) -> Seq<ComplexPixelView>
    decreases pixels.len(),
{
    if pixels.len() == 0 {
        Seq::empty()
    } else {
        spec_complex_views(pixels.drop_last()) + (match pixels.last()@ {
            PixelView::Complex(c) => seq![c],
            PixelView::Simple(_) => Seq::empty(),
        })
    }
}

/// The summed shown value of a sequence of records.
pub open spec fn spec_progress_sum(s: Seq<ComplexPixelView>) -> int
    decreases s.len(),
{
    if s.len() == 0 {
        0
    } else {
        spec_progress_sum(s.drop_last()) + spec_as_int(s.last().progress)
    }
}

/// The summed value held by a sequence of buckets.
pub open spec fn spec_group_total(gs: Seq<GroupView>) -> int
    decreases gs.len(),
{
    if gs.len() == 0 {
        0
    } else {
        spec_group_total(gs.drop_last()) + gs.last().total
    }
}

/// Every bucket's date is a bare calendar day: no time of day.
pub open spec fn spec_groups_day_only(gs: Seq<GroupView>) -> bool {
    forall|i: int|
        0 <= i < gs.len() ==> (#[trigger] gs[i]).date.hour == 0 && gs[i].date.minute == 0
}

/// No two buckets share a day and a subject.
pub open spec fn spec_distinct_groups(gs: Seq<GroupView>) -> bool {
    forall|i: int, j: int|
        0 <= i < j < gs.len() ==> !((#[trigger] gs[i]).date == (#[trigger] gs[j]).date
            && gs[i].subject == gs[j].subject)
}


/// Whether a selection mark takes part in a collection pass: when only
/// uploadable records are wanted the mark must be exactly one, otherwise
/// any non-zero mark counts.
pub open spec fn spec_mark_selects(m: usize, complex_only: bool) -> bool {
    if complex_only {
        m == 1
    } else {
        m != 0
    }
}

/// Splits a store along its selection marks: the records whose mark
/// takes part, in store order, and the records that stay, in store
/// order. A record beyond the marks stays.
pub open spec fn spec_selected_split(
    pixels: Seq<Pixel>,
    marks: Seq<usize>,
    complex_only: bool,
) -> (Seq<Pixel>, Seq<Pixel>)
    decreases pixels.len(),
{
    if pixels.len() == 0 {
        (Seq::empty(), Seq::empty())
    } else {
        let (t, k) = spec_selected_split(pixels.drop_last(), marks, complex_only);
        let i = pixels.len() - 1;
        if i < marks.len() && spec_mark_selects(marks[i], complex_only) {
            (t.push(pixels.last()), k)
        } else {
            (t, k.push(pixels.last()))
        }
    }
}


/// The address of one remote graph, put together from the service root,
/// the user name and the graph's identity.
pub open spec fn spec_graph_url(username: Seq<char>, id: Seq<char>) -> Seq<char> {
    "https://pixe.la/v1/users/"@ + username + "/graphs/"@ + id
}

/// The subjects kept from a fetched list, in order: a fractional minutes
/// graph is no valid combination and is dropped, and every kept subject
/// gets its address derived from the user name and its identity.
pub open spec fn spec_prepare_subjects(
    subjects: Seq<SubjectView>,
    username: Seq<char>,
) -> Seq<SubjectView>
    decreases subjects.len(),
{
    if subjects.len() == 0 {
        Seq::empty()
    } else {
        let head = spec_prepare_subjects(subjects.drop_last(), username);
        let s = subjects.last();
        if s.unit is Minutes && s.data_type is Float {
            head
        } else {
            head.push(SubjectView { url: spec_graph_url(username, s.id), ..s })
        }
    }
}

/// One aggregation bucket while it is being filled.
struct Group {
    date: PixelDate,
    subject: Subject,
    total: u64,
    merged: bool,
}

/// The views of a sequence of buckets.
spec fn spec_group_views(gs: Seq<Group>) -> Seq<GroupView> {
    Seq::new(
        gs.len(),
        |i: int|
            GroupView {
                date: gs[i].date,
                subject: gs[i].subject@,
                total: gs[i].total as int,
                merged: gs[i].merged,
            },
    )
}

/// Whether every uploadable record of a batch keeps its fraction within
/// the machine word; the aggregation reads each record's shown value.
pub open spec fn spec_values_bounded(s: Seq<ComplexPixelView>) -> bool {
    forall|i: int|
        0 <= i < s.len() ==> ((#[trigger] s[i]).progress matches Progress::Float(c) ==> c
            < u64::MAX)
}

/// The client-side state of the remote tracking service: the account,
/// the local record store with its selection, the known subjects, and
/// what the statistics view is looking at.
#[derive(Debug)]
pub struct PixelaClient {
    pub user: PixelaUser,
    pub pixels: StatefulList<Pixel>,
    pub subjects: StatefulList<Subject>,
    pub logged_in: bool,
    pub focused_pane: PixelaTabs,
    pub pixels_to_send: Vec<usize>,
    pub current_subject_index: usize,
    pub current_graph: Option<Graph>,
}

impl PixelaClient {

    /// A client over an account and the records read from local storage:
    /// nothing selected, the placeholder subject first in the list, and
    /// the statistics view opening on the subject pane.
    pub fn new(user: PixelaUser, pixels: Vec<Pixel>) -> (r: PixelaClient)
        requires
            2 * pixels@.len() <= usize::MAX,
        ensures
            r.user@ == user@,
            r.pixels@.items == pixels@,
            r.pixels@.selected is None,
            r.subjects@.items.len() == 1,
            r.subjects@.items[0]@ == crate::subjects::spec_dummy_subject(),
            !r.logged_in,
            r.focused_pane == PixelaTabs::Subject,
            r.pixels_to_send@.len() == 2 * pixels@.len(),
            forall|i: int| 0 <= i < r.pixels_to_send@.len() ==> r.pixels_to_send@[i] == 0usize,
            r.current_subject_index == 0,
            r.current_graph is None,
    {
        let ghost n = pixels@.len();
        let target = 2 * pixels.len();
        let mut marks: Vec<usize> = Vec::new();
        while marks.len() < target
            invariant
                target == 2 * n,
                marks@.len() <= target,
                forall|i: int| 0 <= i < marks@.len() ==> marks@[i] == 0usize,
            decreases target - marks@.len(),
        {
            marks.push(0);
        }
        let mut subjects: StatefulList<Subject> = StatefulList::new(Vec::new());
        subjects.push(Subject::new_dummy());
        PixelaClient {
            user,
            pixels: StatefulList::new(pixels),
            subjects,
            logged_in: false,
            focused_pane: PixelaTabs::Subject,
            pixels_to_send: marks,
            current_subject_index: 0,
            current_graph: None,
        }
    }

    /// Appends one freshly made record to the store: an uploadable record
    /// when a subject is given, a local-only note of whole minutes when
    /// none is. The selection marks grow along with the store.
    pub fn add_pixel(&mut self, date: PixelDate, subject: Option<Subject>, progress: Progress)
        requires
            date.wf(),
            progress matches Progress::Float(c) ==> c < u64::MAX,
        ensures
            final(self).pixels@.items.len() == old(self).pixels@.items.len() + 1,
            forall|i: int|
                0 <= i < old(self).pixels@.items.len() ==> final(self).pixels@.items[i] == old(self).pixels@.items[i],
            (match subject {
                Some(sub) => final(self).pixels@.items.last()@ == PixelView::Complex(
                    ComplexPixelView { progress, date, subject: sub@ },
                ),
                None => final(self).pixels@.items.last()@ matches PixelView::Simple(sp)
                    && sp.progress == spec_as_int(progress) && sp.date == date.spec_display(),
            }),
            final(self).pixels_to_send@.len() >= final(self).pixels@.items.len(),
            forall|i: int|
                0 <= i < old(self).pixels_to_send@.len() ==> final(self).pixels_to_send@[i] == old(self).pixels_to_send@[i],
            forall|i: int|
                old(self).pixels_to_send@.len() <= i < final(self).pixels_to_send@.len() ==> final(self).pixels_to_send@[i] == 0usize,
            final(self).user@ == old(self).user@,
            final(self).subjects@ == old(self).subjects@,
            final(self).logged_in == old(self).logged_in,
    {
        match subject {
            Some(sub) => {
                let px = ComplexPixel::new(progress, sub, date);
                proof {
                    crate::pixel::lemma_pixel_view(Pixel::Complex(px));
                }
                self.pixels.push(Pixel::Complex(px));
            },
            None => {
                let minutes = progress.get_as_int();
                let sp = SimplePixel::new(minutes, date.format_display());
                proof {
                    crate::pixel::lemma_pixel_view(Pixel::Simple(sp));
                }
                self.pixels.push(Pixel::Simple(sp));
            },
        }
        let ghost plist = self.pixels@;
        let need = self.pixels.len();
        while self.pixels_to_send.len() < need
            invariant
                need == plist.items.len(),
                self.pixels@ == plist,
                old(self).pixels_to_send@.len() <= self.pixels_to_send@.len(),
                forall|i: int|
                    0 <= i < old(self).pixels_to_send@.len() ==> self.pixels_to_send@[i] == old(self).pixels_to_send@[i],
                forall|i: int|
                    old(self).pixels_to_send@.len() <= i < self.pixels_to_send@.len()
                        ==> self.pixels_to_send@[i] == 0usize,
                self.user@ == old(self).user@,
                self.subjects@ == old(self).subjects@,
                self.logged_in == old(self).logged_in,
            decreases need - self.pixels_to_send@.len(),
        {
            self.pixels_to_send.push(0);
        }
    }

    /// Marks the record at `index` for the next upload; only an
    /// uploadable record can be marked, and an index outside the store or
    /// the marks is ignored.
    pub fn select_pixel(&mut self, index: usize)
        ensures
            final(self).pixels@ == old(self).pixels@,
            final(self).user@ == old(self).user@,
            final(self).subjects@ == old(self).subjects@,
            final(self).logged_in == old(self).logged_in,
            if index < old(self).pixels@.items.len() && index < old(self).pixels_to_send@.len()
                && old(self).pixels@.items[index as int]@ is Complex {
                final(self).pixels_to_send@ == old(self).pixels_to_send@.update(
                    index as int,
                    1usize,
                )
            } else {
                final(self).pixels_to_send@ == old(self).pixels_to_send@
            },
    {
        if index < self.pixels.len() && index < self.pixels_to_send.len() {
            let mark = if self.pixels.items()[index].is_complex() {
                true
            } else {
                false
            };
            if mark {
                self.pixels_to_send.set(index, 1);
            }
        }
    }

    /// Clears the upload mark at `elem`; an index outside the marks is
    /// ignored.
    pub fn unselect_pixel(&mut self, elem: usize)
        ensures
            final(self).pixels@ == old(self).pixels@,
            final(self).user@ == old(self).user@,
            final(self).subjects@ == old(self).subjects@,
            final(self).logged_in == old(self).logged_in,
            if elem < old(self).pixels_to_send@.len() {
                final(self).pixels_to_send@ == old(self).pixels_to_send@.update(
                    elem as int,
                    0usize,
                )
            } else {
                final(self).pixels_to_send@ == old(self).pixels_to_send@
            },
    {
        if elem < self.pixels_to_send.len() {
            self.pixels_to_send.set(elem, 0);
        }
    }

    /// Whether the record at `index` is marked for upload.
    pub fn selected_to_send(&self, index: usize) -> (r: bool)
        ensures
            r == (index < self.pixels_to_send@.len() && self.pixels_to_send@[index as int]
                == 1usize),
    {
        index < self.pixels_to_send.len() && self.pixels_to_send[index] == 1
    }

    /// Whether no record at all is marked for upload.
    pub fn pixels_to_send_is_empty(&self) -> (r: bool)
        ensures
            r == (forall|i: int|
                0 <= i < self.pixels_to_send@.len() ==> self.pixels_to_send@[i] != 1usize),
    {
        let mut i: usize = 0;
        let n = self.pixels_to_send.len();
        while i < n
            invariant
                n == self.pixels_to_send@.len(),
                i <= n,
                forall|j: int| 0 <= j < i ==> self.pixels_to_send@[j] != 1usize,
            decreases n - i,
        {
            if self.pixels_to_send[i] == 1 {
                return false;
            }
            i = i + 1;
        }
        true
    }

    /// Collects the records marked for upload out of the store, leaving
    /// the rest; the collected records come newest-first, as the engine
    /// dispatches them. With `complex_only` set, only marks naming an
    /// uploadable record take part.
    pub fn take_selected_pixels(&mut self, complex_only: bool) -> (r: Vec<Pixel>)
        ensures
            ({
                let (t, k) = spec_selected_split(
                    old(self).pixels@.items,
                    old(self).pixels_to_send@,
                    complex_only,
                );
                &&& r@.len() == t.len()
                &&& forall|j: int| 0 <= j < t.len() ==> r@[j] == t[t.len() - 1 - j]
                &&& final(self).pixels@.items == k
            }),
            final(self).pixels@.selected == old(self).pixels@.selected,
            final(self).pixels_to_send@ == old(self).pixels_to_send@,
            final(self).user@ == old(self).user@,
            final(self).subjects@ == old(self).subjects@,
            final(self).logged_in == old(self).logged_in,
    {
        let ghost orig = self.pixels@.items;
        let ghost marks = self.pixels_to_send@;
        let mut items = self.pixels.take_items();
        let mut taken_asc: Vec<Pixel> = Vec::new();
        let mut kept: Vec<Pixel> = Vec::new();
        let total = items.len();
        let mut i: usize = 0;
        while items.len() > 0
            invariant
                i + items@.len() == total,
                orig.len() == total,
                marks == self.pixels_to_send@,
                self.pixels_to_send@ == old(self).pixels_to_send@,
                items@ =~= orig.subrange(i as int, orig.len() as int),
                (taken_asc@, kept@) == spec_selected_split(
                    orig.subrange(0, i as int),
                    marks,
                    complex_only,
                ),
            decreases items@.len(),
        {
            proof {
                let pre = orig.subrange(0, i + 1);
                assert(pre.drop_last() =~= orig.subrange(0, i as int));
                assert(pre.last() == orig[i as int]);
                assert(items@[0] == orig[i as int]);
            }
            let p = items.remove(0);
            let marked = if i < self.pixels_to_send.len() {
                if complex_only {
                    self.pixels_to_send[i] == 1
                } else {
                    self.pixels_to_send[i] != 0
                }
            } else {
                false
            };
            if marked {
                taken_asc.push(p);
            } else {
                kept.push(p);
            }
            i = i + 1;
        }
        proof {
            assert(orig.subrange(0, orig.len() as int) =~= orig);
        }
        self.pixels.set_items(kept);
        let ghost asc = taken_asc@;
        let mut r: Vec<Pixel> = Vec::new();
        while taken_asc.len() > 0
            invariant
                r@.len() + taken_asc@.len() == asc.len(),
                taken_asc@ =~= asc.subrange(0, taken_asc@.len() as int),
                forall|j: int| 0 <= j < r@.len() ==> r@[j] == asc[asc.len() - 1 - j],
            decreases taken_asc@.len(),
        {
            let x = taken_asc.pop().unwrap();
            proof {
                assert(x == asc[taken_asc@.len() as int]);
            }
            r.push(x);
        }
        r
    }

    /// Copies of the records marked for upload, in store order; every
    /// non-zero mark takes part.
    pub fn get_selected_pixels(&self) -> (r: Vec<Pixel>)
        ensures
            ({
                let (t, k) = spec_selected_split(
                    self.pixels@.items,
                    self.pixels_to_send@,
                    false,
                );
                &&& r@.len() == t.len()
                &&& forall|j: int| 0 <= j < t.len() ==> (#[trigger] r@[j])@ == t[j]@
            }),
    {
        self.clone_selected_ascending(false)
    }

    /// Copies of the records marked for upload, newest-first, as a
    /// confirmation dialog lists them.
    pub fn clone_selected_pixels(&self, complex_only: bool) -> (r: Vec<Pixel>)
        ensures
            ({
                let (t, k) = spec_selected_split(
                    self.pixels@.items,
                    self.pixels_to_send@,
                    complex_only,
                );
                &&& r@.len() == t.len()
                &&& forall|j: int| 0 <= j < t.len() ==> (#[trigger] r@[j])@ == t[t.len() - 1 - j]@
            }),
    {
        let asc = self.clone_selected_ascending(complex_only);
        let ghost ascs = asc@;
        let mut rest = asc;
        let mut r: Vec<Pixel> = Vec::new();
        while rest.len() > 0
            invariant
                r@.len() + rest@.len() == ascs.len(),
                rest@ =~= ascs.subrange(0, rest@.len() as int),
                forall|j: int| 0 <= j < r@.len() ==> (#[trigger] r@[j]) == ascs[ascs.len() - 1
                    - j],
                ({
                    let (t, k) = spec_selected_split(
                        self.pixels@.items,
                        self.pixels_to_send@,
                        complex_only,
                    );
                    &&& ascs.len() == t.len()
                    &&& forall|j: int| 0 <= j < t.len() ==> (#[trigger] ascs[j])@ == t[j]@
                }),
            decreases rest@.len(),
        {
            let x = rest.pop().unwrap();
            proof {
                assert(x == ascs[rest@.len() as int]);
            }
            r.push(x);
        }
        r
    }

    /// Copies of the marked records, in store order.
    fn clone_selected_ascending(&self, complex_only: bool) -> (r: Vec<Pixel>)
        ensures
            ({
                let (t, k) = spec_selected_split(
                    self.pixels@.items,
                    self.pixels_to_send@,
                    complex_only,
                );
                &&& r@.len() == t.len()
                &&& forall|j: int| 0 <= j < t.len() ==> (#[trigger] r@[j])@ == t[j]@
            }),
    {
        let ghost orig = self.pixels@.items;
        let ghost marks = self.pixels_to_send@;
        let mut r: Vec<Pixel> = Vec::new();
        let n = self.pixels.len();
        let mut i: usize = 0;
        while i < n
            invariant
                n == orig.len(),
                orig == self.pixels@.items,
                marks == self.pixels_to_send@,
                i <= n,
                ({
                    let (t, k) = spec_selected_split(
                        orig.subrange(0, i as int),
                        marks,
                        complex_only,
                    );
                    &&& r@.len() == t.len()
                    &&& forall|j: int| 0 <= j < t.len() ==> (#[trigger] r@[j])@ == t[j]@
                }),
            decreases n - i,
        {
            proof {
                let pre = orig.subrange(0, i + 1);
                assert(pre.drop_last() =~= orig.subrange(0, i as int));
                assert(pre.last() == orig[i as int]);
            }
            let marked = if i < self.pixels_to_send.len() {
                if complex_only {
                    self.pixels_to_send[i] == 1
                } else {
                    self.pixels_to_send[i] != 0
                }
            } else {
                false
            };
            if marked {
                r.push(self.pixels.items()[i].clone());
            }
            i = i + 1;
        }
        proof {
            assert(orig.subrange(0, n as int) =~= orig);
        }
        r
    }

    /// Clears every upload mark, as the engine does once a batch is
    /// settled.
    pub fn clear_selection(&mut self)
        ensures
            final(self).pixels@ == old(self).pixels@,
            final(self).user@ == old(self).user@,
            final(self).subjects@ == old(self).subjects@,
            final(self).logged_in == old(self).logged_in,
            final(self).pixels_to_send@.len() == old(self).pixels_to_send@.len(),
            forall|i: int|
                0 <= i < final(self).pixels_to_send@.len() ==> final(self).pixels_to_send@[i]
                    == 0usize,
    {
        let n = self.pixels_to_send.len();
        let mut i: usize = 0;
        while i < n
            invariant
                n == self.pixels_to_send@.len(),
                i <= n,
                self.pixels@ == old(self).pixels@,
                self.user@ == old(self).user@,
                self.subjects@ == old(self).subjects@,
                self.logged_in == old(self).logged_in,
                forall|j: int| 0 <= j < i ==> self.pixels_to_send@[j] == 0usize,
            decreases n - i,
        {
            self.pixels_to_send.set(i, 0);
            i = i + 1;
        }
    }

    /// The subject progress is being logged against, when one is chosen;
    /// the first entry is the placeholder for "none".
    pub fn get_current_subject(&self) -> (r: Option<Subject>)
        ensures
            match r {
                Some(s) => self.current_subject_index != 0 && self.current_subject_index
                    < self.subjects@.items.len() && s@ == self.subjects@.items[self.current_subject_index as int]@,
                None => self.current_subject_index == 0 || self.current_subject_index
                    >= self.subjects@.items.len(),
            },
    {
        if self.current_subject_index == 0 {
            return None;
        }
        self.get_subject(self.current_subject_index)
    }

    /// A copy of the subject at `index`, when the list reaches that far.
    pub fn get_subject(&self, index: usize) -> (r: Option<Subject>)
        ensures
            match r {
                Some(s) => index < self.subjects@.items.len() && s@ == self.subjects@.items[index as int]@,
                None => index >= self.subjects@.items.len(),
            },
    {
        if index < self.subjects.len() {
            Some(self.subjects.items()[index].clone())
        } else {
            None
        }
    }

    /// Checks that the account can log in at all: the credentials must
    /// not be empty. The subject fetch that completes a login is network
    /// plumbing; its parsed result comes back through
    /// [`PixelaClient::complete_login`].
    pub fn login_precheck(&self) -> (r: Result<(), Error>)
        ensures
            r is Ok <==> self.user@.username.len() > 0,
            r matches Err(e) ==> e matches Error::StatsError(StatsError::UserNotProvided),
    {
        if !self.user.validate_not_empty() {
            return Err(Error::StatsError(StatsError::UserNotProvided));
        }
        Ok(())
    }

    /// Books a successful subject fetch: the fetched subjects join the
    /// list after the placeholder, and the client counts as logged in.
    pub fn complete_login(&mut self, subjects: Vec<Subject>)
        ensures
            final(self).subjects@.items == old(self).subjects@.items + subjects@,
            final(self).subjects@.selected == old(self).subjects@.selected,
            final(self).logged_in,
            final(self).pixels@ == old(self).pixels@,
            final(self).pixels_to_send@ == old(self).pixels_to_send@,
            final(self).user@ == old(self).user@,
    {
        let mut incoming = subjects;
        self.subjects.append_items(&mut incoming);
        self.logged_in = true;
    }

    /// Readies a fetched subject list: fractional minutes graphs are
    /// dropped, and every kept subject gets the address of its remote
    /// graph, derived from the user name and the graph's identity.
    pub fn prepare_subjects(subjects: Vec<Subject>, username: &str) -> (r: Vec<Subject>)
        ensures
            ({
                let prepared = spec_prepare_subjects(
                    Seq::new(subjects@.len(), |i: int| subjects@[i]@),
                    username@,
                );
                &&& r@.len() == prepared.len()
                &&& forall|i: int| 0 <= i < prepared.len() ==> (#[trigger] r@[i])@ == prepared[i]
            }),
    {
        let ghost views = Seq::new(subjects@.len(), |i: int| subjects@[i]@);
        let mut rest = subjects;
        let total = rest.len();
        let mut r: Vec<Subject> = Vec::new();
        let mut i: usize = 0;
        while rest.len() > 0
            invariant
                i + rest@.len() == total,
                views.len() == total,
                forall|j: int| 0 <= j < rest@.len() ==> (#[trigger] rest@[j])@ == views[i + j],
                ({
                    let prepared = spec_prepare_subjects(views.subrange(0, i as int), username@);
                    &&& r@.len() == prepared.len()
                    &&& forall|j: int|
                        0 <= j < prepared.len() ==> (#[trigger] r@[j])@ == prepared[j]
                }),
            decreases rest@.len(),
        {
            let ghost pre = views.subrange(0, i + 1);
            proof {
                assert(pre.drop_last() =~= views.subrange(0, i as int));
                assert(pre.last() == views[i as int]);
                assert(rest@[0]@ == views[i as int]);
            }
            let ghost prev_rest = rest@;
            let mut sub = rest.remove(0);
            proof {
                assert forall|j: int| 0 <= j < rest@.len() implies (#[trigger] rest@[j])@
                    == views[i + 1 + j] by {
                    assert(rest@[j] == prev_rest[j + 1]);
                }
            }
            let drop = *sub.unit() == SubjectUnit::Minutes && *sub.data_type()
                == SubjectDataType::Float;
            if !drop {
                let url = String::from_str("https://pixe.la/v1/users/").concat(username).concat(
                    "/graphs/",
                ).concat(sub.id());
                sub.set_url(url);
                r.push(sub);
            }
            i = i + 1;
        }
        proof {
            assert(views.subrange(0, total as int) =~= views);
        }
        r
    }

    /// Moves the focus between the record pane and the subject pane.
    pub fn change_focused_pane(&mut self, forward: bool)
        ensures
            final(self).focused_pane == if forward {
                PixelaTabs::Subject
            } else {
                PixelaTabs::Pixels
            },
            final(self).pixels@ == old(self).pixels@,
            final(self).subjects@ == old(self).subjects@,
            final(self).pixels_to_send@ == old(self).pixels_to_send@,
            final(self).user@ == old(self).user@,
            final(self).logged_in == old(self).logged_in,
    {
        match forward {
            true => self.focused_pane.right(),
            false => self.focused_pane.left(),
        }
    }

    /// Moves the highlight of the focused pane one entry down.
    pub fn select_next(&mut self)
        ensures
            final(self).user@ == old(self).user@,
            final(self).logged_in == old(self).logged_in,
            final(self).pixels_to_send@ == old(self).pixels_to_send@,
            final(self).focused_pane == old(self).focused_pane,
            old(self).focused_pane is Pixels ==> final(self).pixels@.items == old(self).pixels@.items
                && final(self).subjects@ == old(self).subjects@,
            old(self).focused_pane is Subject ==> final(self).subjects@.items == old(self).subjects@.items
                && final(self).pixels@ == old(self).pixels@,
    {
        match self.focused_pane {
            PixelaTabs::Pixels => self.pixels.select_next(),
            PixelaTabs::Subject => self.subjects.select_next(),
        }
    }

    /// Moves the highlight of the focused pane one entry up.
    pub fn select_previous(&mut self)
        ensures
            final(self).user@ == old(self).user@,
            final(self).logged_in == old(self).logged_in,
            final(self).pixels_to_send@ == old(self).pixels_to_send@,
            final(self).focused_pane == old(self).focused_pane,
            old(self).focused_pane is Pixels ==> final(self).pixels@.items == old(self).pixels@.items
                && final(self).subjects@ == old(self).subjects@,
            old(self).focused_pane is Subject ==> final(self).subjects@.items == old(self).subjects@.items
                && final(self).pixels@ == old(self).pixels@,
    {
        match self.focused_pane {
            PixelaTabs::Pixels => self.pixels.select_previous(),
            PixelaTabs::Subject => self.subjects.select_previous(),
        }
    }

    /// Removes the highlighted record from the store; nothing happens
    /// when no record is highlighted or the highlight is out of range.
    /// The caller persists the store afterwards.
    pub fn delete_pixel(&mut self)
        ensures
            final(self).user@ == old(self).user@,
            final(self).subjects@ == old(self).subjects@,
            final(self).logged_in == old(self).logged_in,
            final(self).pixels_to_send@ == old(self).pixels_to_send@,
            (match old(self).pixels@.selected {
                Some(i) => if 0 <= i < old(self).pixels@.items.len() {
                    final(self).pixels@.items == old(self).pixels@.items.remove(i)
                } else {
                    final(self).pixels@.items == old(self).pixels@.items
                },
                None => final(self).pixels@.items == old(self).pixels@.items,
            }),
    {
        if let Some(index) = self.pixels.selected() {
            if index < self.pixels.len() {
                let _ = self.pixels.remove_item(index);
            }
        }
    }

    /// The record an explicit single push would upload: the highlighted
    /// record, which must be uploadable. Nothing is pushed when nothing
    /// is highlighted; a highlighted local-only record is refused.
    pub fn push_candidate(&self) -> (r: Result<Option<(usize, ComplexPixel)>, Error>)
        ensures
            match r {
                Ok(opt) => match opt {
                    Some(pair) => self.pixels@.selected == Some(pair.0 as int) && pair.0
                        < self.pixels@.items.len() && self.pixels@.items[pair.0 as int]@
                        == PixelView::Complex(pair.1@),
                    None => self.pixels@.selected is None || (match self.pixels@.selected {
                        Some(i) => i >= self.pixels@.items.len(),
                        None => true,
                    }),
                },
                Err(e) => e matches Error::StatsError(StatsError::WrongPixelData) && (match self.pixels@.selected {
                    Some(i) => 0 <= i < self.pixels@.items.len() && self.pixels@.items[i]@
                        is Simple,
                    None => false,
                }),
            },
    {
        if let Some(index) = self.pixels.selected() {
            if index < self.pixels.len() {
                let p = self.pixels.items()[index].clone();
                proof {
                    crate::pixel::lemma_pixel_view(self.pixels@.items[index as int]);
                }
                match p.into_complex() {
                    Some(c) => Ok(Some((index, c))),
                    None => Err(Error::StatsError(StatsError::WrongPixelData)),
                }
            } else {
                Ok(None)
            }
        } else {
            Ok(None)
        }
    }

    /// Removes a record once its single push was confirmed remotely.
    pub fn confirm_pushed(&mut self, index: usize)
        requires
            index < old(self).pixels@.items.len(),
        ensures
            final(self).pixels@.items == old(self).pixels@.items.remove(index as int),
            final(self).user@ == old(self).user@,
            final(self).subjects@ == old(self).subjects@,
            final(self).logged_in == old(self).logged_in,
            final(self).pixels_to_send@ == old(self).pixels_to_send@,
    {
        let _ = self.pixels.remove_item(index);
    }

    /// Puts the unresolved records of a failed batch back into the
    /// store, so that no record confirmed by nobody is lost.
    pub fn absorb_unresolved(&mut self, unresolved: Vec<Pixel>)
        ensures
            final(self).pixels@.items == old(self).pixels@.items + unresolved@,
            final(self).user@ == old(self).user@,
            final(self).subjects@ == old(self).subjects@,
            final(self).logged_in == old(self).logged_in,
            final(self).pixels_to_send@ == old(self).pixels_to_send@,
    {
        let mut incoming = unresolved;
        self.pixels.append_items(&mut incoming);
    }

    /// Merges records that share a calendar day and a subject, summing
    /// their shown values into one whole-minute record per bucket; a
    /// bucket fed by more than one record has its subject tagged as
    /// aggregated. Local-only records are dropped: they are never
    /// uploaded. Buckets keep the order in which their day and subject
    /// first appeared.
    pub fn combine_similiar_pixels(pixels: Vec<Pixel>) -> (r: Vec<Pixel>)
        requires
            spec_values_bounded(spec_complex_views(pixels@)),
            spec_progress_sum(spec_complex_views(pixels@)) <= u64::MAX,
        ensures
            ({
                let gs = spec_combine_groups(spec_complex_views(pixels@));
                &&& r@.len() == gs.len()
                &&& forall|i: int|
                    0 <= i < gs.len() ==> (#[trigger] r@[i])@ == PixelView::Complex(
                        spec_group_pixel(gs[i]),
                    )
            }),
    {
        let ghost orig = pixels@;
        let ghost cvs = spec_complex_views(orig);
        let mut rest = pixels;
        let total_count = rest.len();
        let mut groups: Vec<Group> = Vec::new();
        let mut i: usize = 0;
        while rest.len() > 0
            invariant
                i + rest@.len() == orig.len(),
                orig.len() == total_count,
                rest@ =~= orig.subrange(i as int, orig.len() as int),
                spec_values_bounded(spec_complex_views(orig)),
                spec_progress_sum(spec_complex_views(orig)) <= u64::MAX,
                spec_group_views(groups@) == spec_combine_groups(
                    spec_complex_views(orig.subrange(0, i as int)),
                ),
                spec_distinct_groups(spec_group_views(groups@)),
                spec_groups_day_only(spec_group_views(groups@)),
                spec_group_total(spec_group_views(groups@)) == spec_progress_sum(
                    spec_complex_views(orig.subrange(0, i as int)),
                ),
            decreases rest@.len(),
        {
            proof {
                let pre = orig.subrange(0, i + 1);
                assert(pre.drop_last() =~= orig.subrange(0, i as int));
                assert(pre.last() == orig[i as int]);
                assert(rest@[0] == orig[i as int]);
                lemma_complex_views_bounded(orig, i + 1);
                lemma_complex_views_sum_prefix(orig, i + 1);
            }
            let p = rest.remove(0);
            let ghost prefix_views = spec_complex_views(orig.subrange(0, i as int));
            let ghost pre_views = spec_complex_views(orig.subrange(0, i + 1));
            match p.into_complex() {
                Some(c) => {
                    proof {
                        assert(orig[i as int]@ == PixelView::Complex(c@));
                        assert(pre_views =~= prefix_views + seq![c@]);
                        assert(pre_views.drop_last() =~= prefix_views);
                        assert(pre_views.last() == c@);
                        assert(spec_combine_groups(pre_views) == spec_insert_record(
                            spec_combine_groups(prefix_views),
                            c@,
                        ));
                        assert(spec_progress_sum(pre_views) == spec_progress_sum(prefix_views)
                            + spec_as_int(c@.progress)) by {
                            assert(pre_views.drop_last() == prefix_views);
                        }
                        assert(c@.progress matches Progress::Float(f) ==> f < u64::MAX) by {
                            assert(spec_values_bounded(pre_views));
                            assert(pre_views[pre_views.len() - 1] == c@);
                        }
                    }
                    Self::add_to_groups(&mut groups, c);
                },
                None => {
                    proof {
                        assert(pre_views =~= prefix_views);
                    }
                },
            }
            i = i + 1;
        }
        proof {
            assert(orig.subrange(0, orig.len() as int) =~= orig);
        }
        let ghost gs = spec_combine_groups(cvs);
        let mut result: Vec<Pixel> = Vec::new();
        let mut grest = groups;
        let gtotal = grest.len();
        let mut k: usize = 0;
        while grest.len() > 0
            invariant
                k + grest@.len() == gtotal,
                gs.len() == gtotal,
                forall|j: int| 0 <= j < grest@.len() ==> spec_group_views(grest@)[j] == gs[k + j],
                result@.len() == k,
                forall|j: int|
                    0 <= j < k ==> (#[trigger] result@[j])@ == PixelView::Complex(
                        spec_group_pixel(gs[j]),
                    ),
            decreases grest@.len(),
        {
            let ghost prev = grest@;
            proof {
                assert(spec_group_views(prev)[0] == gs[k as int]);
            }
            let g = grest.remove(0);
            let mut px = ComplexPixel::new(Progress::Int(g.total), g.subject, g.date);
            if g.merged {
                px.into_aggregate();
            }
            proof {
                assert(px@ == spec_group_pixel(gs[k as int]));
                crate::pixel::lemma_pixel_view(Pixel::Complex(px));
                assert forall|j: int| 0 <= j < grest@.len() implies spec_group_views(grest@)[j]
                    == gs[k + 1 + j] by {
                    assert(grest@[j] == prev[j + 1]);
                    assert(spec_group_views(prev)[j + 1] == gs[k + (j + 1)]);
                }
            }
            result.push(Pixel::Complex(px));
            k = k + 1;
        }
        result
    }

    /// Adds one record to the buckets: it joins the bucket of its day and
    /// subject, or opens a new one at the end.
    fn add_to_groups(groups: &mut Vec<Group>, c: ComplexPixel)
        requires
            c@.progress matches Progress::Float(f) ==> f < u64::MAX,
            spec_distinct_groups(spec_group_views(old(groups)@)),
            spec_groups_day_only(spec_group_views(old(groups)@)),
            spec_group_total(spec_group_views(old(groups)@)) + spec_as_int(c@.progress)
                <= u64::MAX,
        ensures
            spec_group_views(final(groups)@) == spec_insert_record(
                spec_group_views(old(groups)@),
                c@,
            ),
            spec_distinct_groups(spec_group_views(final(groups)@)),
            spec_groups_day_only(spec_group_views(final(groups)@)),
            spec_group_total(spec_group_views(final(groups)@)) == spec_group_total(
                spec_group_views(old(groups)@),
            ) + spec_as_int(c@.progress),
    {
        let ghost gv0 = spec_group_views(old(groups)@);
        let minutes = c.progress().get_as_int();
        let mut j: usize = 0;
        let n = groups.len();
        while j < n
            invariant
                n == groups@.len(),
                j <= n,
                groups@ == old(groups)@,
                gv0 == spec_group_views(groups@),
                minutes == spec_as_int(c@.progress),
                spec_distinct_groups(gv0),
                spec_groups_day_only(gv0),
                spec_group_total(gv0) + spec_as_int(c@.progress) <= u64::MAX,
                forall|t: int| 0 <= t < j ==> !spec_group_matches(#[trigger] gv0[t], c@),
            decreases n - j,
        {
            proof {
                assert(gv0[j as int].date == groups@[j as int].date);
                assert(gv0[j as int].subject == groups@[j as int].subject@);
            }
            let day = c.date_no_time();
            let same = groups[j].date.same_day(&day) && groups[j].subject.same_subject(c.subject());
            if same {
                proof {
                    assert(gv0[j as int].date.hour == 0 && gv0[j as int].date.minute == 0);
                    assert(gv0[j as int].date == spec_day_of(c@.date));
                    assert(spec_group_matches(gv0[j as int], c@));
                }
                return Self::join_group(groups, c, j, minutes);
            }
            j = j + 1;
        }
        let fresh = Group {
            date: c.date_no_time(),
            subject: c.into_parts().2,
            total: minutes,
            merged: false,
        };
        groups.push(fresh);
        proof {
            assert(!(exists|t: int|
                0 <= t < gv0.len() && spec_group_matches(#[trigger] gv0[t], c@)));
            assert(spec_group_views(groups@) =~= spec_insert_record(gv0, c@));
            lemma_insert_keeps_distinct(gv0, c@);
            assert(spec_group_views(groups@).drop_last() =~= gv0);
        }
    }

    /// Folds one record into the bucket at `j`, which matches its day and
    /// subject.
    fn join_group(groups: &mut Vec<Group>, c: ComplexPixel, j: usize, minutes: u64)
        requires
            j < old(groups)@.len(),
            minutes == spec_as_int(c@.progress),
            spec_group_matches(spec_group_views(old(groups)@)[j as int], c@),
            spec_distinct_groups(spec_group_views(old(groups)@)),
            spec_groups_day_only(spec_group_views(old(groups)@)),
            spec_group_total(spec_group_views(old(groups)@)) + spec_as_int(c@.progress)
                <= u64::MAX,
        ensures
            spec_group_views(final(groups)@) == spec_insert_record(
                spec_group_views(old(groups)@),
                c@,
            ),
            spec_distinct_groups(spec_group_views(final(groups)@)),
            spec_groups_day_only(spec_group_views(final(groups)@)),
            spec_group_total(spec_group_views(final(groups)@)) == spec_group_total(
                spec_group_views(old(groups)@),
            ) + spec_as_int(c@.progress),
    {
        let ghost gv0 = spec_group_views(old(groups)@);
        proof {
            assert(forall|t: int| 0 <= t < gv0.len() ==> (#[trigger] gv0[t]).total >= 0);
            lemma_group_total_bounds(gv0, j as int);
            lemma_group_total_nonneg_all(gv0, j as int);
            let picked = choose|t: int|
                0 <= t < gv0.len() && spec_group_matches(#[trigger] gv0[t], c@);
            assert(gv0[picked].date == gv0[j as int].date && gv0[picked].subject == gv0[
                j as int
            ].subject);
            assert(picked == j as int);
        }
        let old_total = groups[j].total;
        let g = groups.remove(j);
        let updated = Group {
            date: g.date,
            subject: g.subject,
            total: old_total + minutes,
            merged: true,
        };
        groups.insert(j, updated);
        proof {
            assert(groups@ =~= old(groups)@.update(j as int, updated));
            assert(spec_group_views(groups@) =~= spec_insert_record(gv0, c@));
            lemma_insert_keeps_distinct(gv0, c@);
            lemma_update_group_total(gv0, j as int, spec_as_int(c@.progress));
        }
    }
}

/// Every shown value of a record is at least zero, so a prefix of a batch
/// never sums to more than the whole batch.
proof fn lemma_complex_views_sum_prefix(pixels: Seq<Pixel>, i: int)
    requires
        0 <= i <= pixels.len(),
    ensures
        spec_progress_sum(spec_complex_views(pixels.subrange(0, i))) <= spec_progress_sum(
            spec_complex_views(pixels),
        ),
    decreases pixels.len() - i,
{
    if i < pixels.len() {
        lemma_complex_views_sum_prefix(pixels, i + 1);
        let shorter = pixels.subrange(0, i);
        let longer = pixels.subrange(0, i + 1);
        assert(longer.drop_last() =~= shorter);
        assert(longer.last() == pixels[i]);
        lemma_progress_sum_step(spec_complex_views(shorter), longer.last());
        assert(pixels.subrange(0, pixels.len() as int) =~= pixels);
    } else {
        assert(pixels.subrange(0, pixels.len() as int) =~= pixels);
    }
}

/// Appending one record never lowers the sum: a complex record adds its
/// shown value, which is at least zero, and a simple one adds nothing.
proof fn lemma_progress_sum_step(views: Seq<ComplexPixelView>, p: Pixel)
    ensures
        match p@ {
            PixelView::Complex(c) => spec_progress_sum(views + seq![c]) == spec_progress_sum(views)
                + spec_as_int(c.progress),
            PixelView::Simple(_) => true,
        },
        spec_progress_sum(views) <= (match p@ {
            PixelView::Complex(c) => spec_progress_sum(views + seq![c]),
            PixelView::Simple(_) => spec_progress_sum(views),
        }),
{
    match p@ {
        PixelView::Complex(c) => {
            let extended = views + seq![c];
            assert(extended.drop_last() =~= views);
            assert(extended.last() == c);
            lemma_as_int_nonneg(c.progress);
        },
        PixelView::Simple(_) => {},
    }
}

/// The shown value of any progress is at least zero.
proof fn lemma_as_int_nonneg(p: Progress)
    ensures
        spec_as_int(p) >= 0,
{
}

/// A boundedness condition on a batch passes to each of its prefixes.
proof fn lemma_complex_views_bounded(pixels: Seq<Pixel>, i: int)
    requires
        0 <= i <= pixels.len(),
        spec_values_bounded(spec_complex_views(pixels)),
    ensures
        spec_values_bounded(spec_complex_views(pixels.subrange(0, i))),
    decreases pixels.len() - i,
{
    if i < pixels.len() {
        lemma_complex_views_bounded(pixels, i + 1);
        let shorter = spec_complex_views(pixels.subrange(0, i));
        let longer = spec_complex_views(pixels.subrange(0, i + 1));
        assert(pixels.subrange(0, i + 1).drop_last() =~= pixels.subrange(0, i));
        assert forall|t: int| 0 <= t < shorter.len() implies ((#[trigger] shorter[t]).progress
            matches Progress::Float(cc) ==> cc < u64::MAX) by {
            assert(shorter[t] == longer[t]);
        }
    } else {
        assert(pixels.subrange(0, pixels.len() as int) =~= pixels);
    }
}

/// Every bucket holds at most the total over all buckets, since no
/// bucket's sum is negative.
proof fn lemma_group_total_bounds(gs: Seq<GroupView>, i: int)
    requires
        0 <= i < gs.len(),
        forall|t: int| 0 <= t < gs.len() ==> (#[trigger] gs[t]).total >= 0,
    ensures
        gs[i].total <= spec_group_total(gs),
    decreases gs.len(),
{
    if gs.len() > 0 {
        if i == gs.len() - 1 {
            lemma_group_total_nonneg(gs.drop_last());
        } else {
            assert(forall|t: int|
                0 <= t < gs.drop_last().len() ==> (#[trigger] gs.drop_last()[t]).total >= 0);
            lemma_group_total_bounds(gs.drop_last(), i);
        }
    }
}

/// A sum of bucket values that are each at least zero is at least zero.
proof fn lemma_group_total_nonneg(gs: Seq<GroupView>)
    requires
        forall|t: int| 0 <= t < gs.len() ==> (#[trigger] gs[t]).total >= 0,
    ensures
        spec_group_total(gs) >= 0,
    decreases gs.len(),
{
    if gs.len() > 0 {
        assert(forall|t: int|
            0 <= t < gs.drop_last().len() ==> (#[trigger] gs.drop_last()[t]).total >= 0);
        lemma_group_total_nonneg(gs.drop_last());
    }
}

/// Raising one bucket's value raises the total by the same amount.
proof fn lemma_update_group_total(gs: Seq<GroupView>, i: int, v: int)
    requires
        0 <= i < gs.len(),
    ensures
        spec_group_total(
            gs.update(i, GroupView { total: gs[i].total + v, merged: true, ..gs[i] }),
        ) == spec_group_total(gs) + v,
    decreases gs.len(),
{
    let updated = gs.update(i, GroupView { total: gs[i].total + v, merged: true, ..gs[i] });
    if i == gs.len() - 1 {
        assert(updated.drop_last() =~= gs.drop_last());
    } else {
        assert(updated.drop_last() =~= gs.drop_last().update(
            i,
            GroupView {
                total: gs.drop_last()[i].total + v,
                merged: true,
                ..gs.drop_last()[i]
            },
        ));
        lemma_update_group_total(gs.drop_last(), i, v);
        assert(updated.last() == gs.last());
    }
}

/// A helper alias: with every bucket value at least zero, the chosen
/// bucket stays within the whole.
proof fn lemma_group_total_nonneg_all(gs: Seq<GroupView>, i: int)
    requires
        0 <= i < gs.len(),
        forall|t: int| 0 <= t < gs.len() ==> (#[trigger] gs[t]).total >= 0,
    ensures
        0 <= gs[i].total <= spec_group_total(gs),
{
    lemma_group_total_bounds(gs, i);
}

/// Sorting one more record into distinct buckets leaves them distinct:
/// joining a bucket keeps every day and subject, and a new bucket opens
/// only when none matched it.
proof fn lemma_insert_keeps_distinct(gs: Seq<GroupView>, c: ComplexPixelView)
    requires
        spec_distinct_groups(gs),
    ensures
        spec_distinct_groups(spec_insert_record(gs, c)),
{
    let after = spec_insert_record(gs, c);
    if exists|i: int| 0 <= i < gs.len() && spec_group_matches(#[trigger] gs[i], c) {
        assert forall|i: int, j: int| 0 <= i < j < after.len() implies !((#[trigger] after[i]).date
            == (#[trigger] after[j]).date && after[i].subject == after[j].subject) by {
            assert(after[i].date == gs[i].date && after[i].subject == gs[i].subject);
            assert(after[j].date == gs[j].date && after[j].subject == gs[j].subject);
        }
    } else {
        assert forall|i: int, j: int| 0 <= i < j < after.len() implies !((#[trigger] after[i]).date
            == (#[trigger] after[j]).date && after[i].subject == after[j].subject) by {
            if j == after.len() - 1 {
                assert(after[i] == gs[i]);
                assert(!spec_group_matches(gs[i], c));
            } else {
                assert(after[i] == gs[i] && after[j] == gs[j]);
            }
        }
    }
}


/// The records a set of buckets turns back into, in order.
pub open spec fn spec_group_pixels(gs: Seq<GroupView>) -> Seq<ComplexPixelView> {
    Seq::new(gs.len(), |i: int| spec_group_pixel(gs[i]))
}

/// The combined records of a batch: its buckets, rendered back as
/// records.
pub open spec fn spec_combined(s: Seq<ComplexPixelView>) -> Seq<ComplexPixelView> {
    spec_group_pixels(spec_combine_groups(s))
}

/// Sorting one more record into buckets raises their total by exactly
/// that record's shown value.
proof fn lemma_insert_conserves_total(gs: Seq<GroupView>, c: ComplexPixelView)
    ensures
        spec_group_total(spec_insert_record(gs, c)) == spec_group_total(gs) + spec_as_int(
            c.progress,
        ),
{
    if exists|i: int| 0 <= i < gs.len() && spec_group_matches(#[trigger] gs[i], c) {
        let i = choose|i: int| 0 <= i < gs.len() && spec_group_matches(#[trigger] gs[i], c);
        lemma_update_group_total(gs, i, spec_as_int(c.progress));
    } else {
        assert(spec_insert_record(gs, c).drop_last() =~= gs);
    }
}

/// Aggregation conserves the summed progress: the buckets of a batch
/// hold, together, exactly the batch's summed shown value.
pub proof fn lemma_combine_conserves_sum(s: Seq<ComplexPixelView>)
    ensures
        spec_group_total(spec_combine_groups(s)) == spec_progress_sum(s),
    decreases s.len(),
{
    if s.len() > 0 {
        lemma_combine_conserves_sum(s.drop_last());
        lemma_insert_conserves_total(spec_combine_groups(s.drop_last()), s.last());
    }
}

/// The buckets of any batch are pairwise distinct in day and subject,
/// carry bare calendar days, and hold values that are each at least
/// zero.
pub proof fn lemma_combine_well_formed(s: Seq<ComplexPixelView>)
    ensures
        spec_distinct_groups(spec_combine_groups(s)),
        spec_groups_day_only(spec_combine_groups(s)),
        forall|i: int|
            0 <= i < spec_combine_groups(s).len() ==> (#[trigger] spec_combine_groups(
                s,
            )[i]).total >= 0,
    decreases s.len(),
{
    if s.len() > 0 {
        lemma_combine_well_formed(s.drop_last());
        let gs = spec_combine_groups(s.drop_last());
        let c = s.last();
        lemma_insert_keeps_distinct(gs, c);
        lemma_as_int_nonneg(c.progress);
        if exists|i: int| 0 <= i < gs.len() && spec_group_matches(#[trigger] gs[i], c) {
        } else {
            assert(spec_insert_record(gs, c).drop_last() =~= gs);
        }
    }
}

/// Aggregation invents no tag out of thin air: when no incoming record's
/// subject carries the aggregation tag, no bucket's subject does either.
pub proof fn lemma_combine_keeps_names(s: Seq<ComplexPixelView>)
    requires
        forall|i: int|
            0 <= i < s.len() ==> !spec_has_marker((#[trigger] s[i]).subject.graph_name),
    ensures
        forall|i: int|
            0 <= i < spec_combine_groups(s).len() ==> !spec_has_marker(
                (#[trigger] spec_combine_groups(s)[i]).subject.graph_name,
            ),
    decreases s.len(),
{
    if s.len() > 0 {
        assert(forall|i: int|
            0 <= i < s.drop_last().len() ==> !spec_has_marker(
                (#[trigger] s.drop_last()[i]).subject.graph_name,
            )) by {
            assert(forall|i: int| 0 <= i < s.drop_last().len() ==> s.drop_last()[i] == s[i]);
        }
        lemma_combine_keeps_names(s.drop_last());
        let gs = spec_combine_groups(s.drop_last());
        let c = s.last();
        assert(!spec_has_marker(c.subject.graph_name));
        if exists|i: int| 0 <= i < gs.len() && spec_group_matches(#[trigger] gs[i], c) {
        } else {
            let after = spec_insert_record(gs, c);
            assert(forall|i: int| 0 <= i < gs.len() ==> after[i] == gs[i]);
        }
    }
}

/// The tag's own length, and that a tagged name carries the tag.
proof fn lemma_tagged_has_marker(name: Seq<char>)
    ensures
        spec_has_marker("(Aggregated) "@ + name),
        ("(Aggregated) "@ + name).len() == 13 + name.len(),
{
    reveal_strlit("(Aggregated) ");
    reveal_strlit("(Aggregated)");
    let tagged = "(Aggregated) "@ + name;
    assert(tagged.subrange(0, 12) =~= "(Aggregated)"@);
}

/// Tagging is injective on untagged names: two names that agree after
/// tagging agreed before.
proof fn lemma_tag_injective(a: Seq<char>, b: Seq<char>)
    requires
        "(Aggregated) "@ + a == "(Aggregated) "@ + b,
    ensures
        a == b,
{
    reveal_strlit("(Aggregated) ");
    let ta = "(Aggregated) "@ + a;
    let tb = "(Aggregated) "@ + b;
    assert(a =~= ta.subrange(13, ta.len() as int));
    assert(b =~= tb.subrange(13, tb.len() as int));
}

/// Combining a batch of records whose days and subjects are pairwise
/// distinct gives one bucket per record, in order, none of them merged.
proof fn lemma_combine_of_distinct(ps: Seq<ComplexPixelView>)
    requires
        forall|i: int, j: int|
            0 <= i < j < ps.len() ==> !(spec_day_of((#[trigger] ps[i]).date) == spec_day_of(
                (#[trigger] ps[j]).date,
            ) && ps[i].subject == ps[j].subject),
    ensures
        spec_combine_groups(ps) =~= Seq::new(
            ps.len(),
            |i: int|
                GroupView {
                    date: spec_day_of(ps[i].date),
                    subject: ps[i].subject,
                    total: spec_as_int(ps[i].progress),
                    merged: false,
                },
        ),
    decreases ps.len(),
{
    if ps.len() > 0 {
        assert(forall|i: int, j: int|
            0 <= i < j < ps.drop_last().len() ==> !(spec_day_of(
                (#[trigger] ps.drop_last()[i]).date,
            ) == spec_day_of((#[trigger] ps.drop_last()[j]).date) && ps.drop_last()[i].subject
                == ps.drop_last()[j].subject)) by {
            assert(forall|i: int| 0 <= i < ps.drop_last().len() ==> ps.drop_last()[i] == ps[i]);
        }
        lemma_combine_of_distinct(ps.drop_last());
        let gs = spec_combine_groups(ps.drop_last());
        let c = ps.last();
        assert forall|i: int| 0 <= i < gs.len() implies !spec_group_matches(
            #[trigger] gs[i],
            c,
        ) by {
            assert(gs[i].date == spec_day_of(ps[i].date) && gs[i].subject == ps[i].subject);
            assert(!(spec_day_of(ps[i].date) == spec_day_of(c.date) && ps[i].subject == c.subject));
        }
        assert(!(exists|i: int| 0 <= i < gs.len() && spec_group_matches(#[trigger] gs[i], c)));
    }
}

/// The rendered records of well-formed, untagged buckets have pairwise
/// distinct days and subjects: tagging cannot make two different buckets
/// collide.
proof fn lemma_group_pixels_distinct(gs: Seq<GroupView>)
    requires
        spec_distinct_groups(gs),
        spec_groups_day_only(gs),
        forall|i: int| 0 <= i < gs.len() ==> !spec_has_marker((#[trigger] gs[i]).subject.graph_name),
    ensures
        forall|i: int, j: int|
            0 <= i < j < gs.len() ==> !(spec_day_of((#[trigger] spec_group_pixels(gs)[i]).date)
                == spec_day_of((#[trigger] spec_group_pixels(gs)[j]).date) && spec_group_pixels(
                gs,
            )[i].subject == spec_group_pixels(gs)[j].subject),
{
    let ps = spec_group_pixels(gs);
    assert forall|i: int, j: int| 0 <= i < j < gs.len() implies !(spec_day_of(
        (#[trigger] ps[i]).date,
    ) == spec_day_of((#[trigger] ps[j]).date) && ps[i].subject == ps[j].subject) by {
        assert(spec_day_of(ps[i].date) == gs[i].date);
        assert(spec_day_of(ps[j].date) == gs[j].date);
        if gs[i].date == gs[j].date && ps[i].subject == ps[j].subject {
            lemma_tagged_has_marker(gs[i].subject.graph_name);
            lemma_tagged_has_marker(gs[j].subject.graph_name);
            if gs[i].merged && gs[j].merged {
                lemma_tag_injective(gs[i].subject.graph_name, gs[j].subject.graph_name);
                assert(gs[i].subject == gs[j].subject);
            } else if gs[i].merged && !gs[j].merged {
                assert(spec_has_marker(gs[j].subject.graph_name));
            } else if !gs[i].merged && gs[j].merged {
                assert(spec_has_marker(gs[i].subject.graph_name));
            } else {
                assert(gs[i].subject == gs[j].subject);
            }
        }
    }
}

/// Aggregating twice changes nothing: the records that come out of a
/// combination pass through a second combination untouched. Holds for
/// batches whose subjects do not already carry the aggregation tag and
/// whose summed value is machine-representable.
pub proof fn lemma_combine_idempotent(s: Seq<ComplexPixelView>)
    requires
        forall|i: int|
            0 <= i < s.len() ==> !spec_has_marker((#[trigger] s[i]).subject.graph_name),
        spec_progress_sum(s) <= u64::MAX,
    ensures
        spec_combined(spec_combined(s)) =~= spec_combined(s),
{
    let gs = spec_combine_groups(s);
    let once = spec_group_pixels(gs);
    lemma_combine_well_formed(s);
    lemma_combine_keeps_names(s);
    lemma_combine_conserves_sum(s);
    assert forall|i: int| 0 <= i < gs.len() implies 0 <= (#[trigger] gs[i]).total
        <= u64::MAX by {
        lemma_group_total_bounds(gs, i);
        assert(spec_group_total(gs) == spec_progress_sum(s));
    }
    lemma_group_pixels_distinct(gs);
    lemma_combine_of_distinct(once);
    let singles = spec_combine_groups(once);
    assert forall|i: int| 0 <= i < singles.len() implies #[trigger] spec_group_pixels(singles)[i]
        == once[i] by {
        assert(singles[i] == GroupView {
            date: spec_day_of(once[i].date),
            subject: once[i].subject,
            total: spec_as_int(once[i].progress),
            merged: false,
        });
        assert(spec_day_of(once[i].date) == gs[i].date);
        assert(spec_as_int(once[i].progress) == gs[i].total);
    }
}

} // verus!
