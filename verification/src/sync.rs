//! The upload session of the sync engine. A batch of records is drained
//! from a pool; every response is classified as resolved, retryable or
//! fatal, and the session's books guarantee that a record is never both
//! confirmed and kept, and never lost: a retryable answer puts the record
//! back in the pool, a fatal one moves it to the unresolved list that the
//! caller must absorb back into local storage.
//!
//! The network calls, the bounded fan-out and the backoff sleep are
//! plumbing outside this crate; they drain the pool through
//! [`SendSession::next_pending`] and report back through
//! [`SendSession::record_result`].

use vstd::prelude::*;
use vstd::seq_lib::group_seq_properties;

use crate::error::{Error, FatalError, PixelaResponseError};
use crate::pixel::{ComplexPixel, Pixel};

verus! {

/// The remote service's answer body for one request.
#[derive(Debug, Clone)]
pub struct PixelaResponse {
    pub is_success: bool,
    pub is_rejected: Option<bool>,
    pub message: String,
}

/// The remote service's stored quantity for one day, as text.
#[derive(Debug, Clone)]
pub struct PixelaValue {
    quantity: String,
}

impl PixelaValue {
    /// A stored quantity as the service sent it.
    pub fn new(quantity: String) -> (r: PixelaValue)
        ensures
            r@ == quantity@,
    {
        PixelaValue { quantity }
    }

    /// The quantity text.
    pub fn quantity(&self) -> (r: &str)
        ensures
            r@ == self@,
    {
        self.quantity.as_str()
    }
}

impl View for PixelaValue {
    type V = Seq<char>;

    closed spec fn view(&self) -> Seq<char> {
        self.quantity@
    }
}

/// Classifies one HTTP answer: a success status is accepted, the server
/// being busy or failing (503 or 500) is a retryable error, and any other
/// status is fatal, with the answer's body kept as the message.
pub fn classify_response(status: u16, body: String) -> (r: Result<(), Error>)
    ensures
        (200 <= status < 300) <==> r is Ok,
        !(200 <= status < 300) && (status == 503 || status == 500) ==> (r matches Err(
            Error::PixelaResponseError(PixelaResponseError::RetryableError(m, code)),
        ) && m@ == "Server is busy"@ && code == status),
        !(200 <= status < 300) && !(status == 503 || status == 500) ==> (r matches Err(
            Error::PixelaResponseError(PixelaResponseError::FatalError(m, code)),
        ) && m@ == "Request denied: "@ + body@ && code == status),
{
    if 200 <= status && status < 300 {
        Ok(())
    } else if status == 503 || status == 500 {
        Err(
            Error::PixelaResponseError(
                PixelaResponseError::RetryableError(String::from_str("Server is busy"), status),
            ),
        )
    } else {
        Err(
            Error::PixelaResponseError(
                PixelaResponseError::FatalError(
                    String::from_str("Request denied: ").concat(body.as_str()),
                    status,
                ),
            ),
        )
    }
}

/// The per-record result of one upload attempt.
#[derive(Debug)]
pub enum UploadOutcome {
    /// The record was confirmed remotely.
    Resolved,
    /// A transient failure: attempt the record again after a short pause.
    RetryAfterBackoff,
    /// A final failure; the record must be kept locally.
    Fatal(FatalError),
}

/// Mathematical image of a [`SendSession`].
pub ghost struct SendSessionModel {
    pub pool: Seq<ComplexPixel>,
    pub resolved: Seq<Pixel>,
    pub unresolved: Seq<Pixel>,
    pub errors: Seq<FatalError>,
}

/// The session after one recorded outcome: success appends to the
/// resolved list, a retryable failure puts the record back in the pool,
/// and a fatal failure appends the record to the unresolved list and
/// books its error.
pub open spec fn spec_record_outcome(
    m: SendSessionModel,
    pixel: ComplexPixel,
    outcome: UploadOutcome,
) -> SendSessionModel {
    match outcome {
        UploadOutcome::Resolved => SendSessionModel {
            resolved: m.resolved.push(Pixel::Complex(pixel)),
            ..m
        },
        UploadOutcome::RetryAfterBackoff => SendSessionModel { pool: m.pool.push(pixel), ..m },
        UploadOutcome::Fatal(e) => SendSessionModel {
            unresolved: m.unresolved.push(Pixel::Complex(pixel)),
            errors: m.errors.push(e),
            ..m
        },
    }
}

/// The session after a whole run of recorded outcomes, in order.
pub open spec fn spec_session_run(
    m: SendSessionModel,
    events: Seq<(ComplexPixel, UploadOutcome)>,
) -> SendSessionModel
    decreases events.len(),
{
    if events.len() == 0 {
        m
    } else {
        spec_record_outcome(
            spec_session_run(m, events.drop_last()),
            events.last().0,
            events.last().1,
        )
    }
}

/// The uploadable records among a batch, in their order.
pub open spec fn spec_complex_of(pixels: Seq<Pixel>) -> Seq<ComplexPixel>
    decreases pixels.len(),
{
    if pixels.len() == 0 {
        Seq::empty()
    } else {
        spec_complex_of(pixels.drop_last()) + (match pixels.last() {
            Pixel::Complex(c) => seq![c],
            Pixel::Simple(_) => Seq::empty(),
        })
    }
}

/// One batch upload in progress: the records still to be attempted, those
/// confirmed, those given up on, and the fatal errors met.
#[derive(Debug)]
pub struct SendSession {
    pool: Vec<ComplexPixel>,
    resolved: Vec<Pixel>,
    unresolved: Vec<Pixel>,
    errors: Vec<FatalError>,
}

impl View for SendSession {
    type V = SendSessionModel;

    closed spec fn view(&self) -> SendSessionModel {
        SendSessionModel {
            pool: self.pool@,
            resolved: self.resolved@,
            unresolved: self.unresolved@,
            errors: self.errors@,
        }
    }
}

impl SendSession {
    /// Opens a session over a batch: the uploadable records fill the
    /// pool, local-only records are left out — they are never uploaded.
    pub fn new(pixels: Vec<Pixel>) -> (s: SendSession)
        ensures
            s@.pool == spec_complex_of(pixels@),
            s@.resolved.len() == 0,
            s@.unresolved.len() == 0,
            s@.errors.len() == 0,
    {
        let ghost orig = pixels@;
        let mut rest = pixels;
        let total = rest.len();
        let mut pool: Vec<ComplexPixel> = Vec::new();
        let mut i: usize = 0;
        while rest.len() > 0
            invariant
                i + rest@.len() == orig.len(),
                orig.len() == total,
                rest@ =~= orig.subrange(i as int, orig.len() as int),
                pool@ == spec_complex_of(orig.subrange(0, i as int)),
            decreases rest@.len(),
        {
            proof {
                let pre = orig.subrange(0, i + 1);
                assert(pre.drop_last() =~= orig.subrange(0, i as int));
                assert(pre.last() == orig[i as int]);
                assert(rest@[0] == orig[i as int]);
            }
            let p = rest.remove(0);
            match p {
                Pixel::Complex(c) => {
                    pool.push(c);
                    proof {
                        assert(pool@ =~= spec_complex_of(orig.subrange(0, i + 1)));
                    }
                },
                Pixel::Simple(_) => {
                    proof {
                        assert(pool@ =~= spec_complex_of(orig.subrange(0, i + 1)));
                    }
                },
            }
            i = i + 1;
        }
        proof {
            assert(orig.subrange(0, orig.len() as int) =~= orig);
        }
        SendSession { pool, resolved: Vec::new(), unresolved: Vec::new(), errors: Vec::new() }
    }

    /// Whether every record has been settled: nothing waits in the pool.
    pub fn is_done(&self) -> (r: bool)
        ensures
            r == (self@.pool.len() == 0),
    {
        self.pool.len() == 0
    }

    /// How many records still wait to be attempted.
    pub fn pending_count(&self) -> (r: usize)
        ensures
            r == self@.pool.len(),
    {
        self.pool.len()
    }

    /// Takes one record from the pool for an upload attempt; nothing is
    /// handed out once the pool is empty.
    pub fn next_pending(&mut self) -> (r: Option<ComplexPixel>)
        ensures
            old(self)@.pool.len() == 0 ==> r is None && final(self)@ == old(self)@,
            old(self)@.pool.len() > 0 ==> r == Some(old(self)@.pool.last()) && final(self)@
                == (SendSessionModel { pool: old(self)@.pool.drop_last(), ..old(self)@ }),
    {
        self.pool.pop()
    }

    /// Books the outcome of one attempt: success appends to the resolved
    /// list, a retryable failure puts the record back in the pool for the
    /// next round, and a fatal failure appends the record to the
    /// unresolved list and books its error. No outcome ever discards a
    /// record.
    pub fn record_outcome(&mut self, pixel: ComplexPixel, outcome: UploadOutcome)
        ensures
            final(self)@ == spec_record_outcome(old(self)@, pixel, outcome),
    {
        match outcome {
            UploadOutcome::Resolved => {
                self.resolved.push(Pixel::Complex(pixel));
            },
            UploadOutcome::RetryAfterBackoff => {
                self.pool.push(pixel);
            },
            UploadOutcome::Fatal(e) => {
                self.unresolved.push(Pixel::Complex(pixel));
                self.errors.push(e);
            },
        }
    }

    /// Books the result of one attempt as the engine classifies it: a
    /// retryable error sends the record back to the pool, a fatal remote
    /// answer books it with its status, and any other failure books it
    /// with its message under the catch-all teapot status the engine uses
    /// for failures that never reached the service.
    pub fn record_result(&mut self, pixel: ComplexPixel, result: Result<(), Error>)
        ensures
            match result {
                Ok(_) => final(self)@ == spec_record_outcome(
                    old(self)@,
                    pixel,
                    UploadOutcome::Resolved,
                ),
                Err(e) => if e matches Error::PixelaResponseError(
                    PixelaResponseError::RetryableError(_, _),
                ) {
                    final(self)@ == spec_record_outcome(
                        old(self)@,
                        pixel,
                        UploadOutcome::RetryAfterBackoff,
                    )
                } else {
                    &&& final(self)@.pool == old(self)@.pool
                    &&& final(self)@.resolved == old(self)@.resolved
                    &&& final(self)@.unresolved == old(self)@.unresolved.push(
                        Pixel::Complex(pixel),
                    )
                    &&& final(self)@.errors.len() == old(self)@.errors.len() + 1
                    &&& final(self)@.errors.drop_last() == old(self)@.errors
                    &&& (match e {
                        Error::PixelaResponseError(PixelaResponseError::FatalError(m, code)) => {
                            &&& final(self)@.errors.last().message == m
                            &&& final(self)@.errors.last().code == code
                        },
                        _ => {
                            &&& final(self)@.errors.last().message@
                                == crate::error::spec_error_message(e)
                            &&& final(self)@.errors.last().code == 418
                        },
                    })
                },
            },
    {
        match result {
            Ok(_) => self.record_outcome(pixel, UploadOutcome::Resolved),
            Err(err) => {
                match err {
                    Error::PixelaResponseError(PixelaResponseError::RetryableError(_, _)) => {
                        self.record_outcome(pixel, UploadOutcome::RetryAfterBackoff);
                    },
                    Error::PixelaResponseError(PixelaResponseError::FatalError(message, code)) => {
                        self.record_outcome(
                            pixel,
                            UploadOutcome::Fatal(FatalError::new(message, code)),
                        );
                    },
                    other => {
                        let message = other.message();
                        self.record_outcome(
                            pixel,
                            UploadOutcome::Fatal(FatalError::new(message, 418)),
                        );
                    },
                }
            },
        }
    }

    /// Closes the session. With no fatal error booked, the confirmed
    /// records are returned; otherwise the whole operation fails,
    /// carrying both the errors and every unresolved record, so that the
    /// caller can put them back into local storage.
    pub fn finish(self) -> (r: Result<Vec<Pixel>, Error>)
        requires
            self@.pool.len() == 0,
        ensures
            match r {
                Ok(v) => self@.errors.len() == 0 && v@ == self@.resolved,
                Err(e) => self@.errors.len() > 0 && (e matches Error::PixelaResponseError(
                    PixelaResponseError::FatalSendingPixelsError { errors, pixels },
                ) && errors@ == self@.errors && pixels@ == self@.unresolved),
            },
    {
        if self.errors.is_empty() {
            Ok(self.resolved)
        } else {
            Err(
                Error::PixelaResponseError(
                    PixelaResponseError::FatalSendingPixelsError {
                        errors: self.errors,
                        pixels: self.unresolved,
                    },
                ),
            )
        }
    }
}

/// A batch in which every attempt ends fatally confirms nothing: the
/// resolved list stays as it was, and the unresolved list grows by
/// exactly one record per attempt.
pub proof fn lemma_fatal_batch(m: SendSessionModel, events: Seq<(ComplexPixel, UploadOutcome)>)
    requires
        forall|i: int| 0 <= i < events.len() ==> (#[trigger] events[i]).1 is Fatal,
    ensures
        spec_session_run(m, events).resolved == m.resolved,
        spec_session_run(m, events).unresolved.len() == m.unresolved.len() + events.len(),
    decreases events.len(),
{
    if events.len() > 0 {
        assert forall|i: int| 0 <= i < events.drop_last().len() implies (#[trigger] events.drop_last()[i]).1
            is Fatal by {
            assert(events.drop_last()[i] == events[i]);
        }
        lemma_fatal_batch(m, events.drop_last());
        assert(events.last().1 is Fatal);
    }
}

/// A record answered with a retryable failure goes back into the pool,
/// and once a later attempt of it succeeds, the record ends among the
/// resolved records — not the unresolved ones.
pub proof fn lemma_retry_then_success(
    m: SendSessionModel,
    events: Seq<(ComplexPixel, UploadOutcome)>,
    j: int,
    k: int,
    a: ComplexPixel,
)
    requires
        0 <= j < k < events.len(),
        events[j] == (a, UploadOutcome::RetryAfterBackoff),
        events[k] == (a, UploadOutcome::Resolved),
    ensures
        spec_session_run(m, events).resolved.contains(Pixel::Complex(a)),
{
    lemma_success_stays_resolved(m, events, k, a);
}

/// Any record whose attempt is ever answered with success ends among the
/// resolved records, whatever else the session books afterwards.
pub proof fn lemma_success_stays_resolved(
    m: SendSessionModel,
    events: Seq<(ComplexPixel, UploadOutcome)>,
    k: int,
    a: ComplexPixel,
)
    requires
        0 <= k < events.len(),
        events[k] == (a, UploadOutcome::Resolved),
    ensures
        spec_session_run(m, events).resolved.contains(Pixel::Complex(a)),
    decreases events.len(),
{
    broadcast use group_seq_properties;

    let before = spec_session_run(m, events.drop_last());
    if k == events.len() - 1 {
        assert(spec_session_run(m, events).resolved == before.resolved.push(Pixel::Complex(a)));
        assert(spec_session_run(m, events).resolved.last() == Pixel::Complex(a));
    } else {
        assert(events.drop_last()[k] == events[k]);
        lemma_success_stays_resolved(m, events.drop_last(), k, a);
        let i = choose|i: int|
            0 <= i < before.resolved.len() && before.resolved[i] == Pixel::Complex(a);
        assert(spec_session_run(m, events).resolved[i] == Pixel::Complex(a));
    }
}

/// The records a batch holds, counted with multiplicity: those still in
/// the pool, those resolved and those unresolved.
pub open spec fn spec_session_records(m: SendSessionModel) -> vstd::multiset::Multiset<Pixel> {
    m.pool.map_values(|c: ComplexPixel| Pixel::Complex(c)).to_multiset().add(
        m.resolved.to_multiset(),
    ).add(m.unresolved.to_multiset())
}

/// No run of outcomes ever loses a record: after any sequence of booked
/// attempts, the session holds every record it held before, plus each
/// attempted record, in the pool or in one of the two settled lists.
pub proof fn lemma_no_record_lost(m: SendSessionModel, events: Seq<(ComplexPixel, UploadOutcome)>)
    ensures
        spec_session_records(spec_session_run(m, events)) =~= spec_session_records(m).add(
            events.map_values(|e: (ComplexPixel, UploadOutcome)| Pixel::Complex(e.0)).to_multiset(),
        ),
    decreases events.len(),
{
    broadcast use vstd::seq_lib::group_to_multiset_ensures;

    if events.len() == 0 {
        assert(events.map_values(
            |e: (ComplexPixel, UploadOutcome)| Pixel::Complex(e.0),
        ).to_multiset() =~= vstd::multiset::Multiset::<Pixel>::empty());
    } else {
        lemma_no_record_lost(m, events.drop_last());
        let before = spec_session_run(m, events.drop_last());
        let after = spec_session_run(m, events);
        let p = events.last().0;
        assert(spec_session_records(after) =~= spec_session_records(before).insert(
            Pixel::Complex(p),
        )) by {
            match events.last().1 {
                UploadOutcome::Resolved => {
                    assert(after.resolved.to_multiset() =~= before.resolved.to_multiset().insert(
                        Pixel::Complex(p),
                    ));
                },
                UploadOutcome::RetryAfterBackoff => {
                    assert(after.pool.map_values(|c: ComplexPixel| Pixel::Complex(c))
                        =~= before.pool.map_values(|c: ComplexPixel| Pixel::Complex(c)).push(
                        Pixel::Complex(p),
                    ));
                },
                UploadOutcome::Fatal(_) => {
                    assert(after.unresolved.to_multiset()
                        =~= before.unresolved.to_multiset().insert(Pixel::Complex(p)));
                },
            }
        }
        let f = |e: (ComplexPixel, UploadOutcome)| Pixel::Complex(e.0);
        assert(events.map_values(f) =~= events.drop_last().map_values(f).push(Pixel::Complex(p)));
        assert(events.map_values(f).to_multiset() =~= events.drop_last().map_values(
            f,
        ).to_multiset().insert(Pixel::Complex(p)));
    }
}

} // verus!
