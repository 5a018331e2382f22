//! The download engine: what to do next while an asset streams to disk, and
//! how far the download has come.
//!
//! The embedding program performs the transfer. It reports each thing that
//! happened as a [`DownloadEvent`]; [`Download::step`] keeps the count and
//! answers with the [`DownloadAction`] to take. An observer reads
//! [`Download::progress`] at any time.

use vstd::prelude::*;

verus! {

/// Why a download was given up.
#[derive(Clone, Copy, Debug, PartialEq, Eq, Structural)]
pub enum DownloadError {
    /// The connection failed, before or during the transfer.
    Transport,
    /// The server answered with a status that is no success.
    Status,
    /// The destination could not be opened or written.
    Io,
}

/// Where a download stands.
#[derive(Clone, Copy, Debug, PartialEq, Eq, Structural)]
pub enum Phase {
    /// The request is out; no response has arrived.
    Requested,
    /// The response arrived; the destination is not open yet.
    Opening,
    /// The destination is open; the body is being written chunk by chunk.
    Receiving,
    /// The whole body was written.
    Complete,
    /// The download was given up.
    Failed(DownloadError),
}

/// What happened in the transfer.
#[derive(Clone, Copy, Debug, PartialEq, Eq, Structural)]
pub enum DownloadEvent {
    /// A response with a success status arrived, with the content length
    /// where the server declared one.
    Response { content_length: Option<u64> },
    /// The destination was opened for writing.
    Opened,
    /// A chunk of `len` bytes was written to the destination.
    Chunk { len: u64 },
    /// The body ended.
    End,
    /// The transfer or the destination failed.
    Failure(DownloadError),
}

/// What the embedding program is to do next.
#[derive(Clone, Copy, Debug, PartialEq, Eq, Structural)]
pub enum DownloadAction {
    /// Open the destination for writing, truncating what is there, before
    /// any of the body is read.
    OpenDestination,
    /// Read the next chunk and write it.
    ReadNext,
    /// Return success.
    Succeed,
    /// Stop, leave the destination as it is, and return the error.
    Abort(DownloadError),
    /// The event does not belong to this phase; do nothing.
    Ignore,
}

/// How far a download has come.
#[derive(Clone, Copy, Debug, PartialEq, Eq, Structural)]
pub enum Progress {
    /// The server declared no size. Observers show this as a fraction of 0.
    Indeterminate,
    /// `done` bytes of `of`, with `done <= of` and `of > 0`.
    Fraction { done: u64, of: u64 },
}

impl Progress {
    /// The numerator of the fraction; an indeterminate progress counts as 0.
    pub open spec fn done(self) -> int {
        match self {
            Progress::Indeterminate => 0,
            Progress::Fraction { done, of } => done as int,
        }
    }

    /// The denominator of the fraction; an indeterminate progress counts as
    /// 0 of 1.
    pub open spec fn of(self) -> int {
        match self {
            Progress::Indeterminate => 1,
            Progress::Fraction { done, of } => of as int,
        }
    }

    /// The fraction lies between 0 and 1.
    pub open spec fn wf(self) -> bool {
        0 <= self.done() <= self.of() && self.of() > 0
    }

    /// The fraction is 0.
    pub open spec fn is_zero(self) -> bool {
        self.done() == 0
    }

    /// The fraction is exactly 1.
    pub open spec fn is_one(self) -> bool {
        self.done() == self.of()
    }

    /// The fraction of `self` is at most that of `later`.
    pub open spec fn le(self, later: Progress) -> bool {
        self.done() * later.of() <= later.done() * self.of()
    }

    /// Returns the numerator and the denominator of the fraction, for an
    /// observer to divide. An indeterminate progress gives 0 of 1.
    pub fn parts(self) -> (r: (u64, u64))
        ensures
            r.0 == self.done(),
            r.1 == self.of(),
    {
        match self {
            Progress::Indeterminate => (0, 1),
            Progress::Fraction { done, of } => (done, of),
        }
    }
}

/// One download attempt: its phase, the declared size (0 where the server
/// declared none) and the bytes written so far.
#[derive(Clone, Copy, Debug, PartialEq, Eq, Structural)]
pub struct Download {
    pub phase: Phase,
    pub total: u64,
    pub written: u64,
}

impl Download {
    /// The attempt in another phase.
    pub open spec fn in_phase(self, phase: Phase) -> Download {
        Download { phase, total: self.total, written: self.written }
    }

    /// The attempt after `event`, and the action to take. The count of
    /// bytes written stops at `u64::MAX`.
    pub open spec fn step_spec(self, event: DownloadEvent) -> (Download, DownloadAction) {
        match self.phase {
            Phase::Requested => match event {
                DownloadEvent::Response { content_length } => (
                    Download {
                        phase: Phase::Opening,
                        total: match content_length {
                            Some(n) => n,
                            None => 0,
                        },
                        written: 0,
                    },
                    DownloadAction::OpenDestination,
                ),
                DownloadEvent::Failure(e) => (
                    self.in_phase(Phase::Failed(e)),
                    DownloadAction::Abort(e),
                ),
                _ => (self, DownloadAction::Ignore),
            },
            Phase::Opening => match event {
                DownloadEvent::Opened => (self.in_phase(Phase::Receiving), DownloadAction::ReadNext),
                DownloadEvent::Failure(e) => (
                    self.in_phase(Phase::Failed(e)),
                    DownloadAction::Abort(e),
                ),
                _ => (self, DownloadAction::Ignore),
            },
            Phase::Receiving => match event {
                DownloadEvent::Chunk { len } => (
                    Download {
                        phase: Phase::Receiving,
                        total: self.total,
                        written: self.written.saturating_add(len),
                    },
                    DownloadAction::ReadNext,
                ),
                DownloadEvent::End => (self.in_phase(Phase::Complete), DownloadAction::Succeed),
                DownloadEvent::Failure(e) => (
                    self.in_phase(Phase::Failed(e)),
                    DownloadAction::Abort(e),
                ),
                _ => (self, DownloadAction::Ignore),
            },
            _ => (self, DownloadAction::Ignore),
        }
    }

    /// What an observer reads: 0 before the response, exactly 1 once
    /// complete, otherwise the bytes written over the declared size, capped
    /// at 1, or indeterminate where no size was declared. A failed attempt
    /// keeps the value it had reached.
    pub open spec fn progress_spec(self) -> Progress {
        match self.phase {
            Phase::Requested => Progress::Fraction { done: 0, of: 1 },
            Phase::Complete => Progress::Fraction { done: 1, of: 1 },
            _ => if self.total == 0 {
                Progress::Indeterminate
            } else {
                Progress::Fraction {
                    done: if self.written <= self.total {
                        self.written
                    } else {
                        self.total
                    },
                    of: self.total,
                }
            },
        }
    }

    /// The attempt after all of `events`, in order.
    pub open spec fn after(self, events: Seq<DownloadEvent>) -> Download
        decreases events.len(),
    {
        if events.len() == 0 {
            self
        } else {
            self.step_spec(events[0]).0.after(events.drop_first())
        }
    }

    /// Begins an attempt: the request is out, nothing is written, progress
    /// is 0.
    pub fn begin() -> (d: Download)
        ensures
            d == (Download { phase: Phase::Requested, total: 0, written: 0 }),
            d.progress_spec().is_zero(),
    {
        Download { phase: Phase::Requested, total: 0, written: 0 }
    }

    /// Takes note of `event` and returns the action to take.
    pub fn step(&mut self, event: DownloadEvent) -> (action: DownloadAction)
        ensures
            (*final(self), action) == old(self).step_spec(event),
    {
        match self.phase {
            Phase::Requested => match event {
                DownloadEvent::Response { content_length } => {
                    self.phase = Phase::Opening;
                    self.total = match content_length {
                        Some(n) => n,
                        None => 0,
                    };
                    self.written = 0;
                    DownloadAction::OpenDestination
                },
                DownloadEvent::Failure(e) => {
                    self.phase = Phase::Failed(e);
                    DownloadAction::Abort(e)
                },
                _ => DownloadAction::Ignore,
            },
            Phase::Opening => match event {
                DownloadEvent::Opened => {
                    self.phase = Phase::Receiving;
                    DownloadAction::ReadNext
                },
                DownloadEvent::Failure(e) => {
                    self.phase = Phase::Failed(e);
                    DownloadAction::Abort(e)
                },
                _ => DownloadAction::Ignore,
            },
            Phase::Receiving => match event {
                DownloadEvent::Chunk { len } => {
                    self.written = self.written.saturating_add(len);
                    DownloadAction::ReadNext
                },
                DownloadEvent::End => {
                    self.phase = Phase::Complete;
                    DownloadAction::Succeed
                },
                DownloadEvent::Failure(e) => {
                    self.phase = Phase::Failed(e);
                    DownloadAction::Abort(e)
                },
                _ => DownloadAction::Ignore,
            },
            _ => DownloadAction::Ignore,
        }
    }

    /// Returns the progress an observer is to show.
    pub fn progress(&self) -> (p: Progress)
        ensures
            p == self.progress_spec(),
            p.wf(),
    {
        match self.phase {
            Phase::Requested => Progress::Fraction { done: 0, of: 1 },
            Phase::Complete => Progress::Fraction { done: 1, of: 1 },
            _ => if self.total == 0 {
                Progress::Indeterminate
            } else if self.written <= self.total {
                Progress::Fraction { done: self.written, of: self.total }
            } else {
                Progress::Fraction { done: self.total, of: self.total }
            },
        }
    }

    /// Returns how the attempt ended, or `None` while it is under way.
    pub fn outcome(&self) -> (r: Option<Result<(), DownloadError>>)
        ensures
            r == match self.phase {
                Phase::Complete => Some(Ok::<(), DownloadError>(())),
                Phase::Failed(e) => Some(Err::<(), DownloadError>(e)),
                _ => None::<Result<(), DownloadError>>,
            },
    {
        match self.phase {
            Phase::Complete => Some(Ok(())),
            Phase::Failed(e) => Some(Err(e)),
            _ => None,
        }
    }
}

/// The progress of every attempt is a fraction between 0 and 1.
pub proof fn lemma_progress_in_range(d: Download)
    ensures
        d.progress_spec().wf(),
{
}

/// Between fractions with positive denominators, `le` is transitive.
pub proof fn lemma_le_transitive(a: Progress, b: Progress, c: Progress)
    requires
        a.wf(),
        b.wf(),
        c.wf(),
        a.le(b),
        b.le(c),
    ensures
        a.le(c),
{
    let an: int = a.done();
    let ad: int = a.of();
    let bn: int = b.done();
    let bd: int = b.of();
    let cn: int = c.done();
    let cd: int = c.of();
    assert(an * cd <= cn * ad) by (nonlinear_arith)
        requires
            an * bd <= bn * ad,
            bn * cd <= cn * bd,
            0 <= an,
            0 <= bn,
            0 <= cn,
            ad > 0,
            bd > 0,
            cd > 0,
    {
        assert(an * bd * cd <= bn * ad * cd);
        assert(bn * cd * ad <= cn * bd * ad);
        assert(bn * ad * cd == bn * cd * ad);
        assert(an * cd * bd == an * bd * cd);
        assert(cn * ad * bd == cn * bd * ad);
        assert(an * cd * bd <= cn * ad * bd);
    }
}

/// No event makes the progress go back.
pub proof fn lemma_step_never_goes_back(d: Download, event: DownloadEvent)
    ensures
        d.progress_spec().le(d.step_spec(event).0.progress_spec()),
{
    let next = d.step_spec(event).0;
    let p = d.progress_spec();
    let q = next.progress_spec();
    if next != d {
        match d.phase {
            Phase::Receiving => {
                if d.total > 0 {
                    assert(p.done() * q.of() <= q.done() * p.of()) by (nonlinear_arith)
                        requires
                            (p.of() == q.of() && p.done() <= q.done() && 0 < p.of())
                            || (q.done() == 1 && q.of() == 1 && p.done() <= p.of()),
                    ;
                }
            },
            _ => {},
        }
    }
}

/// Over the whole life of an attempt, whatever the events, the progress
/// never goes back.
pub proof fn lemma_progress_monotone(d: Download, events: Seq<DownloadEvent>)
    ensures
        d.progress_spec().le(d.after(events).progress_spec()),
    decreases events.len(),
{
    if events.len() > 0 {
        let next = d.step_spec(events[0]).0;
        lemma_step_never_goes_back(d, events[0]);
        lemma_progress_monotone(next, events.drop_first());
        lemma_le_transitive(
            d.progress_spec(),
            next.progress_spec(),
            d.after(events).progress_spec(),
        );
    }
}

/// A step that reports success leaves the progress at exactly 1, and only
/// the end of the body, while receiving, reports success.
pub proof fn lemma_success_is_complete(d: Download, event: DownloadEvent)
    ensures
        d.step_spec(event).1 == DownloadAction::Succeed <==> (d.phase == Phase::Receiving && event
            == DownloadEvent::End),
        d.step_spec(event).1 == DownloadAction::Succeed ==> d.step_spec(
            event,
        ).0.progress_spec().is_one(),
{
}

/// The destination is opened before any of the body is read: it is opened
/// on the response and on nothing else, and a chunk is asked for only when
/// the destination has just been opened or a chunk was written to it.
pub proof fn lemma_destination_opens_first(d: Download, event: DownloadEvent)
    ensures
        d.step_spec(event).1 == DownloadAction::OpenDestination <==> (d.phase == Phase::Requested
            && event is Response),
        d.step_spec(event).1 == DownloadAction::ReadNext <==> ((d.phase == Phase::Opening && event
            == DownloadEvent::Opened) || (d.phase == Phase::Receiving && event is Chunk)),
        d.step_spec(event).0.phase == Phase::Receiving ==> (d.phase == Phase::Receiving || (d.phase
            == Phase::Opening && event == DownloadEvent::Opened)),
{
}

/// A failure once the response has arrived leaves the progress at the value
/// it had reached.
pub proof fn lemma_failure_keeps_progress(d: Download, e: DownloadError)
    requires
        d.phase == Phase::Opening || d.phase == Phase::Receiving,
    ensures
        d.step_spec(DownloadEvent::Failure(e)).0.progress_spec() == d.progress_spec(),
        d.step_spec(DownloadEvent::Failure(e)).1 == DownloadAction::Abort(e),
{
}

} // verus!
