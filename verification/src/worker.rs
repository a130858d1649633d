//! The per-file worker: a debounce/completion state machine. The surrounding
//! process waits on the worker's channel with a timeout, performs recognition,
//! the artifact write and the relocation, and feeds each result back in; every
//! decision about what happens next is taken here.

use vstd::prelude::*;

use crate::event::DocEvent;

verus! {

/// Which of the three ordered processing steps failed. The steps are evaluated
/// in this order and short-circuit on the first failure.
#[derive(Debug, Clone, Copy, PartialEq, Eq, Structural)]
pub enum StepFailure {
    /// Recognition failed or returned empty text.
    Recognition,
    /// The artifact could not be written, or was empty after the write.
    ArtifactWrite,
    /// The original file could not be moved to the destination.
    Relocate,
}

/// The worker's position in its state machine. `Writing` carries the
/// recognized text: exactly the content the artifact file must receive.
#[derive(Debug, Clone, PartialEq, Eq)]
pub enum Phase {
    /// Waiting for the upload to go quiet; each chunk slides the deadline.
    Accumulating,
    /// The upload went quiet; recognition is to be invoked once.
    Recognizing,
    /// Recognition returned this non-empty text; it is to be written out.
    Writing(String),
    /// The artifact was written and verified non-empty; the original file is
    /// to be moved to the destination.
    Relocating,
    /// All three steps succeeded.
    Done,
    /// One of the steps failed; nothing done so far is rolled back.
    Failed(StepFailure),
}

/// One in-flight file: its path, the configured quiet period, the sliding
/// debounce deadline (meaningful while accumulating), and the current phase.
/// Times and durations are in milliseconds.
pub struct Worker {
    pub path: String,
    pub quiet_period: u64,
    pub deadline: u64,
    pub phase: Phase,
}

impl Worker {
    /// True in `Done` and `Failed`, the two phases a worker never leaves.
    pub open spec fn is_terminal(self) -> bool {
        self.phase == Phase::Done || self.phase is Failed
    }

    /// The state after a chunk signal at time `now`: still accumulating, with
    /// the deadline slid forward to `now + quiet_period`.
    pub open spec fn spec_on_chunk(self, now: u64) -> Worker {
        Worker { deadline: (now + self.quiet_period) as u64, ..self }
    }

    /// A worker that starts accumulating at time `now`.
    pub fn new(path: String, quiet_period: u64, now: u64) -> (w: Worker)
        requires
            now + quiet_period <= u64::MAX,
        ensures
            w.path == path,
            w.quiet_period == quiet_period,
            w.deadline == now + quiet_period,
            w.phase == Phase::Accumulating,
    {
        Worker { path, quiet_period, deadline: now + quiet_period, phase: Phase::Accumulating }
    }

    /// A chunk arrived at time `now` while accumulating: the upload is still
    /// in progress, so the debounce deadline slides to `now + quiet_period`.
    pub fn on_chunk(&mut self, now: u64)
        requires
            old(self).phase == Phase::Accumulating,
            now + old(self).quiet_period <= u64::MAX,
        ensures
            *final(self) == old(self).spec_on_chunk(now),
            final(self).phase == Phase::Accumulating,
            final(self).deadline == now + old(self).quiet_period,
            final(self).path == old(self).path,
            final(self).quiet_period == old(self).quiet_period,
    {
        self.deadline = now + self.quiet_period;
    }

    /// The wait timed out at time `now`, at or past the deadline: the upload
    /// is considered complete, and recognition is to be invoked.
    pub fn on_timeout(&mut self, now: u64)
        requires
            old(self).phase == Phase::Accumulating,
            now >= old(self).deadline,
        ensures
            final(self).phase == Phase::Recognizing,
            final(self).path == old(self).path,
            final(self).quiet_period == old(self).quiet_period,
            final(self).deadline == old(self).deadline,
    {
        self.phase = Phase::Recognizing;
    }

    /// Recognition came back. Non-empty text moves the worker on to the write
    /// step, carrying that exact text as the artifact content; empty text or
    /// an outright failure is a `Recognition` failure, and no artifact write
    /// is ever commanded.
    pub fn on_recognition(&mut self, text: Option<String>)
        requires
            old(self).phase == Phase::Recognizing,
        ensures
            final(self).path == old(self).path,
            final(self).quiet_period == old(self).quiet_period,
            final(self).deadline == old(self).deadline,
            match text {
                Some(t) => final(self).phase == (if t@.len() > 0 {
                    Phase::Writing(t)
                } else {
                    Phase::Failed(StepFailure::Recognition)
                }),
                None => final(self).phase == Phase::Failed(StepFailure::Recognition),
            },
    {
        self.phase = match text {
            Some(t) => if t.as_str().is_empty() {
                Phase::Failed(StepFailure::Recognition)
            } else {
                Phase::Writing(t)
            },
            None => Phase::Failed(StepFailure::Recognition),
        };
    }

    /// The artifact write step finished. `verified_non_empty` reports whether
    /// the artifact was written and found non-empty afterwards; if so, the
    /// relocation step follows, otherwise the worker fails at `ArtifactWrite`.
    pub fn on_artifact_written(&mut self, verified_non_empty: bool)
        requires
            old(self).phase is Writing,
        ensures
            final(self).path == old(self).path,
            final(self).quiet_period == old(self).quiet_period,
            final(self).deadline == old(self).deadline,
            final(self).phase == (if verified_non_empty {
                Phase::Relocating
            } else {
                Phase::Failed(StepFailure::ArtifactWrite)
            }),
    {
        self.phase = if verified_non_empty {
            Phase::Relocating
        } else {
            Phase::Failed(StepFailure::ArtifactWrite)
        };
    }

    /// The relocation step finished. Success completes the job; failure fails
    /// it at `Relocate`, leaving the artifact already written in place.
    pub fn on_relocated(&mut self, moved: bool)
        requires
            old(self).phase == Phase::Relocating,
        ensures
            final(self).path == old(self).path,
            final(self).quiet_period == old(self).quiet_period,
            final(self).deadline == old(self).deadline,
            final(self).phase == (if moved {
                Phase::Done
            } else {
                Phase::Failed(StepFailure::Relocate)
            }),
    {
        self.phase = if moved {
            Phase::Done
        } else {
            Phase::Failed(StepFailure::Relocate)
        };
    }

    /// The terminal outcome to report to the dispatcher: `Done` or `Failed`
    /// with this worker's path, and nothing before a terminal phase.
    pub fn outcome_event(&self) -> (r: Option<DocEvent>)
        ensures
            self.phase == Phase::Done ==> r == Some(DocEvent::Done(self.path)),
            self.phase is Failed ==> r == Some(DocEvent::Failed(self.path)),
            !self.is_terminal() ==> r is None,
    {
        match &self.phase {
            Phase::Done => Some(DocEvent::Done(self.path.clone())),
            Phase::Failed(_) => Some(DocEvent::Failed(self.path.clone())),
            _ => None,
        }
    }
}

/// The worker state after a sequence of chunk signals, earliest first.
pub open spec fn after_chunks(w: Worker, times: Seq<u64>) -> Worker
    decreases times.len(),
{
    if times.len() == 0 {
        w
    } else {
        after_chunks(w.spec_on_chunk(times[0]), times.drop_first())
    }
}

/// Each chunk arrives strictly before the deadline that is current when it
/// arrives — that is, strictly less than the quiet period after the signal
/// before it — and slides the deadline without overflowing.
pub open spec fn arrivals_in_time(w: Worker, times: Seq<u64>) -> bool
    decreases times.len(),
{
    times.len() == 0 || {
        &&& times[0] < w.deadline
        &&& times[0] + w.quiet_period <= u64::MAX
        &&& arrivals_in_time(w.spec_on_chunk(times[0]), times.drop_first())
    }
}

/// A worker that is accumulating and receives any run of chunk signals, each
/// strictly less than the quiet period after the one before it, is still
/// accumulating afterwards — recognition has not started — and its deadline
/// stands exactly one quiet period after the last signal. Recognition can
/// then begin only through `on_timeout`, whose precondition admits no instant
/// before that deadline: it takes the first gap of at least the quiet period
/// to trigger it, and `on_timeout` is the sole way out of `Accumulating`, so
/// recognition is invoked exactly once.
pub proof fn lemma_debounce_single_recognition(w: Worker, times: Seq<u64>)
    requires
        w.phase == Phase::Accumulating,
        arrivals_in_time(w, times),
    ensures
        after_chunks(w, times).phase == Phase::Accumulating,
        after_chunks(w, times).path == w.path,
        after_chunks(w, times).quiet_period == w.quiet_period,
        times.len() == 0 ==> after_chunks(w, times).deadline == w.deadline,
        times.len() > 0 ==> after_chunks(w, times).deadline == times.last() + w.quiet_period,
    decreases times.len(),
{
    if times.len() > 0 {
        let w1 = w.spec_on_chunk(times[0]);
        lemma_debounce_single_recognition(w1, times.drop_first());
        if times.len() > 1 {
            assert(times.drop_first().last() == times.last());
        }
    }
}

} // verus!
