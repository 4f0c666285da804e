//! Tracker for the recording/transcription lifecycle.
//!
//! Recording and transcription are independent: stopping one recording
//! increments `in_flight`, and a new recording may start at once while that
//! work runs in the background.

use vstd::prelude::*;

verus! {

#[derive(Debug, Clone, Copy, PartialEq, Eq, Structural)]
pub enum RecordingAction {
    StartRecording,
    ShowWaiting,
    DoNothing,
}

pub struct RecordingQueueCoordinator {
    pub is_recording: bool,
    pub is_busy: bool,
    pub in_flight: usize,
}

/// `is_busy` says exactly whether background work is in flight.
pub open spec fn busy_matches_work(q: RecordingQueueCoordinator) -> bool {
    q.is_busy == (q.in_flight > 0)
}

pub open spec fn idle() -> RecordingQueueCoordinator {
    RecordingQueueCoordinator { is_recording: false, is_busy: false, in_flight: 0 }
}

/// State after `request_recording`.
pub open spec fn after_request(q: RecordingQueueCoordinator) -> RecordingQueueCoordinator {
    RecordingQueueCoordinator { is_recording: true, ..q }
}

/// Answer of `request_recording`.
pub open spec fn request_answer(q: RecordingQueueCoordinator) -> RecordingAction {
    if q.is_recording {
        RecordingAction::DoNothing
    } else {
        RecordingAction::StartRecording
    }
}

/// State after a recording stopped and its transcription was handed off
/// (also after a retry started, which adds the same background work).
pub open spec fn after_work_started(
    q: RecordingQueueCoordinator,
    stops_recording: bool,
) -> RecordingQueueCoordinator
    recommends
        q.in_flight < usize::MAX,
{
    RecordingQueueCoordinator {
        is_recording: if stops_recording {
            false
        } else {
            q.is_recording
        },
        is_busy: true,
        in_flight: (q.in_flight + 1) as usize,
    }
}

/// State after one piece of background work finished.
pub open spec fn after_work_finished(q: RecordingQueueCoordinator) -> RecordingQueueCoordinator {
    let n: usize = if q.in_flight > 0 {
        (q.in_flight - 1) as usize
    } else {
        0
    };
    RecordingQueueCoordinator { is_recording: q.is_recording, is_busy: n > 0, in_flight: n }
}

impl RecordingQueueCoordinator {
    pub fn new() -> (r: Self)
        ensures
            r == idle(),
    {
        Self { is_recording: false, is_busy: false, in_flight: 0 }
    }

    /// A new recording is never queued behind an older transcription.
    pub fn request_recording(&mut self) -> (r: RecordingAction)
        ensures
            r == request_answer(*old(self)),
            *final(self) == after_request(*old(self)),
    {
        if self.is_recording {
            return RecordingAction::DoNothing;
        }
        self.is_recording = true;
        RecordingAction::StartRecording
    }

    pub fn on_recording_started(&mut self)
        ensures
            *final(self) == after_request(*old(self)),
    {
        self.is_recording = true;
    }

    pub fn on_recording_stopped(&mut self)
        requires
            old(self).in_flight < usize::MAX,
        ensures
            *final(self) == after_work_started(*old(self), true),
    {
        self.is_recording = false;
        self.in_flight += 1;
        self.is_busy = true;
    }

    pub fn on_transcription_completed(&mut self) -> (r: RecordingAction)
        ensures
            r == RecordingAction::DoNothing,
            *final(self) == after_work_finished(*old(self)),
    {
        self.in_flight = self.in_flight.saturating_sub(1);
        self.is_busy = self.in_flight > 0;
        RecordingAction::DoNothing
    }

    pub fn on_retry_started(&mut self)
        requires
            old(self).in_flight < usize::MAX,
        ensures
            *final(self) == after_work_started(*old(self), false),
    {
        self.in_flight += 1;
        self.is_busy = true;
    }

    pub fn clear_busy_after_retry(&mut self)
        ensures
            *final(self) == after_work_finished(*old(self)),
    {
        self.in_flight = self.in_flight.saturating_sub(1);
        self.is_busy = self.in_flight > 0;
    }

    /// Nothing is ever queued; kept for callers of the queued design.
    pub fn has_pending(&self) -> (r: bool)
        ensures
            !r,
    {
        false
    }

    /// Nothing is ever queued, so there is nothing to cancel.
    pub fn cancel_pending(&mut self)
        ensures
            *final(self) == *old(self),
    {
    }

    pub fn reset(&mut self)
        ensures
            *final(self) == idle(),
    {
        self.is_recording = false;
        self.is_busy = false;
        self.in_flight = 0;
    }
}

/// The idle state has no work in flight, and every transition keeps `is_busy`
/// equal to "some work is in flight" (completing work restores it from any
/// state).
pub proof fn lemma_busy_tracks_work(q: RecordingQueueCoordinator, stops_recording: bool)
    requires
        busy_matches_work(q),
        q.in_flight < usize::MAX,
    ensures
        busy_matches_work(idle()),
        busy_matches_work(after_request(q)),
        busy_matches_work(after_work_started(q, stops_recording)),
        busy_matches_work(after_work_finished(q)),
{
}

/// Finishing the work that was just started returns the counter and the busy
/// flag to what they were, whatever the recording flag did.
pub proof fn lemma_finish_undoes_start(q: RecordingQueueCoordinator, stops_recording: bool)
    requires
        busy_matches_work(q),
        q.in_flight < usize::MAX,
    ensures
        after_work_finished(after_work_started(q, stops_recording)).in_flight == q.in_flight,
        after_work_finished(after_work_started(q, stops_recording)).is_busy == q.is_busy,
        !stops_recording ==> after_work_finished(after_work_started(q, stops_recording)) == q,
{
}

/// A recording request while recording changes nothing and is ignored; a
/// request while not recording always starts one, however much work is in
/// flight.
pub proof fn lemma_request_is_never_queued(q: RecordingQueueCoordinator)
    ensures
        q.is_recording ==> request_answer(q) == RecordingAction::DoNothing && after_request(q)
            == q,
        !q.is_recording ==> request_answer(q) == RecordingAction::StartRecording,
        after_request(q).is_recording,
        request_answer(after_request(q)) == RecordingAction::DoNothing,
{
}

/// `n` finished pieces of work drain `n` started ones.
pub open spec fn finish_n(q: RecordingQueueCoordinator, n: nat) -> RecordingQueueCoordinator
    decreases n,
{
    if n == 0 {
        q
    } else {
        finish_n(after_work_finished(q), (n - 1) as nat)
    }
}

/// Concurrent transcriptions drain independently: after as many completions
/// as there is work in flight, nothing is busy any more.
pub proof fn lemma_completions_drain(q: RecordingQueueCoordinator)
    ensures
        finish_n(q, q.in_flight as nat).in_flight == 0,
        !finish_n(q, q.in_flight as nat).is_busy || q.in_flight == 0,
        finish_n(q, q.in_flight as nat).is_recording == q.is_recording,
    decreases q.in_flight,
{
    if q.in_flight > 0 {
        let q2 = after_work_finished(q);
        lemma_completions_drain(q2);
        assert(q2.in_flight == q.in_flight - 1);
        if q2.in_flight == 0 {
            assert(finish_n(q2, 0) == q2);
        }
    }
}

/// One call of a coordinator method, as the laws below replay them.
#[derive(Debug, Clone, Copy, PartialEq, Eq, Structural)]
pub enum QueueCall {
    RequestRecording,
    RecordingStarted,
    RecordingStopped,
    TranscriptionCompleted,
    RetryStarted,
    RetryCleared,
    CancelPending,
    Reset,
}

/// The coordinator after `call`, as the method's contract gives it.
pub open spec fn after_call(q: RecordingQueueCoordinator, call: QueueCall) -> RecordingQueueCoordinator {
    match call {
        QueueCall::RequestRecording => after_request(q),
        QueueCall::RecordingStarted => after_request(q),
        QueueCall::RecordingStopped => after_work_started(q, true),
        QueueCall::TranscriptionCompleted => after_work_finished(q),
        QueueCall::RetryStarted => after_work_started(q, false),
        QueueCall::RetryCleared => after_work_finished(q),
        QueueCall::CancelPending => q,
        QueueCall::Reset => idle(),
    }
}

/// Whether `call` may be made on `q`: the calls that add work need room in
/// the counter.
pub open spec fn call_allowed(q: RecordingQueueCoordinator, call: QueueCall) -> bool {
    (call == QueueCall::RecordingStopped || call == QueueCall::RetryStarted) ==> q.in_flight
        < usize::MAX
}

/// The coordinator that `new()` followed by `calls` leaves.
pub open spec fn reached(calls: Seq<QueueCall>) -> RecordingQueueCoordinator
    decreases calls.len(),
{
    if calls.len() == 0 {
        idle()
    } else {
        after_call(reached(calls.drop_last()), calls.last())
    }
}

/// Whether every call of `calls` may be made where it comes.
pub open spec fn callable(calls: Seq<QueueCall>) -> bool
    decreases calls.len(),
{
    calls.len() == 0 || (callable(calls.drop_last()) && call_allowed(
        reached(calls.drop_last()),
        calls.last(),
    ))
}

/// On every coordinator reached from `new()` by calls of its methods,
/// `is_busy` says exactly whether work is in flight; a completion then lowers
/// the count by one (never below zero), keeps the recording flag, and leaves
/// `is_busy` equal to "work is still in flight".
pub proof fn lemma_reached_busy_tracks_work(calls: Seq<QueueCall>)
    requires
        callable(calls),
    ensures
        busy_matches_work(reached(calls)),
        after_work_finished(reached(calls)).in_flight == if reached(calls).in_flight > 0 {
            reached(calls).in_flight - 1
        } else {
            0
        },
        after_work_finished(reached(calls)).is_recording == reached(calls).is_recording,
        busy_matches_work(after_work_finished(reached(calls))),
    decreases calls.len(),
{
    if calls.len() > 0 {
        lemma_reached_busy_tracks_work(calls.drop_last());
    }
}

} // verus!
