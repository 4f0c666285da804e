//! Decisions of the dictation pipeline: which retry method the overlay asked
//! for, which engines can run, where a finished transcript goes, and what
//! the overlay and the recording queue do when a transcription ends.

use crate::automation::{
    payload_for_transcript, payload_model, AutomationConfig, AutomationPayload, PayloadModel,
    TranscriptDelivery,
};
use crate::models::{ActivationMode, SttEngine};
use crate::recording_queue::{
    after_work_finished, after_work_started, RecordingAction, RecordingQueueCoordinator,
};
use crate::text::{push_str, same_text, trim, trimmed};
use vstd::prelude::*;

verus! {

broadcast use vstd::string::group_string_axioms;

/// The retry method the overlay asked for: blank or missing means the
/// configured cascade; otherwise exactly "remote", "native" or "local".
pub open spec fn retry_choice(engine: Option<Seq<char>>) -> Result<Option<SttEngine>, Seq<char>> {
    match engine {
        None => Ok(None),
        Some(raw) => {
            let v = trim(raw);
            if v.len() == 0 {
                Ok(None)
            } else if v == "remote"@ {
                Ok(Some(SttEngine::Remote))
            } else if v == "native"@ {
                Ok(Some(SttEngine::Native))
            } else if v == "local"@ {
                Ok(Some(SttEngine::Local))
            } else {
                Err("Unknown retry method '"@ + v + "'. Choose Remote, Native, or Local."@)
            }
        },
    }
}

/// Parses the retry choice supplied by the overlay without changing the
/// saved cascade order.
pub fn retry_engine_from_ui(engine: Option<&str>) -> (r: Result<Option<SttEngine>, String>)
    ensures
        match r {
            Ok(choice) => retry_choice(
                match engine {
                    Some(e) => Some(e@),
                    None => None,
                },
            ) == Ok::<Option<SttEngine>, Seq<char>>(choice),
            Err(e) => retry_choice(
                match engine {
                    Some(e) => Some(e@),
                    None => None,
                },
            ) == Err::<Option<SttEngine>, Seq<char>>(e@),
        },
{
    let raw = match engine {
        None => {
            return Ok(None);
        },
        Some(raw) => raw,
    };
    let value = trimmed(raw);
    if value.as_str().is_empty() {
        Ok(None)
    } else if same_text(value.as_str(), "remote") {
        Ok(Some(SttEngine::Remote))
    } else if same_text(value.as_str(), "native") {
        Ok(Some(SttEngine::Native))
    } else if same_text(value.as_str(), "local") {
        Ok(Some(SttEngine::Local))
    } else {
        let mut m = "Unknown retry method '".to_string();
        push_str(&mut m, value.as_str());
        push_str(&mut m, "'. Choose Remote, Native, or Local.");
        Err(m)
    }
}

/// Is the given engine usable right now? Remote always is (network failures
/// are the engine's own runtime errors); Local when a model file was found;
/// Native where the platform has it.
pub fn is_engine_available(engine: SttEngine, local_model_found: bool, native_available: bool) -> (r:
    bool)
    ensures
        r == match engine {
            SttEngine::Remote => true,
            SttEngine::Local => local_model_found,
            SttEngine::Native => native_available,
        },
{
    match engine {
        SttEngine::Remote => true,
        SttEngine::Local => local_model_found,
        SttEngine::Native => native_available,
    }
}

/// Where a finished transcript goes.
#[derive(Debug, Clone, PartialEq, Eq)]
pub enum DeliveryStep {
    /// Run the configured automation with this payload.
    RunAutomation(String),
    /// Neither run nor paste anything.
    Skip,
    /// Paste the transcript into the target application.
    Paste,
}

/// Decides where a finished transcript goes: an automation payload runs the
/// automation, a keyword with nothing after it is dropped, and otherwise a
/// non-empty transcript is pasted.
pub fn delivery_step(automation: &AutomationConfig, delivery: TranscriptDelivery, transcript: &str) -> (r:
    DeliveryStep)
    ensures
        match payload_model(*automation, delivery, transcript@) {
            PayloadModel::Text(p) => r matches DeliveryStep::RunAutomation(q) && q@ == p,
            PayloadModel::EmptyAfterKeyword => r == DeliveryStep::Skip,
            PayloadModel::NoMatch => r == if transcript@.len() == 0 {
                DeliveryStep::Skip
            } else {
                DeliveryStep::Paste
            },
        },
{
    match payload_for_transcript(automation, delivery, transcript) {
        AutomationPayload::Text(payload) => DeliveryStep::RunAutomation(payload),
        AutomationPayload::EmptyAfterKeyword => DeliveryStep::Skip,
        AutomationPayload::NoMatch => {
            if transcript.is_empty() {
                DeliveryStep::Skip
            } else {
                DeliveryStep::Paste
            }
        },
    }
}

/// What the overlay shows when a transcription ends.
#[derive(Debug, Clone, PartialEq, Eq)]
pub enum OverlayUpdate {
    /// A newer recording owns the overlay: leave it alone.
    Unchanged,
    /// Show the delivered text.
    Preview(String),
    /// Show why the text could not be delivered.
    PasteError(String),
    /// Show the transcription error with the retry choices.
    Retry(String),
}

/// The overlay after a transcript was delivered: the delivery error if there
/// was one, the text otherwise, and nothing while a newer recording runs.
pub fn overlay_after_delivery(text: &str, delivery_error: Option<&str>, recording_now: bool) -> (r:
    OverlayUpdate)
    ensures
        recording_now ==> r == OverlayUpdate::Unchanged,
        !recording_now ==> match delivery_error {
            Some(e) => r matches OverlayUpdate::PasteError(m) && m@ == e@,
            None => r matches OverlayUpdate::Preview(m) && m@ == text@,
        },
{
    if recording_now {
        return OverlayUpdate::Unchanged;
    }
    match delivery_error {
        Some(e) => OverlayUpdate::PasteError(e.to_string()),
        None => OverlayUpdate::Preview(text.to_string()),
    }
}

/// The overlay after a transcription failed: the error with the retry
/// choices, unless a newer recording owns the overlay.
pub fn overlay_after_failure(error: &str, recording_now: bool) -> (r: OverlayUpdate)
    ensures
        recording_now ==> r == OverlayUpdate::Unchanged,
        !recording_now ==> (r matches OverlayUpdate::Retry(m) && m@ == error@),
{
    if recording_now {
        OverlayUpdate::Unchanged
    } else {
        OverlayUpdate::Retry(error.to_string())
    }
}

/// Closes the queue's books on a finished transcription (a failed one
/// first drops anything pending) and says whether to start recording now.
pub fn finish_transcription(queue: &mut RecordingQueueCoordinator, failed: bool) -> (r:
    RecordingAction)
    ensures
        *final(queue) == after_work_finished(*old(queue)),
        r == RecordingAction::DoNothing,
{
    if failed {
        queue.cancel_pending();
    }
    queue.on_transcription_completed()
}

/// Whether a finished transcript is written to the history: always after a
/// normal transcription, only when it is not empty after a retry.
pub fn records_history(text: &str, is_retry: bool) -> (r: bool)
    ensures
        r == (!is_retry || text@.len() > 0),
{
    !is_retry || !text.is_empty()
}

/// A retry answer that arrives after the user dismissed the retry (or
/// started another one) is dropped: the queue only learns that the work
/// ended.
pub fn drop_stale_retry(queue: &mut RecordingQueueCoordinator, started_session: u64, current_session: u64) -> (r: bool)
    ensures
        r == (started_session != current_session),
        r ==> *final(queue) == after_work_finished(*old(queue)),
        !r ==> *final(queue) == *old(queue),
{
    if started_session != current_session {
        queue.clear_busy_after_retry();
        true
    } else {
        false
    }
}

/// The error answered when a chosen retry engine cannot be built here.
pub fn engine_unavailable_error(engine: SttEngine) -> (r: String)
    ensures
        r@ == crate::models::engine_short_for(engine, crate::models::UiLanguage::En)
            + " transcription is unavailable on this Mac. Configure it, then try again."@,
{
    let mut m = engine.short().to_string();
    push_str(&mut m, " transcription is unavailable on this Mac. Configure it, then try again.");
    m
}

/// A hotkey event: the dictation hotkey or the `Fn+Control` automation
/// chord going down or up.
#[derive(Debug, Clone, Copy, PartialEq, Eq, Structural)]
pub enum HotkeyEvent {
    Pressed,
    Released,
    AutomationPressed,
    AutomationReleased,
}

/// What a hotkey event does to the recorder.
#[derive(Debug, Clone, Copy, PartialEq, Eq, Structural)]
pub enum HotkeyAction {
    /// Start a recording.
    StartRecording,
    /// Stop the recording and transcribe it.
    StopAndTranscribe,
    /// Leave the recorder as it is.
    Nothing,
}

/// Decides what a hotkey event does, given the activation mode, whether a
/// recording is running and where its transcript is to go; returns the
/// action and the delivery route afterwards.
///
/// The dictation hotkey follows the mode: under Hold a press starts and a
/// release stops; under Toggle a press starts or stops and a release does
/// nothing. A recording it starts is pasted. The automation chord always
/// holds to record: pressed during a recording it re-routes that recording
/// to the automation, otherwise it starts one for the automation; released,
/// it stops only a recording routed to the automation.
pub fn hotkey_action(
    mode: ActivationMode,
    is_recording: bool,
    delivery: TranscriptDelivery,
    event: HotkeyEvent,
) -> (r: (HotkeyAction, TranscriptDelivery))
    ensures
        event == HotkeyEvent::Pressed && !is_recording ==> r == (
            HotkeyAction::StartRecording,
            TranscriptDelivery::Paste,
        ),
        event == HotkeyEvent::Pressed && is_recording ==> r == (
            if mode == ActivationMode::Toggle {
                HotkeyAction::StopAndTranscribe
            } else {
                HotkeyAction::Nothing
            },
            delivery,
        ),
        event == HotkeyEvent::Released ==> r == (
            if mode == ActivationMode::Hold && is_recording {
                HotkeyAction::StopAndTranscribe
            } else {
                HotkeyAction::Nothing
            },
            delivery,
        ),
        event == HotkeyEvent::AutomationPressed ==> r == (
            if is_recording {
                HotkeyAction::Nothing
            } else {
                HotkeyAction::StartRecording
            },
            TranscriptDelivery::AutomationHotkey,
        ),
        event == HotkeyEvent::AutomationReleased ==> r == (
            if is_recording && delivery == TranscriptDelivery::AutomationHotkey {
                HotkeyAction::StopAndTranscribe
            } else {
                HotkeyAction::Nothing
            },
            delivery,
        ),
{
    match event {
        HotkeyEvent::Pressed => {
            if !is_recording {
                (HotkeyAction::StartRecording, TranscriptDelivery::Paste)
            } else {
                match mode {
                    ActivationMode::Toggle => (HotkeyAction::StopAndTranscribe, delivery),
                    ActivationMode::Hold => (HotkeyAction::Nothing, delivery),
                }
            }
        },
        HotkeyEvent::Released => {
            if is_recording && mode == ActivationMode::Hold {
                (HotkeyAction::StopAndTranscribe, delivery)
            } else {
                (HotkeyAction::Nothing, delivery)
            }
        },
        HotkeyEvent::AutomationPressed => {
            if is_recording {
                (HotkeyAction::Nothing, TranscriptDelivery::AutomationHotkey)
            } else {
                (HotkeyAction::StartRecording, TranscriptDelivery::AutomationHotkey)
            }
        },
        HotkeyEvent::AutomationReleased => {
            if is_recording && delivery == TranscriptDelivery::AutomationHotkey {
                (HotkeyAction::StopAndTranscribe, delivery)
            } else {
                (HotkeyAction::Nothing, delivery)
            }
        },
    }
}

/// Recordings shorter than this many milliseconds are not transcribed.
pub const MIN_RECORDING_MILLIS: u64 = 150;

/// Whether `frames` frames at `sample_rate` frames per second last less
/// than `MIN_RECORDING_MILLIS`; a rate of zero counts as no audio at all.
pub open spec fn too_short(frames: u32, sample_rate: u32) -> bool {
    sample_rate == 0 || frames * 1000 < MIN_RECORDING_MILLIS * sample_rate
}

/// What a stopped recording leads to.
#[derive(Debug, Clone, Copy, PartialEq, Eq, Structural)]
pub enum StopOutcome {
    /// Too short to transcribe: hide the overlay and move the preview on to
    /// this session, so that a preview request of the discarded recording
    /// cannot reach the clipboard.
    Discard { preview_session: u64 },
    /// Transcribe it.
    Transcribe,
}

/// The next preview session number (the counter wraps around).
pub open spec fn next_session(session: u64) -> u64 {
    if session == u64::MAX {
        0
    } else {
        (session + 1) as u64
    }
}

/// What a stopped recording with this header leads to.
pub open spec fn stop_decision(header: Option<(u32, u32)>, preview_session: u64) -> StopOutcome {
    match header {
        Some((frames, rate)) => if too_short(frames, rate) {
            StopOutcome::Discard { preview_session: next_session(preview_session) }
        } else {
            StopOutcome::Transcribe
        },
        None => StopOutcome::Transcribe,
    }
}

/// Decides what a stopped recording leads to, given its length in frames
/// and its sample rate as its WAV header gives them (`None` where the header
/// cannot be read: the transcription then reports the real error).
pub fn stop_outcome(header: Option<(u32, u32)>, preview_session: u64) -> (r: StopOutcome)
    ensures
        r == stop_decision(header, preview_session),
{
    match header {
        Some((frames, rate)) => {
            let short = rate == 0 || (frames as u64) * 1000 < MIN_RECORDING_MILLIS * (rate as u64);
            if short {
                let next = if preview_session == u64::MAX {
                    0
                } else {
                    preview_session + 1
                };
                StopOutcome::Discard { preview_session: next }
            } else {
                StopOutcome::Transcribe
            }
        },
        None => StopOutcome::Transcribe,
    }
}

/// Whether `engine` can run, by the rule of `is_engine_available`.
pub open spec fn engine_runs(engine: SttEngine, local_found: bool, native_available: bool) -> bool {
    match engine {
        SttEngine::Remote => true,
        SttEngine::Local => local_found,
        SttEngine::Native => native_available,
    }
}

/// The tiers of the cascade: the engines of `order` that can run here, in
/// the configured order; the others are skipped.
pub fn tier_plan(order: &[SttEngine], local_found: bool, native_available: bool) -> (r: Vec<
    SttEngine,
>)
    ensures
        r@ == order@.filter(|e: SttEngine| engine_runs(e, local_found, native_available)),
{
    let ghost keep = |e: SttEngine| engine_runs(e, local_found, native_available);
    let mut r: Vec<SttEngine> = Vec::new();
    let mut i: usize = 0;
    while i < order.len()
        invariant
            i <= order@.len(),
            keep == (|e: SttEngine| engine_runs(e, local_found, native_available)),
            r@ == order@.take(i as int).filter(keep),
        decreases order@.len() - i,
    {
        proof {
            assert(order@.take(i + 1).drop_last() =~= order@.take(i as int));
            reveal(Seq::filter);
        }
        if is_engine_available(order[i], local_found, native_available) {
            r.push(order[i]);
        }
        i = i + 1;
    }
    assert(order@.take(order@.len() as int) =~= order@);
    r
}

/// Stops a recording and keeps the recording queue in step. `recorded`
/// says whether the recorder handed over a file, `header` what its WAV header
/// gives (`None` where it cannot be read). A recording without a file, or too
/// short to transcribe, is discarded: the preview moves on to the next
/// session and the queue ends up as if the recording's work had been handed
/// off and finished at once, so nothing is left counted in flight. Otherwise
/// the work is handed off and counted in flight until it completes.
pub fn stop_recording(
    queue: &mut RecordingQueueCoordinator,
    recorded: bool,
    header: Option<(u32, u32)>,
    preview_session: u64,
) -> (r: StopOutcome)
    requires
        old(queue).in_flight < usize::MAX,
    ensures
        r == if recorded {
            stop_decision(header, preview_session)
        } else {
            StopOutcome::Discard { preview_session: next_session(preview_session) }
        },
        r == StopOutcome::Transcribe ==> *final(queue) == after_work_started(*old(queue), true),
        r != StopOutcome::Transcribe ==> *final(queue) == after_work_finished(
            after_work_started(*old(queue), true),
        ),
{
    let outcome = if recorded {
        stop_outcome(header, preview_session)
    } else {
        let next = if preview_session == u64::MAX {
            0
        } else {
            preview_session + 1
        };
        StopOutcome::Discard { preview_session: next }
    };
    queue.on_recording_stopped();
    match outcome {
        StopOutcome::Transcribe => {},
        StopOutcome::Discard { .. } => {
            let _ = queue.on_transcription_completed();
        },
    }
    outcome
}

} // verus!
