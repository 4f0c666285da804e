use voicepaste::recording_queue::{RecordingAction, RecordingQueueCoordinator};

#[test]
fn initial_state_is_idle() {
    let q = RecordingQueueCoordinator::new();
    assert!(!q.is_recording);
    assert!(!q.is_busy);
    assert_eq!(q.in_flight, 0);
}

#[test]
fn recording_starts_when_idle() {
    let mut q = RecordingQueueCoordinator::new();
    assert_eq!(q.request_recording(), RecordingAction::StartRecording);
    assert!(q.is_recording);
}

#[test]
fn repeated_start_while_recording_is_ignored() {
    let mut q = RecordingQueueCoordinator::new();
    q.request_recording();
    assert_eq!(q.request_recording(), RecordingAction::DoNothing);
}

#[test]
fn new_recording_starts_while_previous_transcription_is_busy() {
    let mut q = RecordingQueueCoordinator::new();
    q.request_recording();
    q.on_recording_stopped();
    assert_eq!(q.in_flight, 1);
    assert_eq!(q.request_recording(), RecordingAction::StartRecording);
    assert!(q.is_recording);
}

#[test]
fn concurrent_transcriptions_drain_independently() {
    let mut q = RecordingQueueCoordinator::new();
    q.on_recording_stopped();
    q.on_recording_started();
    q.on_recording_stopped();
    assert_eq!(q.in_flight, 2);
    q.on_transcription_completed();
    assert!(q.is_busy);
    assert_eq!(q.in_flight, 1);
    q.on_transcription_completed();
    assert!(!q.is_busy);
    assert_eq!(q.in_flight, 0);
}

#[test]
fn retry_is_counted_as_background_work() {
    let mut q = RecordingQueueCoordinator::new();
    q.on_retry_started();
    assert!(q.is_busy);
    q.clear_busy_after_retry();
    assert!(!q.is_busy);
    assert_eq!(q.in_flight, 0);
}

#[test]
fn reset_clears_all_state() {
    let mut q = RecordingQueueCoordinator::new();
    q.on_recording_stopped();
    q.reset();
    assert!(!q.is_recording);
    assert!(!q.is_busy);
    assert_eq!(q.in_flight, 0);
}

#[test]
fn completion_with_nothing_in_flight_stays_idle() {
    let mut q = RecordingQueueCoordinator::new();
    assert_eq!(q.on_transcription_completed(), RecordingAction::DoNothing);
    assert_eq!(q.in_flight, 0);
    assert!(!q.is_busy);
    assert!(!q.has_pending());
}
