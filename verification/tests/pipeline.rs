use voicepaste::automation::{AutomationConfig, AutomationTrigger, KeywordPosition, TranscriptDelivery};
use voicepaste::models::{ActivationMode, SttEngine};
use voicepaste::native_stt::NativeSttService;
use voicepaste::pipeline::{
    delivery_step, drop_stale_retry, hotkey_action, stop_outcome, stop_recording, tier_plan,
    HotkeyAction,
    HotkeyEvent, StopOutcome, engine_unavailable_error, finish_transcription,
    is_engine_available, overlay_after_delivery, overlay_after_failure, records_history,
    retry_engine_from_ui, DeliveryStep, OverlayUpdate,
};
use voicepaste::recording_queue::{RecordingAction, RecordingQueueCoordinator};

#[test]
fn retry_choice_parses_only_the_visible_methods() {
    assert_eq!(retry_engine_from_ui(None), Ok(None));
    assert_eq!(retry_engine_from_ui(Some("remote")), Ok(Some(SttEngine::Remote)));
    assert_eq!(retry_engine_from_ui(Some("native")), Ok(Some(SttEngine::Native)));
    assert_eq!(retry_engine_from_ui(Some("local")), Ok(Some(SttEngine::Local)));
    assert!(retry_engine_from_ui(Some("cascade")).is_err());
}

#[test]
fn retry_choice_trims_and_names_the_unknown_method() {
    assert_eq!(retry_engine_from_ui(Some("  ")), Ok(None));
    assert_eq!(retry_engine_from_ui(Some(" local ")), Ok(Some(SttEngine::Local)));
    assert_eq!(
        retry_engine_from_ui(Some(" cascade ")),
        Err("Unknown retry method 'cascade'. Choose Remote, Native, or Local.".to_string())
    );
}

#[test]
fn is_engine_available_remote_is_always_true() {
    assert!(is_engine_available(SttEngine::Remote, false, false));
}

#[test]
fn is_engine_available_native_matches_native_stt() {
    for on_macos in [false, true] {
        assert_eq!(
            is_engine_available(SttEngine::Native, false, NativeSttService::is_available(on_macos)),
            NativeSttService::is_available(on_macos)
        );
    }
    assert!(is_engine_available(SttEngine::Local, true, false));
    assert!(!is_engine_available(SttEngine::Local, false, true));
}

#[test]
fn transcripts_are_pasted_unless_an_automation_takes_them() {
    let off = AutomationConfig::default();
    assert_eq!(delivery_step(&off, TranscriptDelivery::Paste, "hello"), DeliveryStep::Paste);
    assert_eq!(delivery_step(&off, TranscriptDelivery::Paste, ""), DeliveryStep::Skip);
    let keyword = AutomationConfig {
        enabled: true,
        trigger: AutomationTrigger::Keyword,
        keyword: "дело".to_string(),
        keyword_position: KeywordPosition::Start,
        ..AutomationConfig::default()
    };
    assert_eq!(
        delivery_step(&keyword, TranscriptDelivery::Paste, "дело купить хлеб"),
        DeliveryStep::RunAutomation("купить хлеб".to_string())
    );
    assert_eq!(delivery_step(&keyword, TranscriptDelivery::Paste, "дело"), DeliveryStep::Skip);
    assert_eq!(
        delivery_step(&keyword, TranscriptDelivery::Paste, "просто текст"),
        DeliveryStep::Paste
    );
}

#[test]
fn overlay_follows_the_result_unless_a_new_recording_runs() {
    assert_eq!(overlay_after_delivery("hi", None, false), OverlayUpdate::Preview("hi".to_string()));
    assert_eq!(
        overlay_after_delivery("hi", Some("no target"), false),
        OverlayUpdate::PasteError("no target".to_string())
    );
    assert_eq!(overlay_after_delivery("hi", None, true), OverlayUpdate::Unchanged);
    assert_eq!(overlay_after_failure("boom", false), OverlayUpdate::Retry("boom".to_string()));
    assert_eq!(overlay_after_failure("boom", true), OverlayUpdate::Unchanged);
}

#[test]
fn finishing_work_drains_the_queue() {
    let mut q = RecordingQueueCoordinator::new();
    q.on_recording_stopped();
    q.on_recording_started();
    q.on_recording_stopped();
    assert_eq!(finish_transcription(&mut q, true), RecordingAction::DoNothing);
    assert_eq!(q.in_flight, 1);
    assert!(q.is_busy);
    assert_eq!(finish_transcription(&mut q, false), RecordingAction::DoNothing);
    assert!(!q.is_busy);
}

#[test]
fn stale_retry_results_are_dropped() {
    let mut q = RecordingQueueCoordinator::new();
    q.on_retry_started();
    assert!(!drop_stale_retry(&mut q, 3, 3));
    assert_eq!(q.in_flight, 1);
    assert!(drop_stale_retry(&mut q, 3, 4));
    assert_eq!(q.in_flight, 0);
    assert!(records_history("", false));
    assert!(!records_history("", true));
    assert!(records_history("x", true));
}

#[test]
fn unavailable_engine_error_names_the_engine() {
    assert_eq!(
        engine_unavailable_error(SttEngine::Local),
        "Local transcription is unavailable on this Mac. Configure it, then try again."
    );
}

#[test]
fn hold_and_toggle_hotkeys_start_and_stop_as_configured() {
    let paste = TranscriptDelivery::Paste;
    let auto = TranscriptDelivery::AutomationHotkey;
    assert_eq!(
        hotkey_action(ActivationMode::Hold, false, auto, HotkeyEvent::Pressed),
        (HotkeyAction::StartRecording, paste)
    );
    assert_eq!(
        hotkey_action(ActivationMode::Hold, true, paste, HotkeyEvent::Pressed),
        (HotkeyAction::Nothing, paste)
    );
    assert_eq!(
        hotkey_action(ActivationMode::Hold, true, paste, HotkeyEvent::Released),
        (HotkeyAction::StopAndTranscribe, paste)
    );
    assert_eq!(
        hotkey_action(ActivationMode::Toggle, true, paste, HotkeyEvent::Pressed),
        (HotkeyAction::StopAndTranscribe, paste)
    );
    assert_eq!(
        hotkey_action(ActivationMode::Toggle, true, paste, HotkeyEvent::Released),
        (HotkeyAction::Nothing, paste)
    );
    assert_eq!(
        hotkey_action(ActivationMode::Toggle, false, paste, HotkeyEvent::Pressed),
        (HotkeyAction::StartRecording, paste)
    );
}

#[test]
fn automation_chord_reroutes_or_starts_and_stops_only_its_own_recording() {
    let paste = TranscriptDelivery::Paste;
    let auto = TranscriptDelivery::AutomationHotkey;
    assert_eq!(
        hotkey_action(ActivationMode::Toggle, true, paste, HotkeyEvent::AutomationPressed),
        (HotkeyAction::Nothing, auto)
    );
    assert_eq!(
        hotkey_action(ActivationMode::Toggle, false, paste, HotkeyEvent::AutomationPressed),
        (HotkeyAction::StartRecording, auto)
    );
    assert_eq!(
        hotkey_action(ActivationMode::Toggle, true, auto, HotkeyEvent::AutomationReleased),
        (HotkeyAction::StopAndTranscribe, auto)
    );
    assert_eq!(
        hotkey_action(ActivationMode::Hold, true, paste, HotkeyEvent::AutomationReleased),
        (HotkeyAction::Nothing, paste)
    );
}

#[test]
fn tiers_keep_the_configured_order_and_skip_engines_that_cannot_run() {
    let order = [SttEngine::Native, SttEngine::Local, SttEngine::Remote];
    assert_eq!(tier_plan(&order, false, true), vec![SttEngine::Native, SttEngine::Remote]);
    assert_eq!(tier_plan(&order, true, false), vec![SttEngine::Local, SttEngine::Remote]);
    assert_eq!(tier_plan(&[SttEngine::Native], false, false), Vec::<SttEngine>::new());
}

#[test]
fn short_recordings_are_discarded_and_move_the_preview_on() {
    assert_eq!(stop_outcome(Some((800, 16_000)), 4), StopOutcome::Discard { preview_session: 5 });
    assert_eq!(stop_outcome(Some((0, 16_000)), u64::MAX), StopOutcome::Discard { preview_session: 0 });
    assert_eq!(stop_outcome(Some((2_400, 16_000)), 4), StopOutcome::Transcribe);
    assert_eq!(stop_outcome(Some((8_000, 16_000)), 4), StopOutcome::Transcribe);
    assert_eq!(stop_outcome(Some((10, 0)), 4), StopOutcome::Discard { preview_session: 5 });
    assert_eq!(stop_outcome(None, 4), StopOutcome::Transcribe);
}

#[test]
fn stopping_keeps_the_queue_in_step_on_every_path() {
    let mut q = RecordingQueueCoordinator::new();
    q.on_recording_started();
    assert_eq!(stop_recording(&mut q, true, Some((16_000, 16_000)), 1), StopOutcome::Transcribe);
    assert!(!q.is_recording);
    assert_eq!(q.in_flight, 1);
    assert!(q.is_busy);

    q.on_recording_started();
    assert_eq!(
        stop_recording(&mut q, true, Some((100, 16_000)), 1),
        StopOutcome::Discard { preview_session: 2 }
    );
    assert!(!q.is_recording);
    assert_eq!(q.in_flight, 1);

    q.on_recording_started();
    assert_eq!(stop_recording(&mut q, false, None, 7), StopOutcome::Discard { preview_session: 8 });
    assert!(!q.is_recording);
    assert_eq!(q.in_flight, 1);
    assert!(q.is_busy);
}
