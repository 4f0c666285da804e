use voicepaste::automation::{AutomationConfig, AutomationTrigger, FileWriteMode};
use voicepaste::models::{HotkeyKind, SttEngine, UiLanguage};
use voicepaste::settings::{
    api_key_update, check_engine_order, check_local_model, initial_ui_language,
    local_engine_ready, local_model_state, normalize_base_url, optional_command,
    permission_requirements, runtime_configured, AutomationPatch, GrantedPermissions,
    LocalModelState,
};

fn granted(mic: bool, acc: bool, input: bool, speech: bool) -> GrantedPermissions {
    GrantedPermissions {
        microphone: Some(mic),
        accessibility: Some(acc),
        input_monitoring: Some(input),
        speech_recognition: Some(speech),
    }
}

fn default_order() -> Vec<SttEngine> {
    vec![SttEngine::Remote, SttEngine::Local, SttEngine::Native]
}

#[test]
fn startup_gate_requires_microphone_and_accessibility() {
    let automation = AutomationConfig::default();
    let r = permission_requirements(
        &default_order(),
        HotkeyKind::Fn,
        &automation,
        true,
        granted(false, false, false, true),
    );
    assert!(r.any_missing());
    assert!(r.missing_microphone);
    assert!(r.missing_accessibility);
}

#[test]
fn startup_gate_is_clear_when_required_permissions_are_granted() {
    let automation = AutomationConfig::default();
    let r = permission_requirements(
        &default_order(),
        HotkeyKind::Fn,
        &automation,
        true,
        granted(true, true, true, true),
    );
    assert!(!r.any_missing());
}

#[test]
fn native_engine_adds_speech_permission_requirement() {
    let automation = AutomationConfig::default();
    let r = permission_requirements(
        &[SttEngine::Native],
        HotkeyKind::Fn,
        &automation,
        true,
        granted(true, true, true, false),
    );
    assert!(r.speech_recognition);
    assert!(r.missing_speech_recognition);
    assert!(r.any_missing());
}

#[test]
fn remote_primary_with_native_fallback_does_not_block_on_speech_permission() {
    let automation = AutomationConfig::default();
    let r = permission_requirements(
        &default_order(),
        HotkeyKind::Fn,
        &automation,
        true,
        granted(true, true, true, false),
    );
    assert!(!r.speech_recognition);
    assert!(!r.any_missing());
}

#[test]
fn function_key_hotkeys_do_not_require_input_monitoring() {
    let automation = AutomationConfig::default();
    let r = permission_requirements(
        &default_order(),
        HotkeyKind::F13,
        &automation,
        true,
        granted(true, true, false, true),
    );
    assert!(!r.input_monitoring);
    assert!(!r.missing_input_monitoring);
    assert!(!r.any_missing());
}

#[test]
fn fn_control_automation_requires_input_monitoring() {
    let automation = AutomationConfig {
        enabled: true,
        trigger: AutomationTrigger::FnControl,
        ..AutomationConfig::default()
    };
    let on_mac = permission_requirements(
        &default_order(),
        HotkeyKind::F13,
        &automation,
        true,
        granted(true, true, false, true),
    );
    assert!(on_mac.input_monitoring);
    let elsewhere = permission_requirements(
        &default_order(),
        HotkeyKind::F13,
        &automation,
        false,
        granted(true, true, false, true),
    );
    assert!(!elsewhere.input_monitoring);
}

#[test]
fn unknown_permissions_count_as_missing() {
    let automation = AutomationConfig::default();
    let r = permission_requirements(
        &default_order(),
        HotkeyKind::F13,
        &automation,
        false,
        GrantedPermissions {
            microphone: None,
            accessibility: Some(true),
            input_monitoring: None,
            speech_recognition: None,
        },
    );
    assert!(r.missing_microphone);
    assert!(!r.missing_input_monitoring);
}

#[test]
fn automation_patch_trims_and_keeps_untouched_fields() {
    let current = AutomationConfig {
        keyword: "old".to_string(),
        secret: Some("s3cret".to_string()),
        file_mode: FileWriteMode::Overwrite,
        ..AutomationConfig::default()
    };
    let patch = AutomationPatch {
        enabled: Some(true),
        keyword: Some("  дело ".to_string()),
        command: Some(" /usr/bin/say ".to_string()),
        arguments: Some(vec!["-v".to_string(), "  ".to_string(), "Alex".to_string()]),
        secret: Some("   ".to_string()),
        ..AutomationPatch::default()
    };
    let next = patch.apply_to(&current);
    assert!(next.enabled);
    assert_eq!(next.keyword, "дело");
    assert_eq!(next.command, "/usr/bin/say");
    assert_eq!(next.arguments, vec!["-v".to_string(), "Alex".to_string()]);
    assert_eq!(next.secret, Some("s3cret".to_string()));
    assert_eq!(next.file_mode, FileWriteMode::Overwrite);

    let cleared = AutomationPatch {
        clear_secret: Some(true),
        secret: Some("new".to_string()),
        ..AutomationPatch::default()
    }
    .apply_to(&current);
    assert_eq!(cleared.secret, None);
    let replaced = AutomationPatch {
        secret: Some(" new ".to_string()),
        ..AutomationPatch::default()
    }
    .apply_to(&current);
    assert_eq!(replaced.secret, Some(" new ".to_string()));
}

#[test]
fn local_model_selection_is_checked() {
    assert_eq!(
        check_local_model("tiny", "whisper-base", true),
        Err("Unknown local model: tiny".to_string())
    );
    assert_eq!(
        check_local_model("parakeet-v3", "whisper-base", false),
        Err("Local model 'parakeet-v3' is not downloaded yet. Download it before selecting it.".to_string())
    );
    assert_eq!(check_local_model("whisper-base", "whisper-base", false), Ok(()));
    assert_eq!(check_local_model("parakeet-v3", "whisper-base", true), Ok(()));
}

#[test]
fn cascade_with_local_needs_a_ready_local_engine() {
    assert!(check_engine_order(&[SttEngine::Remote, SttEngine::Local], false).is_err());
    assert!(check_engine_order(&[SttEngine::Remote], false).is_ok());
    assert!(check_engine_order(&[SttEngine::Local], true).is_ok());
    assert!(local_engine_ready("parakeet-v3", true, None, Some("parakeet-asr")));
    assert!(!local_engine_ready("parakeet-v3", true, Some(" "), Some("parakeet-asr")));
    assert!(!local_engine_ready("whisper-base", false, None, None));
    assert!(runtime_configured("whisper-base", None, None));
    assert!(!runtime_configured("parakeet-v3", None, Some("  ")));
    assert_eq!(local_model_state(false, true), LocalModelState::Missing);
    assert_eq!(local_model_state(true, false), LocalModelState::RuntimeMissing);
    assert_eq!(local_model_state(true, true), LocalModelState::Ready);
}

#[test]
fn settings_text_fields_are_normalised() {
    assert_eq!(normalize_base_url("  https://host/v1/// "), "https://host/v1");
    assert_eq!(normalize_base_url("///"), "");
    assert_eq!(optional_command("  "), None);
    assert_eq!(optional_command(" run "), Some(" run ".to_string()));
    assert_eq!(api_key_update(Some(true), Some("k".to_string())), Some(None));
    assert_eq!(api_key_update(None, Some("  ".to_string())), Some(None));
    assert_eq!(api_key_update(None, Some("key".to_string())), Some(Some("key".to_string())));
    assert_eq!(api_key_update(Some(false), None), None);
}

#[test]
fn ui_language_is_chosen_once() {
    assert_eq!(initial_ui_language(Some(UiLanguage::Zh), Some("ru-RU"), UiLanguage::En), (UiLanguage::Zh, false));
    assert_eq!(initial_ui_language(None, Some("ru-RU"), UiLanguage::En), (UiLanguage::Ru, true));
    assert_eq!(initial_ui_language(None, Some(""), UiLanguage::Zh), (UiLanguage::Zh, true));
    assert_eq!(initial_ui_language(None, None, UiLanguage::Ru), (UiLanguage::Ru, true));
}
