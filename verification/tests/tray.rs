use voicepaste::number::{parse_u64, parse_usize};
use voicepaste::models::{ActivationMode, HotkeyKind, Language, SttEngine, UiLanguage};
use voicepaste::tray::{
    apply_tray_command, tray_menu_entries, TopEntry, TrayOutcome, TraySettings,
    activation_entries, engine_entries, format_model, hotkey_entries, hotkey_from_id, hotkey_id,
    language_entries, local_engine_available, model_entries, model_summary, next_engine_order,
    parse_tray_event, LocalModelChoice, TrayCommand, TrayDelay, TraySetting,
};

#[test]
fn tray_events_map_to_commands() {
    assert_eq!(parse_tray_event("toggle_realtime"), TrayCommand::Toggle(TraySetting::RealtimePreview));
    assert_eq!(parse_tray_event("quit"), TrayCommand::Quit);
    assert_eq!(parse_tray_event("model_remote_2"), TrayCommand::RemoteModel(2));
    assert_eq!(parse_tray_event("model_remote_x"), TrayCommand::Ignored);
    assert_eq!(
        parse_tray_event("model_local_parakeet"),
        TrayCommand::LocalModel(LocalModelChoice::Parakeet)
    );
    assert_eq!(
        parse_tray_event("rec_delay_1.5"),
        TrayCommand::Delay(TrayDelay::Recording, "1.5".to_string())
    );
    assert_eq!(parse_tray_event("lang_zh"), TrayCommand::SpeechLanguage(Language::Zh));
    assert_eq!(parse_tray_event("lang_xx"), TrayCommand::SpeechLanguage(Language::Auto));
    assert_eq!(parse_tray_event("app_lang_ru"), TrayCommand::AppLanguage(UiLanguage::Ru));
    assert_eq!(parse_tray_event("hotkey_f14"), TrayCommand::Hotkey(HotkeyKind::F14));
    assert_eq!(parse_tray_event("hotkey_bogus"), TrayCommand::Hotkey(HotkeyKind::Fn));
    assert_eq!(parse_tray_event("activation_toggle"), TrayCommand::Activation(ActivationMode::Toggle));
    assert_eq!(parse_tray_event("activation_other"), TrayCommand::Ignored);
    assert_eq!(parse_tray_event("engine_native"), TrayCommand::Engine(SttEngine::Native));
    assert_eq!(parse_tray_event("nothing"), TrayCommand::Ignored);
}

#[test]
fn menu_indices_parse_like_usize() {
    assert_eq!(parse_usize("0"), Some(0));
    assert_eq!(parse_usize("+7"), Some(7));
    assert_eq!(parse_usize("+"), None);
    assert_eq!(parse_usize(""), None);
    assert_eq!(parse_usize("-1"), None);
    assert_eq!(parse_usize("12a"), None);
    assert_eq!(parse_usize("18446744073709551615"), Some(usize::MAX));
    assert_eq!(parse_usize("18446744073709551616"), None);
    assert_eq!(parse_u64("+42"), Some(42));
    assert_eq!(parse_u64("18446744073709551616"), None);
}

#[test]
fn hotkey_ids_round_trip() {
    for kind in HotkeyKind::all_cases() {
        assert_eq!(hotkey_from_id(hotkey_id(kind)), kind);
    }
    let (entries, title) = hotkey_entries(HotkeyKind::F13, UiLanguage::En);
    assert_eq!(entries.len(), 9);
    for (entry, kind) in entries.iter().zip(HotkeyKind::all_cases()) {
        assert_eq!(parse_tray_event(&entry.id), TrayCommand::Hotkey(kind));
    }
    assert!(entries[6].label.starts_with("✓  "));
    assert!(entries[0].label.starts_with("    "));
    assert!(title.starts_with("Hotkey: "));
}

#[test]
fn language_and_engine_items_select_themselves() {
    let (entries, title) = language_entries(Language::En, UiLanguage::En);
    for (entry, language) in entries.iter().zip(Language::all_cases()) {
        assert_eq!(parse_tray_event(&entry.id), TrayCommand::SpeechLanguage(language));
    }
    assert!(title.ends_with(": en"));
    let engines = engine_entries(&[SttEngine::Remote], UiLanguage::En, false, false);
    for (entry, engine) in engines.iter().zip(SttEngine::all_cases()) {
        assert_eq!(parse_tray_event(&entry.id), TrayCommand::Engine(engine));
    }
    assert_eq!(engines[0].label, "✓  🌐 Remote (Whisper API)");
    assert!(engines[1].label.ends_with(")"));
    assert!(!engines[1].enabled);
    assert!(engines[0].enabled);
}

#[test]
fn model_menu_marks_the_selected_models() {
    let (entries, title) = model_entries(
        "whisper-1",
        "parakeet-v3",
        &[SttEngine::Local],
        UiLanguage::En,
        true,
        false,
    );
    assert_eq!(entries[0].label, "✓  Remote: Whisper API");
    assert_eq!(entries[1].label, "    Local: Whisper base");
    assert!(entries[1].enabled);
    assert_eq!(entries[2].label, "✓  Local: Parakeet v3");
    assert!(!entries[2].enabled);
    assert_eq!(entries[3].id, "open_settings");
    assert_eq!(title, "Model: parakeet-v3");
    let (activation, activation_title) = activation_entries(ActivationMode::Hold, UiLanguage::En);
    assert_eq!(activation[0].id, "activation_hold");
    assert!(activation[0].label.starts_with("✓  "));
    assert!(activation_title.starts_with("Activation: "));
}

#[test]
fn model_labels_and_summary() {
    assert_eq!(format_model(UiLanguage::Ru, "whisper"), "Локальная: Whisper base");
    assert_eq!(format_model(UiLanguage::Zh, "remote_auto"), "远程：Whisper API");
    assert_eq!(format_model(UiLanguage::En, "custom"), "custom");
    assert_eq!(model_summary(&[SttEngine::Remote], "whisper-1", "whisper-base"), "whisper-1");
    assert_eq!(model_summary(&[SttEngine::Native], "whisper-1", "whisper-base"), "whisper-base");
}

#[test]
fn engine_toggles_from_the_tray() {
    let order = vec![SttEngine::Remote];
    assert_eq!(next_engine_order(false, &order, SttEngine::Local), None);
    assert_eq!(
        next_engine_order(true, &order, SttEngine::Local),
        Some(vec![SttEngine::Remote, SttEngine::Local])
    );
    assert_eq!(next_engine_order(true, &order, SttEngine::Remote), None);
    assert!(local_engine_available("parakeet-v3", Some(" cmd "), false, true, false));
    assert!(!local_engine_available("parakeet-v3", Some("  "), true, true, false));
    assert!(local_engine_available("parakeet-v3", None, true, true, false));
    assert!(local_engine_available("whisper-base", None, false, false, true));
}

#[test]
fn model_submenu_appears_only_with_a_model_engine() {
    let with = tray_menu_entries(&[SttEngine::Native, SttEngine::Local]);
    assert_eq!(
        with,
        vec![
            TopEntry::Title,
            TopEntry::Separator,
            TopEntry::RecordWindow,
            TopEntry::Activation,
            TopEntry::Engines,
            TopEntry::Models,
            TopEntry::RealtimePreview,
            TopEntry::HideDelay,
            TopEntry::Autostart,
            TopEntry::Hotkey,
            TopEntry::RecordingDelay,
            TopEntry::Language,
            TopEntry::CenterOverlay,
            TopEntry::Separator,
            TopEntry::Settings,
            TopEntry::Quit,
        ]
    );
    let without = tray_menu_entries(&[SttEngine::Native]);
    assert_eq!(without.len(), 15);
    assert!(!without.contains(&TopEntry::Models));
    assert!(tray_menu_entries(&[SttEngine::Remote]).contains(&TopEntry::Models));
}

fn sample_tray_settings() -> TraySettings {
    TraySettings {
        realtime_preview: false,
        autostart: false,
        overlay_centered: false,
        wake_server_on_start: true,
        local_fallback: false,
        model: "whisper-large".to_string(),
        local_model: "whisper-base".to_string(),
        language: Language::Auto,
        ui_language: None,
        hotkey: HotkeyKind::Fn,
        activation_mode: ActivationMode::Hold,
        engine_order: vec![SttEngine::Remote],
    }
}

#[test]
fn tray_events_change_only_what_they_name() {
    let catalog = vec!["a".to_string(), "b".to_string()];
    let mut s = sample_tray_settings();
    let outcome = apply_tray_command(&mut s, &parse_tray_event("hotkey_f13"), &catalog, false, false);
    assert_eq!(outcome, TrayOutcome::HotkeyChanged(HotkeyKind::F13));
    assert_eq!(s.hotkey, HotkeyKind::F13);
    assert_eq!(s.language, Language::Auto);

    let outcome = apply_tray_command(&mut s, &parse_tray_event("lang_ru"), &catalog, false, false);
    assert_eq!(outcome, TrayOutcome::Rebuild);
    assert_eq!(s.language, Language::Ru);
    assert_eq!(s.hotkey, HotkeyKind::F13);

    let outcome = apply_tray_command(&mut s, &parse_tray_event("engine_native"), &catalog, true, false);
    assert_eq!(outcome, TrayOutcome::Rebuild);
    assert_eq!(s.engine_order, vec![SttEngine::Remote, SttEngine::Native]);
    apply_tray_command(&mut s, &parse_tray_event("engine_local"), &catalog, false, false);
    assert_eq!(s.engine_order, vec![SttEngine::Remote, SttEngine::Native]);

    assert_eq!(
        apply_tray_command(&mut s, &parse_tray_event("toggle_autostart"), &catalog, false, false),
        TrayOutcome::SetAutostart(true)
    );
    assert!(s.autostart);

    apply_tray_command(&mut s, &parse_tray_event("model_remote_1"), &catalog, false, false);
    assert_eq!(s.model, "b");
    assert_eq!(
        apply_tray_command(&mut s, &parse_tray_event("model_remote_5"), &catalog, false, false),
        TrayOutcome::Nothing
    );
    assert_eq!(s.model, "b");
    apply_tray_command(&mut s, &parse_tray_event("model_auto"), &catalog, false, false);
    assert_eq!(s.model, "whisper-1");

    assert_eq!(
        apply_tray_command(&mut s, &parse_tray_event("model_local_parakeet"), &catalog, false, false),
        TrayOutcome::Nothing
    );
    assert_eq!(s.local_model, "whisper-base");
    apply_tray_command(&mut s, &parse_tray_event("model_local_parakeet"), &catalog, false, true);
    assert_eq!(s.local_model, "parakeet-v3");
}
