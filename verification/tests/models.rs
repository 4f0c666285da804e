use voicepaste::models::{Language, SttEngine, UiLanguage, UiText};

#[test]
fn ui_language_maps_supported_system_locales() {
    assert_eq!(UiLanguage::from_locale("ru_RU.UTF-8"), UiLanguage::Ru);
    assert_eq!(UiLanguage::from_locale("zh-CN"), UiLanguage::Zh);
    assert_eq!(UiLanguage::from_locale("en_US.UTF-8"), UiLanguage::En);
}

#[test]
fn ui_language_has_three_native_choices() {
    assert_eq!(
        UiLanguage::all_cases(),
        vec![UiLanguage::En, UiLanguage::Ru, UiLanguage::Zh]
    );
    assert_eq!(UiLanguage::Ru.text(UiText::Settings), "Настройки");
    assert_eq!(UiLanguage::Zh.text(UiText::Settings), "设置");
}

#[test]
fn languages_list_in_menu_order_with_their_codes() {
    assert_eq!(
        Language::all_cases(),
        vec![Language::Ru, Language::En, Language::Zh, Language::Auto]
    );
    assert_eq!(Language::Ru.api_value(), Some("ru"));
    assert_eq!(Language::Auto.api_value(), None);
    assert_eq!(Language::Auto.whisper_lang(), "auto");
}

#[test]
fn engines_have_stable_ids() {
    assert_eq!(SttEngine::Remote.id(), "engine_remote");
    assert_eq!(SttEngine::Native.short(), "Native");
}
