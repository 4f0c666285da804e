use voicepaste::automation::{
    keyword_payload, payload_for_transcript, replace_placeholders, AutomationConfig,
    AutomationPayload, AutomationTrigger, KeywordPosition, TranscriptDelivery,
};

#[test]
fn keyword_at_start_sends_only_the_following_text() {
    assert_eq!(
        keyword_payload("Дело: купить молоко", "дело", KeywordPosition::Start),
        AutomationPayload::Text("купить молоко".to_string())
    );
}

#[test]
fn keyword_anywhere_is_case_insensitive_and_respects_words() {
    assert_eq!(
        keyword_payload(
            "пожалуйста ДЕЛО отправить отчёт",
            "дело",
            KeywordPosition::Anywhere
        ),
        AutomationPayload::Text("отправить отчёт".to_string())
    );
    assert_eq!(
        keyword_payload("переделом не команда", "дело", KeywordPosition::Anywhere),
        AutomationPayload::NoMatch
    );
}

#[test]
fn keyword_at_end_sends_text_before_the_command_word() {
    assert_eq!(
        keyword_payload("купить молоко, дело.", "дело", KeywordPosition::End),
        AutomationPayload::Text("купить молоко".to_string())
    );
}

#[test]
fn matched_keyword_without_text_is_not_sent_or_pasted() {
    assert_eq!(
        keyword_payload("дело", "дело", KeywordPosition::Start),
        AutomationPayload::EmptyAfterKeyword
    );
}

#[test]
fn fn_control_uses_the_complete_transcript() {
    let config = AutomationConfig {
        enabled: true,
        trigger: AutomationTrigger::FnControl,
        ..AutomationConfig::default()
    };
    assert_eq!(
        payload_for_transcript(
            &config,
            TranscriptDelivery::AutomationHotkey,
            "новая заметка"
        ),
        AutomationPayload::Text("новая заметка".to_string())
    );
}

#[test]
fn placeholders_are_safe_for_json_and_urls() {
    assert_eq!(
        replace_placeholders(
            "{text_json}|{text_url}|{secret}",
            "тест & ok",
            Some("token")
        ),
        "\"тест & ok\"|%D1%82%D0%B5%D1%81%D1%82%20%26%20ok|token"
    );
}

#[test]
fn json_placeholder_escapes_quotes_backslashes_and_controls() {
    assert_eq!(
        replace_placeholders("{text_json}", "a\"b\\c\n\u{1}\u{7f}é", None),
        "\"a\\\"b\\\\c\\n\\u0001\u{7f}é\""
    );
    assert_eq!(replace_placeholders("{secret}-{text}", "x", None), "-x");
}

#[test]
fn placeholders_inside_the_transcript_are_not_filled() {
    assert_eq!(replace_placeholders("{text}", "{secret}", Some("token")), "{secret}");
    assert_eq!(
        replace_placeholders("{text_json} {secret}", "{text}", Some("k")),
        "\"{text}\" k"
    );
}
