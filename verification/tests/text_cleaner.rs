use voicepaste::text_cleaner::TextCleaner;

#[test]
fn test_no_suffix_returns_trimmed() {
    assert_eq!(TextCleaner::clean("  hello world  "), "hello world");
}

#[test]
fn test_strips_continuation() {
    assert_eq!(
        TextCleaner::clean("Hello world. Продолжение следует"),
        "Hello world."
    );
}

#[test]
fn test_strips_with_trailing_dots() {
    assert_eq!(
        TextCleaner::clean("Hello world. Продолжение следует..."),
        "Hello world."
    );
}

#[test]
fn test_strips_thanks_for_watching() {
    assert_eq!(
        TextCleaner::clean("Some text. Thanks for watching!"),
        "Some text."
    );
}

#[test]
fn test_strips_to_be_continued() {
    assert_eq!(
        TextCleaner::clean("Some text. To be continued..."),
        "Some text."
    );
}

#[test]
fn test_empty_input() {
    assert_eq!(TextCleaner::clean(""), "");
}

#[test]
fn test_only_suffix() {
    assert_eq!(TextCleaner::clean("Thanks for watching"), "");
}

#[test]
fn test_case_insensitive() {
    assert_eq!(
        TextCleaner::clean("Text. THANKS FOR WATCHING!!!"),
        "Text."
    );
}

#[test]
fn checked_clean_agrees_on_ordinary_text() {
    assert_eq!(
        TextCleaner::clean_checked("Some text. Thanks for watching!"),
        Some("Some text.".to_string())
    );
    assert_eq!(TextCleaner::clean_checked("  plain  "), Some("plain".to_string()));
}

#[test]
fn any_number_of_trailing_marks_after_boilerplate_is_tolerated() {
    assert_eq!(TextCleaner::clean("Text. Thanks for watching!!!!!"), "Text.");
    assert_eq!(TextCleaner::clean("Hi. To be continued?!?!?!..."), "Hi.");
}
