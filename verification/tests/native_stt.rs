use std::sync::atomic::{AtomicUsize, Ordering};
use std::sync::Arc;
use voicepaste::native_stt::{helper_result, last_line_of, NativeSttService};
use voicepaste::transcription_service::{CascadeTranscriber, TranscriptionService};

struct MockNative {
    result: Result<String, String>,
    fired: Arc<AtomicUsize>,
}

impl TranscriptionService for MockNative {
    fn transcribe(&self, _p: &str, _l: Option<&str>) -> Result<String, String> {
        self.fired.fetch_add(1, Ordering::SeqCst);
        self.result.clone()
    }
}

fn dummy_path() -> &'static str {
    "/tmp/test.wav"
}

#[test]
fn is_available_is_false_off_macos() {
    assert!(!NativeSttService::is_available(false));
    assert!(NativeSttService::is_available(true));
}

#[test]
fn real_native_stt_surfaces_clean_error_when_helper_missing() {
    let svc = NativeSttService::new("en");
    assert!(svc.needs_lookup());
    let lookup = Err("native STT helper binary not found. Build it first.".to_string());
    let result = svc.prepare(dummy_path(), Some("en"), lookup, false);
    assert!(result.is_err(), "expected Err when helper is missing, got Ok");
    let err = match result {
        Err(e) => e,
        Ok(_) => unreachable!(),
    };
    assert!(
        err.contains("audio file does not exist")
            || err.contains("native STT helper binary not found")
            || err.contains("Failed to spawn native STT helper"),
        "unexpected error message: {}",
        err
    );
}

#[test]
fn transcribe_passes_caller_language_code() {
    let svc = NativeSttService::new_for_test("en", "/definitely/does/not/exist/native_stt_helper_zzz");
    assert!(!svc.needs_lookup());
    let missing = svc.prepare(dummy_path(), Some("ru-RU"), Err("unused".to_string()), false);
    assert!(missing.is_err());
    let ready = svc
        .prepare(dummy_path(), Some("ru-RU"), Err("unused".to_string()), true)
        .ok()
        .unwrap();
    assert_eq!(ready.locale, "ru-RU");
    assert_eq!(ready.helper, "/definitely/does/not/exist/native_stt_helper_zzz");
    let default_locale = svc
        .prepare(dummy_path(), None, Err("unused".to_string()), true)
        .ok()
        .unwrap();
    assert_eq!(default_locale.locale, "en");
}

#[test]
fn missing_audio_file_is_reported_with_its_path() {
    let svc = NativeSttService::new("en");
    let err = svc
        .prepare("/tmp/none.wav", None, Ok("/bin/native_stt".to_string()), false)
        .err()
        .unwrap();
    assert_eq!(err, "audio file does not exist: \"/tmp/none.wav\"");
}

#[test]
fn mock_native_works_as_cascade_tier() {
    struct FailingRemote;
    impl TranscriptionService for FailingRemote {
        fn transcribe(&self, _p: &str, _l: Option<&str>) -> Result<String, String> {
            Err("remote 500".to_string())
        }
    }
    let fired = Arc::new(AtomicUsize::new(0));
    let mock = MockNative {
        result: Ok("native wins".to_string()),
        fired: fired.clone(),
    };
    let cascade = CascadeTranscriber::new(vec![Box::new(FailingRemote), Box::new(mock)]);
    let result = cascade.transcribe(dummy_path(), None).unwrap();
    assert_eq!(result, "native wins");
    assert_eq!(fired.load(Ordering::SeqCst), 1);
}

#[test]
fn helper_output_reads_the_last_json_line() {
    assert_eq!(
        helper_result(true, "exit status: 0", "", "log line\n{\"type\":\"result\",\"text\":\" привет \"}\n"),
        Ok("привет".to_string())
    );
    assert_eq!(
        helper_result(true, "exit status: 0", "", "{\"type\":\"result\"}"),
        Err("native STT helper: JSON missing 'text' field".to_string())
    );
    assert_eq!(
        helper_result(true, "exit status: 0", "", ""),
        Err("native STT helper produced no output".to_string())
    );
    let invalid = helper_result(true, "exit status: 0", "", "not json").err().unwrap();
    assert!(invalid.starts_with("native STT helper: invalid JSON: "));
    assert!(invalid.ends_with(" (line: \"not json\")"));
}

#[test]
fn helper_failures_surface_stderr() {
    assert_eq!(
        helper_result(false, "exit status: 1", " {\"code\":\"auth_denied\"} ", ""),
        Err("native STT helper failed: {\"code\":\"auth_denied\"}".to_string())
    );
    assert_eq!(
        helper_result(false, "exit status: 1", "", ""),
        Err("native STT helper exited with status exit status: 1".to_string())
    );
}

#[test]
fn last_line_follows_str_lines() {
    assert_eq!(last_line_of("a\nb\n"), Some("b".to_string()));
    assert_eq!(last_line_of("a\r\nb\r\n"), Some("b".to_string()));
    assert_eq!(last_line_of("a\n\n"), Some("".to_string()));
    assert_eq!(last_line_of("one"), Some("one".to_string()));
    assert_eq!(last_line_of(""), None);
    assert_eq!(last_line_of("a\nb\r"), Some("b\r".to_string()));
}
