use std::sync::atomic::{AtomicUsize, Ordering};
use std::sync::Arc;
use voicepaste::models::Language;
use voicepaste::remote::Transcriber;
use voicepaste::transcription_service::{
    cascade_failure, cascade_step, command_result, request_language, shell_quote, CascadeStep,
    CascadeTranscriber, CommandRun, CommandTranscriptionService, RetryTranscriber,
    ServerTranscriptionService, ShellQuoting, TranscriptionService,
};

struct MockService {
    results: Vec<Result<String, String>>,
    call_count: Arc<AtomicUsize>,
}

impl MockService {
    fn new(results: Vec<Result<String, String>>) -> (Self, Arc<AtomicUsize>) {
        let count = Arc::new(AtomicUsize::new(0));
        (
            Self {
                results,
                call_count: count.clone(),
            },
            count,
        )
    }
}

impl TranscriptionService for MockService {
    fn transcribe(&self, _file_path: &str, _language_code: Option<&str>) -> Result<String, String> {
        let idx = self.call_count.fetch_add(1, Ordering::SeqCst);
        if idx < self.results.len() {
            self.results[idx].clone()
        } else {
            Err("unexpected call".to_string())
        }
    }
}

struct OneShot {
    result: Result<String, String>,
    fired: Arc<AtomicUsize>,
}

impl TranscriptionService for OneShot {
    fn transcribe(&self, _p: &str, _l: Option<&str>) -> Result<String, String> {
        self.fired.fetch_add(1, Ordering::SeqCst);
        self.result.clone()
    }
}

fn one_shot(result: Result<String, String>) -> (Box<dyn TranscriptionService>, Arc<AtomicUsize>) {
    let fired = Arc::new(AtomicUsize::new(0));
    let svc = OneShot {
        result,
        fired: fired.clone(),
    };
    (Box::new(svc), fired)
}

fn dummy_path() -> &'static str {
    "/tmp/test.wav"
}

#[test]
fn command_provider_renders_all_placeholders() {
    let provider =
        CommandTranscriptionService::new("parakeet --in {input_path} --out {output_path} --lang {language}");
    let rendered = provider.render_command("/tmp/input voice.wav", "/tmp/output.txt", Some("ru"));
    assert!(rendered.contains("/tmp/input voice.wav"));
    assert!(rendered.contains("/tmp/output.txt"));
    assert!(rendered.ends_with("--lang ru"));
}

#[test]
fn command_provider_quotes_paths_and_defaults_language() {
    let provider = CommandTranscriptionService::new("run {input_path} {model_dir} {language}")
        .with_model_dir("/models/it's here");
    assert_eq!(
        provider.render_command("/tmp/a b.wav", "/tmp/o.txt", None),
        "run '/tmp/a b.wav' '/models/it'\\''s here' auto"
    );
    assert_eq!(
        provider.render_command_with(ShellQuoting::Windows, "C:\\a \"b\".wav", "o", Some("en")),
        "run \"C:\\a \\\"b\\\".wav\" \"/models/it's here\" en"
    );
    assert_eq!(shell_quote("x", ShellQuoting::Posix), "'x'");
}

#[test]
fn command_provider_reports_blank_template() {
    assert!(!CommandTranscriptionService::new("   ").is_configured());
    assert!(CommandTranscriptionService::new("whisper {input_path}").is_configured());
    assert_eq!(
        CommandTranscriptionService::not_configured_error(),
        "local command provider is not configured"
    );
}

#[test]
fn command_output_prefers_the_output_file_then_stdout() {
    let run = || CommandRun::Finished {
        succeeded: true,
        status: "exit status: 0".to_string(),
        stdout: Some(" from stdout \n".to_string()),
        stderr: String::new(),
    };
    assert_eq!(
        command_result(run(), Some("  from file\n".to_string())),
        Ok("from file".to_string())
    );
    assert_eq!(command_result(run(), None), Ok("from stdout".to_string()));
    let silent = CommandRun::Finished {
        succeeded: true,
        status: "exit status: 0".to_string(),
        stdout: Some("  ".to_string()),
        stderr: String::new(),
    };
    assert_eq!(
        command_result(silent, None),
        Err("local STT command returned empty result".to_string())
    );
}

#[test]
fn command_failures_carry_stderr_or_status() {
    let failed = CommandRun::Finished {
        succeeded: false,
        status: "exit status: 2".to_string(),
        stdout: None,
        stderr: "  model missing \n".to_string(),
    };
    assert_eq!(
        command_result(failed, None),
        Err("local STT command failed: model missing".to_string())
    );
    let quiet = CommandRun::Finished {
        succeeded: false,
        status: "exit status: 2".to_string(),
        stdout: None,
        stderr: String::new(),
    };
    assert_eq!(
        command_result(quiet, None),
        Err("local STT command exited with exit status: 2".to_string())
    );
    assert_eq!(
        command_result(CommandRun::NotStarted("not found".to_string()), None),
        Err("failed to start local STT command: not found".to_string())
    );
}

#[test]
fn test_primary_success_first_attempt() {
    let (mock, count) = MockService::new(vec![Ok("hello".to_string())]);
    let retry = RetryTranscriber::new(Box::new(mock), None, 3);
    assert_eq!(retry.transcribe(dummy_path(), None).unwrap(), "hello");
    assert_eq!(count.load(Ordering::SeqCst), 1);
}

#[test]
fn test_primary_success_second_attempt() {
    let (mock, count) = MockService::new(vec![Err("fail".to_string()), Ok("hello".to_string())]);
    let retry = RetryTranscriber::new(Box::new(mock), None, 3);
    assert_eq!(retry.transcribe(dummy_path(), None).unwrap(), "hello");
    assert_eq!(count.load(Ordering::SeqCst), 2);
}

#[test]
fn test_primary_success_third_attempt() {
    let (mock, count) = MockService::new(vec![
        Err("fail1".to_string()),
        Err("fail2".to_string()),
        Ok("hello".to_string()),
    ]);
    let retry = RetryTranscriber::new(Box::new(mock), None, 3);
    assert_eq!(retry.transcribe(dummy_path(), None).unwrap(), "hello");
    assert_eq!(count.load(Ordering::SeqCst), 3);
}

#[test]
fn test_all_fail_no_fallback() {
    let (mock, _) = MockService::new(vec![
        Err("fail1".to_string()),
        Err("fail2".to_string()),
        Err("fail3".to_string()),
    ]);
    let retry = RetryTranscriber::new(Box::new(mock), None, 3);
    let err = retry.transcribe(dummy_path(), None).unwrap_err();
    assert_eq!(err, "fail3");
}

#[test]
fn test_all_fail_with_fallback_success() {
    let (primary, _) = MockService::new(vec![
        Err("fail1".to_string()),
        Err("fail2".to_string()),
        Err("fail3".to_string()),
    ]);
    let (fallback, count) = MockService::new(vec![Ok("fallback text".to_string())]);
    let retry = RetryTranscriber::new(Box::new(primary), Some(Box::new(fallback)), 3);
    assert_eq!(retry.transcribe(dummy_path(), None).unwrap(), "fallback text");
    assert_eq!(count.load(Ordering::SeqCst), 1);
}

#[test]
fn test_all_fail_fallback_also_fails() {
    let (primary, _) = MockService::new(vec![
        Err("primary_err".to_string()),
        Err("primary_err".to_string()),
        Err("primary_err".to_string()),
    ]);
    let (fallback, _) = MockService::new(vec![Err("fallback_err".to_string())]);
    let retry = RetryTranscriber::new(Box::new(primary), Some(Box::new(fallback)), 3);
    let err = retry.transcribe(dummy_path(), None).unwrap_err();
    assert_eq!(err, "primary_err");
}

#[test]
fn test_success_before_fallback_not_called() {
    let (primary, pcount) = MockService::new(vec![Err("fail".to_string()), Ok("success".to_string())]);
    let (fallback, fcount) = MockService::new(vec![Ok("fallback".to_string())]);
    let retry = RetryTranscriber::new(Box::new(primary), Some(Box::new(fallback)), 3);
    assert_eq!(retry.transcribe(dummy_path(), None).unwrap(), "success");
    assert_eq!(pcount.load(Ordering::SeqCst), 2);
    assert_eq!(fcount.load(Ordering::SeqCst), 0);
}

#[test]
fn test_max_attempts_one() {
    let (primary, _) = MockService::new(vec![Err("fail".to_string())]);
    let (fallback, count) = MockService::new(vec![Ok("fb".to_string())]);
    let retry = RetryTranscriber::new(Box::new(primary), Some(Box::new(fallback)), 1);
    assert_eq!(retry.transcribe(dummy_path(), None).unwrap(), "fb");
    assert_eq!(count.load(Ordering::SeqCst), 1);
}

#[test]
fn zero_attempts_still_tries_once() {
    let (primary, count) = MockService::new(vec![Err("".to_string())]);
    let retry = RetryTranscriber::new(Box::new(primary), None, 0);
    assert_eq!(
        retry.transcribe(dummy_path(), None).unwrap_err(),
        "All transcription attempts failed"
    );
    assert_eq!(count.load(Ordering::SeqCst), 1);
}

#[test]
fn test_language_code_passthrough() {
    struct CapturingService {
        captured: Arc<parking_lot::Mutex<Option<String>>>,
    }
    impl TranscriptionService for CapturingService {
        fn transcribe(&self, _file_path: &str, language_code: Option<&str>) -> Result<String, String> {
            *self.captured.lock() = language_code.map(String::from);
            Ok("ok".to_string())
        }
    }

    let captured = Arc::new(parking_lot::Mutex::new(None));
    let service = CapturingService {
        captured: captured.clone(),
    };
    let retry = RetryTranscriber::new(Box::new(service), None, 3);
    let _ = retry.transcribe(dummy_path(), Some("ru"));
    assert_eq!(*captured.lock(), Some("ru".to_string()));
}

#[test]
fn test_cascade_tries_in_order() {
    let (t1, c1) = one_shot(Err("t1 fail".to_string()));
    let (t2, c2) = one_shot(Err("t2 fail".to_string()));
    let (t3, c3) = one_shot(Ok("t3 win".to_string()));
    let cascade = CascadeTranscriber::new(vec![t1, t2, t3]);
    let result = cascade.transcribe(dummy_path(), None).unwrap();
    assert_eq!(result, "t3 win");
    assert_eq!(c1.load(Ordering::SeqCst), 1);
    assert_eq!(c2.load(Ordering::SeqCst), 1);
    assert_eq!(c3.load(Ordering::SeqCst), 1);
}

#[test]
fn test_cascade_stops_on_empty_by_default() {
    let (t1, c1) = one_shot(Ok(String::new()));
    let (t2, c2) = one_shot(Ok("t2 should not run".to_string()));
    let cascade = CascadeTranscriber::new(vec![t1, t2]);
    let result = cascade.transcribe(dummy_path(), None).unwrap();
    assert_eq!(result, "");
    assert_eq!(c1.load(Ordering::SeqCst), 1);
    assert_eq!(c2.load(Ordering::SeqCst), 0);
}

#[test]
fn test_cascade_continues_on_empty_when_disabled() {
    let (t1, c1) = one_shot(Ok(String::new()));
    let (t2, c2) = one_shot(Ok("t2 ran".to_string()));
    let cascade = CascadeTranscriber::new(vec![t1, t2]).with_stop_on_empty(false);
    let result = cascade.transcribe(dummy_path(), None).unwrap();
    assert_eq!(result, "t2 ran");
    assert_eq!(c1.load(Ordering::SeqCst), 1);
    assert_eq!(c2.load(Ordering::SeqCst), 1);
}

#[test]
fn test_cascade_empty_tiers_returns_error() {
    let cascade = CascadeTranscriber::new(vec![]);
    let err = cascade.transcribe(dummy_path(), None).unwrap_err();
    assert_eq!(err, "no transcription tiers configured");
    assert!(cascade.is_empty());
    assert_eq!(cascade.len(), 0);
}

#[test]
fn test_cascade_logs_each_attempt() {
    let (t1, c1) = one_shot(Err("first fail".to_string()));
    let (t2, c2) = one_shot(Err("second fail".to_string()));
    let (t3, c3) = one_shot(Err("third fail".to_string()));
    let cascade = CascadeTranscriber::new(vec![t1, t2, t3]);
    let err = cascade.transcribe(dummy_path(), None).unwrap_err();
    assert_eq!(err, "third fail");
    assert_eq!(c1.load(Ordering::SeqCst), 1);
    assert_eq!(c2.load(Ordering::SeqCst), 1);
    assert_eq!(c3.load(Ordering::SeqCst), 1);
}

#[test]
fn test_cascade_all_fail_returns_last_error() {
    let (t1, _) = one_shot(Err("e1".to_string()));
    let (t2, _) = one_shot(Err("e2".to_string()));
    let (t3, _) = one_shot(Err("e3".to_string()));
    let cascade = CascadeTranscriber::new(vec![t1, t2, t3]);
    let err = cascade.transcribe(dummy_path(), None).unwrap_err();
    assert_eq!(err, "e3");
}

#[test]
fn cascade_of_empty_answers_reports_empty_result() {
    let (t1, _) = one_shot(Ok(String::new()));
    let (t2, _) = one_shot(Ok(String::new()));
    let cascade = CascadeTranscriber::new(vec![t1, t2]).with_stop_on_empty(false);
    assert_eq!(cascade.len(), 2);
    assert_eq!(cascade.transcribe(dummy_path(), None).unwrap_err(), "empty result");
}

#[test]
fn cascade_step_decides_each_answer() {
    assert!(matches!(cascade_step(Ok(String::new()), true), CascadeStep::Stop(Ok(t)) if t.is_empty()));
    assert!(matches!(cascade_step(Ok(String::new()), false), CascadeStep::Continue(e) if e == "empty result"));
    assert!(matches!(cascade_step(Err("boom".to_string()), true), CascadeStep::Continue(e) if e == "boom"));
    assert_eq!(cascade_failure(String::new()), "All transcription tiers failed");
    assert_eq!(cascade_failure("e".to_string()), "e");
}

#[test]
fn server_requests_use_the_callers_language() {
    assert_eq!(request_language(Some("ru"), Language::En), Language::Ru);
    assert_eq!(request_language(Some("en"), Language::Ru), Language::En);
    assert_eq!(request_language(Some("de"), Language::Zh), Language::Zh);
    assert_eq!(request_language(None, Language::Auto), Language::Auto);
    let server = ServerTranscriptionService::new(
        Transcriber::new(),
        "https://api.example.com/v1/",
        "sk-test",
        Language::Auto,
        Some("auto"),
    );
    let request = server.request(Some("en"));
    assert_eq!(request.url, "https://api.example.com/v1/audio/transcriptions");
    assert_eq!(request.language, Some("en".to_string()));
    assert_eq!(request.model, None);
    assert_eq!(request.authorization, Some("Bearer sk-test".to_string()));
    let quiet = ServerTranscriptionService::new(Transcriber::new(), "http://h", "", Language::Ru, Some("whisper-1"));
    let request = quiet.request(None);
    assert_eq!(request.language, Some("ru".to_string()));
    assert_eq!(request.model, Some("whisper-1".to_string()));
    assert_eq!(request.authorization, None);
}
