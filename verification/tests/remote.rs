use voicepaste::remote::{
    authorization, content_length, decimal_string, endpoint_url, env_override, masked_base_url, model_field,
    model_ids, parse_probe_args, transcription_result, ProbeArgs,
};

#[test]
fn requests_are_built_from_the_settings() {
    assert_eq!(
        endpoint_url("https://api.openai.com/v1//", "/audio/transcriptions"),
        "https://api.openai.com/v1/audio/transcriptions"
    );
    assert_eq!(model_field(Some("auto")), None);
    assert_eq!(model_field(Some("")), None);
    assert_eq!(model_field(Some("whisper-1")), Some("whisper-1".to_string()));
    assert_eq!(authorization(""), None);
    assert_eq!(authorization("sk"), Some("Bearer sk".to_string()));
    assert_eq!(env_override(Some(""), "cfg"), "cfg");
    assert_eq!(env_override(Some("env"), "cfg"), "env");
    assert_eq!(env_override(None, "cfg"), "cfg");
}

#[test]
fn transcription_responses_are_read() {
    assert_eq!(
        transcription_result(true, 200, "{\"text\":\"  hello \"}"),
        Ok("hello".to_string())
    );
    assert_eq!(
        transcription_result(true, 200, "{\"text\":\"   \"}"),
        Err("Empty transcription result".to_string())
    );
    assert_eq!(
        transcription_result(true, 200, "{}"),
        Err("Empty transcription result".to_string())
    );
    assert_eq!(
        transcription_result(false, 500, "oops"),
        Err("HTTP 500: oops".to_string())
    );
    let bad = transcription_result(true, 200, "<html>").unwrap_err();
    assert!(bad.starts_with("JSON parse error: "));
}

#[test]
fn model_lists_hold_string_ids_sorted() {
    assert_eq!(
        model_ids("{\"data\":[{\"id\":\"b\"},{\"id\":3},{\"id\":\"a\"}]}"),
        vec!["a".to_string(), "b".to_string()]
    );
    assert_eq!(
        model_ids("{\"data\":[{\"id\":\"whisper-b\"},{\"id\":\"whisper-a\"},{\"id\":\"whisper\"},{\"id\":\"Zed\"},{\"id\":\"whisper-a\"}]}"),
        vec!["Zed", "whisper", "whisper-a", "whisper-a", "whisper-b"]
    );
    assert!(model_ids("{\"data\":{}}").is_empty());
    assert!(model_ids("not json").is_empty());
}

#[test]
fn decimals_are_written_in_full() {
    assert_eq!(decimal_string(0), "0");
    assert_eq!(decimal_string(404), "404");
    assert_eq!(decimal_string(u64::MAX), "18446744073709551615");
}

#[test]
fn model_probe_arguments() {
    let args = |v: &[&str]| v.iter().map(|s| s.to_string()).collect::<Vec<String>>();
    assert_eq!(
        parse_probe_args(&args(&["--api-key", "k", "--endpoint", "http://x"])),
        Ok(ProbeArgs {
            endpoint: "http://x".to_string(),
            api_key: "k".to_string()
        })
    );
    assert_eq!(
        parse_probe_args(&args(&["--endpoint"])),
        Err("missing value for --endpoint".to_string())
    );
    assert_eq!(
        parse_probe_args(&args(&["--verbose"])),
        Err("unknown argument: --verbose".to_string())
    );
    assert_eq!(
        parse_probe_args(&args(&[])),
        Err("missing required --endpoint".to_string())
    );
}

#[test]
fn endpoints_are_shown_by_host() {
    assert_eq!(masked_base_url("https://api.openai.com/v1"), "api.openai.com");
    assert_eq!(masked_base_url("http://localhost:8080/"), "localhost:8080");
    assert_eq!(masked_base_url("https://https://x/y"), "x");
    assert_eq!(masked_base_url("plain"), "plain");
}

#[test]
fn download_size_comes_from_the_first_length_header() {
    let headers = "HTTP/1.1 302 Found\r\nLocation: x\r\ncontent-length: 0\r\n\r\nHTTP/2 200\r\ncontent-length: 147951465\r\n";
    assert_eq!(content_length(headers), Some(0));
    assert_eq!(content_length("HTTP/2 200\nContent-Length: abc\ncontent-length: 12\n"), Some(12));
    assert_eq!(content_length("Content-Length: 99"), Some(99));
    assert_eq!(content_length("HTTP/2 200\r\nserver: x\r\n"), None);
    assert_eq!(content_length(""), None);
}
