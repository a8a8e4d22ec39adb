use ghostwriter_lib::notify::{
    classify, classify_lowered, format_log_line, log_path, now_secs, truncate, MAX_BODY_LEN,
};
use ghostwriter_lib::config::Platform;

#[test]
fn classify_missing_api_key_literal() {
    let (title, body) = classify("API key missing");
    assert_eq!(title, "API key missing");
    assert!(body.contains("config.json"));
}

#[test]
fn classify_decrypt_failure_maps_to_missing_key() {
    let (title, _) = classify("Failed to decrypt API key: invalid data");
    assert_eq!(title, "API key missing");
}

#[test]
fn classify_api_error() {
    let (title, body) = classify("API error: 401 - Unauthorized");
    assert_eq!(title, "AI request failed");
    assert!(body.contains("401"));
}

#[test]
fn classify_network_error() {
    let (title, _) = classify("Network error: connection refused");
    assert_eq!(title, "AI request failed");
}

#[test]
fn classify_parse_error() {
    let (title, _) = classify("Parse error: bad json");
    assert_eq!(title, "AI request failed");
}

#[test]
fn classify_no_response_from_api() {
    let (title, _) = classify("No response from API");
    assert_eq!(title, "AI request failed");
}

#[test]
fn classify_api_client_error() {
    let (title, body) = classify("API client error: HTTP client build failed");
    assert_eq!(title, "API client error");
    assert!(body.contains("HTTP client"));
}

#[test]
fn classify_http_client_error() {
    let (title, _) = classify("Failed to create HTTP client: bad TLS");
    assert_eq!(title, "API client error");
}

#[test]
fn classify_clipboard_error() {
    let (title, _) = classify("Clipboard error: access denied");
    assert_eq!(title, "Clipboard error");
}

#[test]
fn classify_config_error() {
    let (title, _) = classify("Config error: malformed json");
    assert_eq!(title, "Configuration error");
}

#[test]
fn classify_fallback_for_unknown() {
    let (title, body) = classify("Something else went wrong");
    assert_eq!(title, "GhostWriter error");
    assert_eq!(body, "Something else went wrong");
}

#[test]
fn classify_is_case_insensitive() {
    assert_eq!(classify("CLIPBOARD ERROR").0, "Clipboard error");
    assert_eq!(classify("Api Error: 500").0, "AI request failed");
}

#[test]
fn classify_precedence_decrypt_beats_config() {
    let (title, _) = classify("Config error: Failed to decrypt API key");
    assert_eq!(title, "API key missing");
}

#[test]
fn classify_missing_key_body_is_advice() {
    let (_, body) = classify("api key missing");
    assert_eq!(
        body,
        "Set your OpenRouter API key in ~/.config/ghostwriter/config.json."
    );
}

#[test]
fn classify_lowered_uses_given_lower_form() {
    let (title, body) = classify_lowered("Broken", "clipboard broke");
    assert_eq!(title, "Clipboard error");
    assert_eq!(body, "Broken");
}

#[test]
fn truncate_empty_string() {
    assert_eq!(truncate(""), "");
}

#[test]
fn truncate_short_passthrough() {
    assert_eq!(truncate("hello"), "hello");
}

#[test]
fn truncate_exactly_at_limit() {
    let s = "a".repeat(MAX_BODY_LEN);
    assert_eq!(truncate(&s), s);
}

#[test]
fn truncate_one_past_limit_gets_ellipsis() {
    let s = "a".repeat(MAX_BODY_LEN + 1);
    let out = truncate(&s);
    assert!(out.ends_with('…'));
    assert_eq!(out.chars().filter(|c| *c == 'a').count(), MAX_BODY_LEN);
}

#[test]
fn truncate_long_string() {
    let long = "a".repeat(MAX_BODY_LEN + 50);
    let out = truncate(&long);
    assert!(out.ends_with('…'));
    assert!(out.len() <= MAX_BODY_LEN + 4);
}

#[test]
fn truncate_respects_multibyte_char_boundary() {
    let s = format!("{}é{}", "a".repeat(MAX_BODY_LEN - 1), "b".repeat(50));
    let out = truncate(&s);
    assert!(out.ends_with('…'));
    assert!(std::str::from_utf8(out.as_bytes()).is_ok());
}

#[test]
fn truncate_cuts_before_split_character() {
    let s = format!("{}é{}", "a".repeat(MAX_BODY_LEN - 1), "b".repeat(50));
    let out = truncate(&s);
    assert_eq!(out, format!("{}…", "a".repeat(MAX_BODY_LEN - 1)));
}

#[test]
fn format_log_line_shape() {
    let line = format_log_line(42, "Title", "Body");
    assert_eq!(line, "42 [ERROR] Title: Body\n");
}

#[test]
fn format_log_line_extreme_timestamps() {
    assert_eq!(format_log_line(0, "A", "b"), "0 [ERROR] A: b\n");
    assert_eq!(
        format_log_line(u64::MAX, "A", "b"),
        "18446744073709551615 [ERROR] A: b\n"
    );
}

#[test]
fn now_secs_is_nonzero() {
    assert!(now_secs() > 0);
}

#[test]
fn log_path_is_in_config_dir() {
    assert!(log_path(Platform::Linux).ends_with(".config/ghostwriter/ghostwriter.log"));
}

#[test]
fn seconds_or_zero_takes_reading_or_zero() {
    assert_eq!(ghostwriter_lib::notify::seconds_or_zero(Some(42)), 42);
    assert_eq!(ghostwriter_lib::notify::seconds_or_zero(None), 0);
}
