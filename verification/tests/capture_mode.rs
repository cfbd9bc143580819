use voicetabs::capture::CaptureMode;
use voicetabs::commands::{parse_capture_mode, validate_api_key};

#[test]
fn parse_round_trip() {
    for m in [CaptureMode::AlwaysOn, CaptureMode::Ptt] {
        assert_eq!(CaptureMode::parse(m.as_str()), Some(m));
    }
}

#[test]
fn parse_unknown_returns_none() {
    assert!(CaptureMode::parse("toggle").is_none());
}

#[test]
fn mode_spellings() {
    assert_eq!(CaptureMode::AlwaysOn.as_str(), "always_on");
    assert_eq!(CaptureMode::Ptt.as_str(), "ptt");
    assert_eq!(CaptureMode::parse("ptt"), Some(CaptureMode::Ptt));
    assert_eq!(CaptureMode::parse("PTT"), None);
    assert_eq!(CaptureMode::parse(""), None);
}

#[test]
fn default_is_always_on() {
    assert_eq!(CaptureMode::default(), CaptureMode::AlwaysOn);
}

#[test]
fn toggled_swaps_modes() {
    assert_eq!(CaptureMode::AlwaysOn.toggled(), CaptureMode::Ptt);
    assert_eq!(CaptureMode::Ptt.toggled(), CaptureMode::AlwaysOn);
}

#[test]
fn parse_capture_mode_accepts_known_values() {
    assert_eq!(parse_capture_mode("always_on"), Ok(CaptureMode::AlwaysOn));
    assert_eq!(parse_capture_mode("ptt"), Ok(CaptureMode::Ptt));
}

#[test]
fn parse_capture_mode_refuses_unknown_value() {
    let e = parse_capture_mode("toggle").unwrap_err();
    assert_eq!(e.code, "VALIDATION");
    assert_eq!(e.message, "unknown capture_mode: toggle");
}

#[test]
fn api_key_must_not_be_blank() {
    assert!(validate_api_key("sk-123").is_ok());
    assert!(validate_api_key("  sk  ").is_ok());
    let e = validate_api_key("  \t ").unwrap_err();
    assert_eq!(e.code, "EMPTY_KEY");
    assert_eq!(e.message, "API key must not be empty");
    assert!(validate_api_key("").is_err());
}

use voicetabs::commands::{i64_to_decimal, segment_not_found, tab_not_found};

#[test]
fn not_found_errors_name_the_id() {
    let e = tab_not_found(999);
    assert_eq!(e.code, "TAB_NOT_FOUND");
    assert_eq!(e.message, "tab 999 not found");
    let e = segment_not_found(12345);
    assert_eq!(e.code, "SEGMENT_NOT_FOUND");
    assert_eq!(e.message, "segment 12345 not found");
}

#[test]
fn decimal_spelling_of_ids() {
    assert_eq!(i64_to_decimal(0), "0");
    assert_eq!(i64_to_decimal(-42), "-42");
    assert_eq!(i64_to_decimal(i64::MAX), i64::MAX.to_string());
    assert_eq!(i64_to_decimal(i64::MIN), i64::MIN.to_string());
}

use voicetabs::commands::{backend_build_error, status_after_key_clear, status_after_switch};
use voicetabs::stt::{api_key_or_missing, BackendError, BackendKind, SttStatus};

#[test]
fn backend_errors_for_the_frontend() {
    let e = backend_build_error(&BackendError::MissingApiKey);
    assert_eq!(e.code, "OPENAI_NO_KEY");
    assert_eq!(e.message, "configure an OpenAI API key before selecting this backend");
    let e = backend_build_error(&BackendError::NotReady);
    assert_eq!(e.code, "BACKEND_BUILD_ERROR");
    assert_eq!(e.message, "backend not ready");
}

#[test]
fn statuses_after_backend_changes() {
    let ready = SttStatus::Ready { backend: "cpu".into(), model_id: "ggml-small".into() };
    let loading = SttStatus::Loading { backend: "cpu".into() };
    assert_eq!(
        status_after_switch(BackendKind::Openai, &ready),
        SttStatus::Ready { backend: "openai".into(), model_id: "gpt-4o-mini-transcribe".into() }
    );
    assert_eq!(
        status_after_switch(BackendKind::Local, &ready),
        SttStatus::Ready { backend: "local".into(), model_id: "ggml-small".into() }
    );
    assert_eq!(
        status_after_switch(BackendKind::Local, &loading),
        SttStatus::Ready { backend: "local".into(), model_id: "local-whisper".into() }
    );
    assert_eq!(
        status_after_key_clear(&loading),
        SttStatus::Ready { backend: "cpu".into(), model_id: "local-whisper".into() }
    );
}

#[test]
fn missing_key_means_no_cloud_backend() {
    assert_eq!(api_key_or_missing::<()>(Ok("sk".into())), Ok("sk".to_string()));
    assert_eq!(api_key_or_missing(Err(())), Err(BackendError::MissingApiKey));
}
