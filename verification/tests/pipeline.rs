use voicetabs::pipeline::{segment_duration_ms, segment_model_id, status_after_success};
use voicetabs::protocol::{request_header, response_text, REQUEST_SAMPLE_RATE};
use voicetabs::stt::SttStatus;

#[test]
fn durations() {
    assert_eq!(segment_duration_ms(100, 350), 250);
    assert_eq!(segment_duration_ms(350, 100), 0);
    assert_eq!(segment_duration_ms(7, 7), 0);
}

#[test]
fn model_id_recorded_with_segment() {
    let ready = SttStatus::Ready { backend: "cpu".into(), model_id: "ggml-large-v3".into() };
    let loading = SttStatus::Loading { backend: "cpu".into() };
    assert_eq!(segment_model_id("openai", "gpt-4o-mini-transcribe", &ready), "gpt-4o-mini-transcribe");
    assert_eq!(segment_model_id("cpu", "local", &ready), "ggml-large-v3");
    assert_eq!(segment_model_id("cpu", "local", &loading), "unknown");
}

#[test]
fn error_status_recovers_after_success() {
    let err = SttStatus::Error { message: "respawn failed".into() };
    assert_eq!(
        status_after_success(&err, "openai", "gpt-4o-mini-transcribe"),
        Some(SttStatus::Ready { backend: "openai".into(), model_id: "gpt-4o-mini-transcribe".into() })
    );
    let ready = SttStatus::Ready { backend: "cpu".into(), model_id: "m".into() };
    assert_eq!(status_after_success(&ready, "openai", "x"), None);
}

#[test]
fn request_header_fields() {
    let h = request_header("abc".to_string(), 16_000, "pt", "Termos: x.");
    assert_eq!(h.request_id, "abc");
    assert_eq!(h.sample_rate, REQUEST_SAMPLE_RATE);
    assert_eq!(h.sample_rate, 16_000);
    assert_eq!(h.language, "pt");
    assert_eq!(h.initial_prompt, "Termos: x.");
    assert_eq!(h.n_samples, 16_000);
}

#[test]
fn response_text_cases() {
    assert_eq!(response_text(Some("oi".into()), None), Ok("oi".to_string()));
    assert_eq!(response_text(Some("oi".into()), Some("bad".into())), Err("bad".to_string()));
    assert_eq!(response_text(None, Some("bad".into())), Err("bad".to_string()));
    assert_eq!(
        response_text(None, None),
        Err("response missing both text and error".to_string())
    );
}

use voicetabs::filter::DropReason;
use voicetabs::pipeline::{failure_status, row_timestamp_ms, segment_after_transcription, PipelineOutcome};
use voicetabs::stt::BackendError;

#[test]
fn kept_transcription_becomes_segment_in_snapshot_tab() {
    let ready = SttStatus::Ready { backend: "cpu".into(), model_id: "ggml-small".into() };
    let out = segment_after_transcription(
        "Olá mundo".to_string(),
        false,
        false,
        false,
        12,
        1_000,
        4_500,
        "cpu",
        "local",
        &ready,
    );
    match out {
        PipelineOutcome::Insert(d) => {
            assert_eq!(d.tab_id, 12);
            assert_eq!(d.text, "Olá mundo");
            assert_eq!(d.audio_path, "1000.wav");
            assert_eq!(d.started_at, 1_000);
            assert_eq!(d.ended_at, 4_500);
            assert_eq!(d.duration_ms, 3_500);
            assert_eq!(d.model_id, "ggml-small");
        }
        other => panic!("expected a segment, got {other:?}"),
    }
}

#[test]
fn filtered_transcription_is_dropped() {
    let ready = SttStatus::Ready { backend: "cpu".into(), model_id: "m".into() };
    let out = segment_after_transcription(
        "   ".to_string(), false, false, false, 1, 0, 10, "cpu", "local", &ready,
    );
    assert_eq!(out, PipelineOutcome::Dropped(DropReason::Empty));
    let out = segment_after_transcription(
        "hello".to_string(), false, false, true, 1, 0, 10, "openai", "gpt-4o-mini-transcribe", &ready,
    );
    assert_eq!(out, PipelineOutcome::Dropped(DropReason::LowEnergy));
}

#[test]
fn failed_transcription_status() {
    assert_eq!(
        failure_status(&BackendError::Network("timeout".into())),
        SttStatus::Error { message: "network: timeout".into() }
    );
    assert_eq!(
        failure_status(&BackendError::Auth),
        SttStatus::Error { message: "authentication failed (check API key)".into() }
    );
    assert_eq!(BackendError::RateLimited.message(), "rate limited");
    assert_eq!(BackendError::NotReady.message(), "backend not ready");
    assert_eq!(BackendError::MissingApiKey.message(), "missing OpenAI API key");
    assert_eq!(BackendError::Server("500".into()).message(), "server error: 500");
    assert_eq!(BackendError::Worker("x".into()).message(), "worker error: x");
}

#[test]
fn row_timestamps() {
    assert_eq!(row_timestamp_ms(1_700), 1_700);
    assert_eq!(row_timestamp_ms(-5), 0);
}
