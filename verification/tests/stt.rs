use voicetabs::stt::{
    classify_status, env_override, nvidia_smi_reports_cuda, openai_model_id, preset_backend,
    probed_backend, ready_model_id, status_backend_id, wmic_reports_nvidia, Backend, BackendKind,
    HttpOutcome, SttStatus,
};

#[test]
fn kind_parses_known_values() {
    assert_eq!(BackendKind::from_setting("local"), BackendKind::Local);
    assert_eq!(BackendKind::from_setting("openai"), BackendKind::Openai);
    assert_eq!(BackendKind::from_setting("garbage"), BackendKind::Local);
}

#[test]
fn kind_round_trips_through_its_setting() {
    for k in [BackendKind::Local, BackendKind::Openai] {
        assert_eq!(BackendKind::from_setting(k.as_str()), k);
    }
    assert_eq!(status_backend_id(BackendKind::Local), "cpu");
    assert_eq!(status_backend_id(BackendKind::Openai), "openai");
}

#[test]
fn env_override_cpu() {
    assert_eq!(env_override(Some("0")), Some(Backend::Cpu));
}

#[test]
fn env_override_cuda_for_any_truthy_value() {
    assert_eq!(env_override(Some("1")), Some(Backend::Cuda));
    assert_eq!(env_override(Some("yes")), Some(Backend::Cuda));
}

#[test]
fn env_override_false_spellings_and_unset() {
    assert_eq!(env_override(Some("false")), Some(Backend::Cpu));
    assert_eq!(env_override(Some("FALSE")), Some(Backend::Cpu));
    assert_eq!(env_override(Some("False")), Some(Backend::Cpu));
    assert_eq!(env_override(Some("fAlse")), Some(Backend::Cuda));
    assert_eq!(env_override(Some("")), Some(Backend::Cuda));
    assert_eq!(env_override(None), None);
}

#[test]
fn backend_names() {
    assert_eq!(Backend::Cuda.as_str(), "cuda");
    assert_eq!(Backend::Cpu.as_str(), "cpu");
}

#[test]
fn nvidia_smi_needs_enough_memory() {
    assert!(nvidia_smi_reports_cuda("NVIDIA GeForce GTX 1060, 6144\n"));
    assert!(nvidia_smi_reports_cuda("NVIDIA GeForce RTX 3090, 4096"));
    assert!(!nvidia_smi_reports_cuda("NVIDIA GeForce GT 710, 2048\n"));
    assert!(!nvidia_smi_reports_cuda(""));
    assert!(!nvidia_smi_reports_cuda("no comma here 8192\n"));
    assert!(!nvidia_smi_reports_cuda("Quadro, lots\n"));
}

#[test]
fn nvidia_smi_any_line_suffices() {
    assert!(nvidia_smi_reports_cuda("GT 710, 2048\r\nRTX 4090, 24564\r\n"));
    assert!(nvidia_smi_reports_cuda("RTX 4090, 24564\nGT 710, 2048\n"));
    // Only the text after the first comma is the memory.
    assert!(!nvidia_smi_reports_cuda("Card, 8192, extra\n"));
}

#[test]
fn wmic_match_is_ascii_case_insensitive() {
    assert!(wmic_reports_nvidia("Name=NVIDIA GeForce GTX 1060\r\n"));
    assert!(wmic_reports_nvidia("name=nViDiA thing"));
    assert!(!wmic_reports_nvidia("Name=Intel(R) UHD Graphics 620\r\n"));
    assert!(!wmic_reports_nvidia(""));
}

#[test]
fn backend_choice_order() {
    assert_eq!(preset_backend(Some(Backend::Cpu), Some(Backend::Cuda)), Some(Backend::Cpu));
    assert_eq!(preset_backend(None, Some(Backend::Cuda)), Some(Backend::Cuda));
    assert_eq!(preset_backend(None, None), None);
    assert_eq!(probed_backend(Some(true), false), Backend::Cuda);
    assert_eq!(probed_backend(Some(true), true), Backend::Cuda);
    assert_eq!(probed_backend(None, true), Backend::Cuda);
    assert_eq!(probed_backend(None, false), Backend::Cpu);
}

#[test]
fn small_nvidia_gpu_falls_back_to_cpu() {
    // nvidia-smi ran and listed only a GPU below 4096 MiB; wmic still names
    // an NVIDIA controller.
    let smi = nvidia_smi_reports_cuda("NVIDIA GeForce GT 710, 2048\n");
    assert!(!smi);
    assert!(wmic_reports_nvidia("Name=NVIDIA GeForce GT 710\r\n"));
    assert_eq!(probed_backend(Some(smi), true), Backend::Cpu);
}

#[test]
fn status_classification() {
    assert_eq!(classify_status(200, 0), HttpOutcome::Success);
    assert_eq!(classify_status(204, 1), HttpOutcome::Success);
    assert_eq!(classify_status(401, 0), HttpOutcome::Auth);
    assert_eq!(classify_status(403, 1), HttpOutcome::Auth);
    assert_eq!(classify_status(429, 0), HttpOutcome::Retry);
    assert_eq!(classify_status(429, 1), HttpOutcome::RateLimited);
    assert_eq!(classify_status(500, 0), HttpOutcome::ServerError);
    assert_eq!(classify_status(503, 1), HttpOutcome::ServerError);
    assert_eq!(classify_status(404, 0), HttpOutcome::Unexpected);
    assert_eq!(classify_status(302, 0), HttpOutcome::Unexpected);
}

#[test]
fn ready_status_reports_its_model() {
    let ready = SttStatus::Ready { backend: "cpu".into(), model_id: "ggml-base".into() };
    assert_eq!(ready_model_id(&ready, "unknown"), "ggml-base");
    let loading = SttStatus::Loading { backend: "cpu".into() };
    assert_eq!(ready_model_id(&loading, "unknown"), "unknown");
    assert_eq!(openai_model_id(), "gpt-4o-mini-transcribe");
}

use voicetabs::stt::{http_failure, network_failure, response_failure, BackendError};

#[test]
fn cloud_error_texts_mask_the_key() {
    let key = "sk-abcdefghijklmnop";
    assert_eq!(http_failure(HttpOutcome::Success, "200 OK", "", key), None);
    assert_eq!(http_failure(HttpOutcome::Retry, "429", "", key), None);
    assert_eq!(http_failure(HttpOutcome::Auth, "401", "", key), Some(BackendError::Auth));
    assert_eq!(
        http_failure(HttpOutcome::RateLimited, "429", "", key),
        Some(BackendError::RateLimited)
    );
    assert_eq!(
        http_failure(HttpOutcome::ServerError, "500 Internal Server Error", "bad sk-abcdefghijklmnop", key),
        Some(BackendError::Server("500 Internal Server Error: bad sk-a**********".into()))
    );
    assert_eq!(
        http_failure(HttpOutcome::Unexpected, "404 Not Found", "nope", key),
        Some(BackendError::Server("unexpected 404 Not Found: nope".into()))
    );
    assert_eq!(
        network_failure("connect to sk-abcdefghijklmnop failed", key),
        BackendError::Network("connect to sk-a********** failed".into())
    );
    assert_eq!(response_failure("eof", key), BackendError::Server("eof".into()));
}
