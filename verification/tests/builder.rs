use voicetabs::utterance::{wav_file_name, UtteranceBuilder, UtteranceConfig};
use voicetabs::vad::VadEvent;

fn ones(n: usize) -> Vec<f32> {
    vec![0.5_f32; n]
}

fn cfg() -> UtteranceConfig {
    UtteranceConfig { sample_rate: 16_000, pre_roll_ms: 500, max_utterance_ms: 30_000 }
}

#[test]
fn idle_frames_go_into_pre_roll() {
    let mut b = UtteranceBuilder::new(cfg());
    // Push 320 samples (20 ms). Idle: into the pre-roll, nothing closes.
    let result = b.push_frame(&ones(320));
    assert!(result.is_none());
    assert!(!b.is_recording());
}

#[test]
fn rising_edge_drains_pre_roll_into_current() {
    let mut b = UtteranceBuilder::new(cfg());
    b.push_frame(&ones(1_000));
    let result = b.on_vad_event(VadEvent::RisingEdge { timestamp_ms: 42 });
    assert!(result.is_none(), "rising edge does not close an utterance");
    b.push_frame(&ones(500));
    let result = b
        .on_vad_event(VadEvent::FallingEdge { timestamp_ms: 100 })
        .expect("falling edge closes the utterance");
    // The file name uses the rising-edge timestamp.
    assert!(wav_file_name(result.started_at_ms).ends_with("42.wav"));
    assert!(!result.samples.is_empty());
    assert_eq!(result.samples.len(), 1_500);
    assert_eq!(result.started_at_ms, 42);
    assert_eq!(result.ended_at_ms, 100);
}

#[test]
fn falling_edge_without_rising_is_a_noop() {
    let mut b: UtteranceBuilder<f32> = UtteranceBuilder::new(cfg());
    let result = b.on_vad_event(VadEvent::FallingEdge { timestamp_ms: 0 });
    assert!(result.is_none());
    assert!(!b.is_recording());
}

#[test]
fn max_duration_cap_force_finalizes() {
    let mut b = UtteranceBuilder::new(UtteranceConfig {
        sample_rate: 16_000,
        pre_roll_ms: 0,
        max_utterance_ms: 1_000,
    });
    b.on_vad_event(VadEvent::RisingEdge { timestamp_ms: 7 });
    assert!(b.push_would_fit(20_000));
    let result = b.push_frame(&ones(20_000)).expect("max cap should finalize");
    assert!(wav_file_name(result.started_at_ms).ends_with("7.wav"));
    assert_eq!(result.started_at_ms, 7);
    assert_eq!(result.ended_at_ms, 7 + (20_000 * 1000) / 16_000);
    assert_eq!(result.samples.len(), 20_000);
    assert!(!b.is_recording());
}

#[test]
fn two_utterances_produce_two_files() {
    let mut b = UtteranceBuilder::new(cfg());

    b.on_vad_event(VadEvent::RisingEdge { timestamp_ms: 1 });
    b.push_frame(&ones(800));
    let first = b.on_vad_event(VadEvent::FallingEdge { timestamp_ms: 50 }).expect("first WAV");
    assert!(wav_file_name(first.started_at_ms).ends_with("1.wav"));

    b.on_vad_event(VadEvent::RisingEdge { timestamp_ms: 100 });
    b.push_frame(&ones(800));
    let second = b.on_vad_event(VadEvent::FallingEdge { timestamp_ms: 200 }).expect("second WAV");
    assert!(wav_file_name(second.started_at_ms).ends_with("100.wav"));

    assert_ne!(wav_file_name(first.started_at_ms), wav_file_name(second.started_at_ms));
}

#[test]
fn empty_utterance_is_not_finalized() {
    let mut b: UtteranceBuilder<f32> = UtteranceBuilder::new(cfg());
    b.on_vad_event(VadEvent::RisingEdge { timestamp_ms: 3 });
    assert!(b.is_recording());
    assert!(b.on_vad_event(VadEvent::FallingEdge { timestamp_ms: 9 }).is_none());
    assert!(!b.is_recording());
}

#[test]
fn pre_roll_keeps_only_the_last_half_second() {
    let mut b = UtteranceBuilder::new(cfg());
    let mut first: Vec<i32> = vec![1; 5_000];
    first.extend(vec![2; 5_000]);
    b.push_frame(&first);
    b.on_vad_event(VadEvent::RisingEdge { timestamp_ms: 10 });
    let u = b.on_vad_event(VadEvent::FallingEdge { timestamp_ms: 20 }).unwrap();
    assert_eq!(u.samples.len(), 8_000);
    assert_eq!(u.samples[0], 1);
    assert_eq!(u.samples[2_999], 1);
    assert_eq!(u.samples[3_000], 2);
}

#[test]
fn wav_names_are_decimal_timestamps() {
    assert_eq!(wav_file_name(0), "0.wav");
    assert_eq!(wav_file_name(42), "42.wav");
    assert_eq!(wav_file_name(1_700_000_000_123), "1700000000123.wav");
    assert_eq!(wav_file_name(u64::MAX), "18446744073709551615.wav");
}

#[test]
fn default_config_values() {
    let c = UtteranceConfig::default();
    assert_eq!(c.sample_rate, 16_000);
    assert_eq!(c.pre_roll_ms, 500);
    assert_eq!(c.max_utterance_ms, 30_000);
}
