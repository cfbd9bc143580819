use voicetabs::vad::{
    check_chunk_size, SpeechProb, VadEvent, VadModelError, VadState, VadStateMachine, CHUNK_SAMPLES,
};

/// Chunk size used by every test: 32 ms. Rising needs 3 chunks (120/32),
/// falling needs 21 chunks (700/32).
const CHUNK_MS: u32 = 32;

/// A model probability as the state machine takes it: `floor(p * 2^25)`.
fn prob(p: f32) -> SpeechProb {
    if p.is_nan() {
        SpeechProb::Unordered
    } else if p <= 0.0 {
        SpeechProb::Scaled(0)
    } else {
        SpeechProb::Scaled((p as f64 * 33554432.0).floor() as u64)
    }
}

fn observe_n(sm: &mut VadStateMachine, p: f32, n: u32) -> Vec<VadEvent> {
    let mut events = Vec::new();
    for i in 0..n {
        if let Some(e) = sm.observe(prob(p), (i as u64) * CHUNK_MS as u64) {
            events.push(e);
        }
    }
    events
}

#[test]
fn idle_stays_idle_on_silence() {
    let mut sm = VadStateMachine::new(CHUNK_MS);
    let events = observe_n(&mut sm, 0.05, 1_000);
    assert!(events.is_empty(), "got {events:?}");
    assert_eq!(sm.state(), VadState::Idle);
}

#[test]
fn sustained_speech_triggers_rising_edge() {
    let mut sm = VadStateMachine::new(CHUNK_MS);
    let events = observe_n(&mut sm, 0.9, 10);
    assert_eq!(events.len(), 1);
    assert!(matches!(events[0], VadEvent::RisingEdge { .. }));
    assert_eq!(sm.state(), VadState::Speaking);
}

#[test]
fn brief_burst_does_not_trigger_rising_edge() {
    let mut sm = VadStateMachine::new(CHUNK_MS);
    let events = observe_n(&mut sm, 0.9, 2);
    assert!(events.is_empty(), "got {events:?}");
    assert_eq!(sm.state(), VadState::Idle);
}

#[test]
fn rising_then_sustained_silence_triggers_falling_edge() {
    let mut sm = VadStateMachine::new(CHUNK_MS);
    observe_n(&mut sm, 0.9, 10);
    assert_eq!(sm.state(), VadState::Speaking);
    let events = observe_n(&mut sm, 0.05, 25);
    assert_eq!(events.len(), 1);
    assert!(matches!(events[0], VadEvent::FallingEdge { .. }));
    assert_eq!(sm.state(), VadState::Idle);
}

#[test]
fn brief_pause_does_not_trigger_falling_edge() {
    let mut sm = VadStateMachine::new(CHUNK_MS);
    observe_n(&mut sm, 0.9, 10);
    assert_eq!(sm.state(), VadState::Speaking);
    let events = observe_n(&mut sm, 0.05, 9);
    assert!(events.is_empty(), "got {events:?}");
    assert_eq!(sm.state(), VadState::Speaking);
}

#[test]
fn hysteresis_resets_below_count_when_speech_returns() {
    let mut sm = VadStateMachine::new(CHUNK_MS);
    observe_n(&mut sm, 0.9, 10);
    observe_n(&mut sm, 0.05, 10);
    observe_n(&mut sm, 0.9, 2);
    let events = observe_n(&mut sm, 0.05, 10);
    assert!(events.is_empty(), "got {events:?}");
    assert_eq!(sm.state(), VadState::Speaking);
}

#[test]
fn force_idle_drops_back_with_no_event() {
    let mut sm = VadStateMachine::new(CHUNK_MS);
    observe_n(&mut sm, 0.9, 10);
    assert_eq!(sm.state(), VadState::Speaking);
    sm.force_idle();
    assert_eq!(sm.state(), VadState::Idle);
    let events = observe_n(&mut sm, 0.9, 2);
    assert!(events.is_empty(), "got {events:?}");
}

#[test]
fn timestamp_is_passed_through_to_event() {
    let mut sm = VadStateMachine::new(CHUNK_MS);
    for i in 0..2 {
        assert!(sm.observe(prob(0.9), i * 100).is_none());
    }
    let ev = sm.observe(prob(0.9), 999).expect("rising edge");
    match ev {
        VadEvent::RisingEdge { timestamp_ms } => assert_eq!(timestamp_ms, 999),
        other => panic!("expected RisingEdge, got {other:?}"),
    }
}

#[test]
fn exactly_three_chunks_rise_and_twenty_one_fall() {
    let mut sm = VadStateMachine::new(CHUNK_MS);
    assert!(observe_n(&mut sm, 0.5, 2).is_empty());
    assert_eq!(observe_n(&mut sm, 0.5, 1).len(), 1);
    assert!(observe_n(&mut sm, 0.35, 20).is_empty());
    assert_eq!(sm.state(), VadState::Speaking);
    assert_eq!(observe_n(&mut sm, 0.35, 1).len(), 1);
    assert_eq!(sm.state(), VadState::Idle);
}

#[test]
fn thresholds_are_inclusive_and_exclusive_as_floats_compare() {
    let mut sm = VadStateMachine::new(CHUNK_MS);
    // Just under 0.5 never rises.
    assert!(observe_n(&mut sm, 0.49999997, 10).is_empty());
    let mut sm = VadStateMachine::new(CHUNK_MS);
    observe_n(&mut sm, 0.9, 3);
    // Just over 0.35 never falls.
    assert!(observe_n(&mut sm, 0.35000002, 100).is_empty());
    assert_eq!(sm.state(), VadState::Speaking);
}

#[test]
fn nan_counts_towards_both_edges() {
    let mut sm = VadStateMachine::new(CHUNK_MS);
    assert_eq!(observe_n(&mut sm, f32::NAN, 3).len(), 1);
    assert_eq!(sm.state(), VadState::Speaking);
    assert_eq!(observe_n(&mut sm, f32::NAN, 21).len(), 1);
    assert_eq!(sm.state(), VadState::Idle);
}

#[test]
fn force_speaking_needs_full_silence_to_fall() {
    let mut sm = VadStateMachine::new(CHUNK_MS);
    sm.force_speaking();
    assert_eq!(sm.state(), VadState::Speaking);
    assert!(observe_n(&mut sm, 0.0, 20).is_empty());
    assert_eq!(observe_n(&mut sm, 0.0, 1).len(), 1);
}

#[test]
fn chunk_size_must_match() {
    assert_eq!(check_chunk_size(CHUNK_SAMPLES), Ok(()));
    assert_eq!(
        check_chunk_size(100),
        Err(VadModelError::ChunkSize { expected: 512, got: 100 })
    );
}

#[test]
fn vad_model_error_messages() {
    assert_eq!(
        VadModelError::ChunkSize { expected: 512, got: 100 }.message(),
        "wrong chunk size: expected 512, got 100"
    );
    assert_eq!(
        VadModelError::Build("onnx".into()).message(),
        "failed to load Silero VAD model: onnx"
    );
}
