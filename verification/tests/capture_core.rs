use voicetabs::capture::{CaptureCore, CaptureMode, CaptureStep, UtteranceFinalized, UtteranceMeta};
use voicetabs::utterance::UtteranceConfig;
use voicetabs::vad::{SpeechProb, CHUNK_SAMPLES};

const LOUD: SpeechProb = SpeechProb::Scaled(30_000_000);
const QUIET: SpeechProb = SpeechProb::Scaled(1_000_000);

fn meta(tab: i64) -> UtteranceMeta {
    UtteranceMeta { start_tab_id: tab, vocab_terms: vec!["VoiceTabs".to_string()], language: "pt".to_string() }
}

fn chunk() -> Vec<i16> {
    vec![1; CHUNK_SAMPLES]
}

/// Feed one chunk through the core, answering a snapshot request with
/// `snapshot` and completing any write as `written`; returns what was
/// published.
fn feed(
    core: &mut CaptureCore<i16>,
    prob: SpeechProb,
    ts: u64,
    mode: CaptureMode,
    snapshot: Option<UtteranceMeta>,
    written: bool,
) -> Option<UtteranceFinalized<i16>> {
    core.push_audio(&chunk());
    let c = core.next_chunk().expect("a full chunk");
    assert!(core.chunk_fits_exec(c.len()));
    let mut step = core.on_chunk(c, prob, ts, mode);
    if let CaptureStep::NeedSnapshot = step {
        step = core.on_rising_snapshot(snapshot);
    }
    match step {
        CaptureStep::Write(u) => core.after_write(u, written),
        _ => None,
    }
}

#[test]
fn always_on_utterance_carries_rising_edge_snapshot() {
    let mut core: CaptureCore<i16> = CaptureCore::new(UtteranceConfig::default());
    let mut ts = 0;
    for _ in 0..3 {
        assert!(feed(&mut core, LOUD, ts, CaptureMode::AlwaysOn, Some(meta(7)), true).is_none());
        ts += 32;
    }
    // The active tab changes mid-utterance: later snapshots are never asked.
    let mut published = None;
    for _ in 0..21 {
        let p = feed(&mut core, QUIET, ts, CaptureMode::AlwaysOn, Some(meta(99)), true);
        if p.is_some() {
            published = p;
        }
        ts += 32;
    }
    let u = published.expect("falling edge publishes");
    assert_eq!(u.start_tab_id, 7);
    assert_eq!(u.vocab_snapshot, vec!["VoiceTabs".to_string()]);
    assert_eq!(u.language, "pt");
    assert_eq!(u.started_at_ms, 64);
    assert_eq!(u.ended_at_ms, 64 + 21 * 32);
    assert_eq!(u.samples.len(), 24 * CHUNK_SAMPLES);
}

#[test]
fn no_active_tab_at_rising_edge_drops_utterance() {
    let mut core: CaptureCore<i16> = CaptureCore::new(UtteranceConfig::default());
    let mut ts = 0;
    for _ in 0..3 {
        feed(&mut core, LOUD, ts, CaptureMode::AlwaysOn, None, true);
        ts += 32;
    }
    for _ in 0..30 {
        assert!(feed(&mut core, QUIET, ts, CaptureMode::AlwaysOn, Some(meta(5)), true).is_none());
        ts += 32;
    }
}

#[test]
fn failed_write_publishes_nothing() {
    let mut core: CaptureCore<i16> = CaptureCore::new(UtteranceConfig::default());
    let mut ts = 0;
    for _ in 0..3 {
        feed(&mut core, LOUD, ts, CaptureMode::AlwaysOn, Some(meta(3)), false);
        ts += 32;
    }
    for _ in 0..30 {
        assert!(feed(&mut core, QUIET, ts, CaptureMode::AlwaysOn, Some(meta(3)), false).is_none());
        ts += 32;
    }
}

#[test]
fn ptt_press_and_release_bound_the_utterance() {
    let mut core: CaptureCore<i16> = CaptureCore::new(UtteranceConfig::default());
    // Audio before the press goes to the pre-roll.
    assert!(feed(&mut core, QUIET, 0, CaptureMode::Ptt, None, true).is_none());
    assert!(core.ptt_press_wanted(CaptureMode::Ptt));
    assert!(!core.ptt_press_wanted(CaptureMode::AlwaysOn));
    core.on_ptt_press(Some(meta(11)), 40);
    // A repeated press is auto-repeat.
    assert!(!core.ptt_press_wanted(CaptureMode::Ptt));
    // Loud or quiet, nothing closes the utterance but the release.
    for i in 0..30 {
        assert!(feed(&mut core, QUIET, 50 + i * 32, CaptureMode::Ptt, None, true).is_none());
    }
    match core.on_ptt_release(CaptureMode::Ptt, 2000) {
        CaptureStep::Write(u) => {
            let p = core.after_write(u, true).expect("release publishes");
            assert_eq!(p.start_tab_id, 11);
            assert_eq!(p.started_at_ms, 40);
            assert_eq!(p.ended_at_ms, 2000);
            assert_eq!(p.samples.len(), 31 * CHUNK_SAMPLES);
        }
        _ => panic!("release should close the utterance"),
    }
    assert!(core.ptt_press_wanted(CaptureMode::Ptt));
}

#[test]
fn ptt_press_without_tab_is_ignored() {
    let mut core: CaptureCore<i16> = CaptureCore::new(UtteranceConfig::default());
    core.on_ptt_press(None, 10);
    assert!(core.ptt_press_wanted(CaptureMode::Ptt));
    assert!(matches!(core.on_ptt_release(CaptureMode::Ptt, 20), CaptureStep::Done));
}

#[test]
fn release_in_always_on_mode_does_nothing() {
    let mut core: CaptureCore<i16> = CaptureCore::new(UtteranceConfig::default());
    core.on_ptt_press(Some(meta(1)), 10);
    assert!(matches!(core.on_ptt_release(CaptureMode::AlwaysOn, 20), CaptureStep::Done));
}

#[test]
fn max_duration_cap_publishes_and_resets() {
    let cfg = UtteranceConfig { sample_rate: 16_000, pre_roll_ms: 0, max_utterance_ms: 100 };
    let mut core: CaptureCore<i16> = CaptureCore::new(cfg);
    let mut ts = 0;
    let mut published = Vec::new();
    for _ in 0..8 {
        if let Some(p) = feed(&mut core, LOUD, ts, CaptureMode::AlwaysOn, Some(meta(4)), true) {
            published.push(p);
        }
        ts += 32;
    }
    // The cap is 1600 samples and the pre-roll holds nothing: the four
    // chunks after the rising edge reach the cap.
    assert!(!published.is_empty());
    let first = &published[0];
    assert_eq!(first.start_tab_id, 4);
    assert_eq!(first.samples.len(), 4 * CHUNK_SAMPLES);
    assert_eq!(first.started_at_ms, 64);
    assert_eq!(first.ended_at_ms, 64 + (4 * CHUNK_SAMPLES as u64 * 1000) / 16_000);
}

#[test]
fn chunks_are_cut_from_buffered_audio() {
    let mut core: CaptureCore<i16> = CaptureCore::new(UtteranceConfig::default());
    core.push_audio(&vec![1; 300]);
    assert!(core.next_chunk().is_none());
    let mut more: Vec<i16> = (0..800).map(|i| i as i16).collect();
    core.push_audio(&more);
    let c = core.next_chunk().expect("chunk");
    assert_eq!(c.len(), CHUNK_SAMPLES);
    assert_eq!(c[299], 1);
    assert_eq!(c[300], 0);
    let c2 = core.next_chunk().expect("second chunk");
    assert_eq!(c2[0], 212);
    assert!(core.next_chunk().is_none());
    more.truncate(0);
    core.push_audio(&more);
    assert!(core.next_chunk().is_none());
}

#[test]
fn stop_drops_open_utterance_routing() {
    let mut core: CaptureCore<i16> = CaptureCore::new(UtteranceConfig::default());
    core.on_ptt_press(Some(meta(2)), 0);
    assert!(!core.ptt_press_wanted(CaptureMode::Ptt));
    core.push_audio(&vec![0; 100]);
    core.on_stop();
    assert!(core.ptt_press_wanted(CaptureMode::Ptt));
    core.push_audio(&vec![0; 500]);
    assert!(core.next_chunk().is_none());
}
