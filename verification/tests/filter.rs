use voicetabs::filter::{evaluate, evaluate_normalized, normalize_lowercased, Decision, DropReason, Input};

/// The score checks against the default thresholds: no-speech probability
/// above 0.6, average log-probability below -1.0, energy below -45 dBFS.
fn input(text: &str, avg_logprob: f32, no_speech_prob: f32, rms_dbfs: f32) -> Input<'_> {
    Input {
        text,
        no_speech_too_high: no_speech_prob > 0.6,
        avg_logprob_too_low: avg_logprob < -1.0,
        rms_too_low: rms_dbfs < -45.0,
    }
}

fn good() -> Input<'static> {
    input("Olá, como vai você?", -0.3, 0.02, -20.0)
}

#[test]
fn keep_well_formed_speech() {
    assert_eq!(evaluate(&good()), Decision::Keep);
}

#[test]
fn drop_empty_text() {
    let mut i = good();
    i.text = "";
    assert!(matches!(evaluate(&i), Decision::Drop(DropReason::Empty)));
}

#[test]
fn drop_whitespace_only_text() {
    let mut i = good();
    i.text = "   \n\t  ";
    assert!(matches!(evaluate(&i), Decision::Drop(DropReason::Empty)));
}

#[test]
fn drop_blocklisted_substring_case_insensitive() {
    let mut i = good();
    i.text = "  OBRIGADO POR ASSISTIR! até a próxima.";
    match evaluate(&i) {
        Decision::Drop(DropReason::Blocklist(s)) => assert_eq!(s, "obrigado por assistir"),
        other => panic!("expected Blocklist drop, got {other:?}"),
    }
}

#[test]
fn drop_blocklisted_with_accents() {
    let mut i = good();
    i.text = "Obrigádo pôr assistir";
    assert!(matches!(evaluate(&i), Decision::Drop(DropReason::Blocklist(_))));
}

#[test]
fn drop_when_no_speech_prob_too_high() {
    let i = input(good().text, -0.3, 0.85, -20.0);
    assert!(matches!(evaluate(&i), Decision::Drop(DropReason::NoSpeech)));
}

#[test]
fn drop_when_avg_logprob_too_low() {
    let i = input(good().text, -1.5, 0.02, -20.0);
    assert!(matches!(evaluate(&i), Decision::Drop(DropReason::LowLogprob)));
}

#[test]
fn drop_when_rms_too_low() {
    let i = input(good().text, -0.3, 0.02, -50.0);
    assert!(matches!(evaluate(&i), Decision::Drop(DropReason::LowEnergy)));
}

#[test]
fn empty_takes_priority_over_other_failures() {
    let i = input("", -5.0, 0.99, -80.0);
    assert!(matches!(evaluate(&i), Decision::Drop(DropReason::Empty)));
}

#[test]
fn blocklist_takes_priority_over_scores() {
    let i = input("Thanks for watching!", -5.0, 0.99, -80.0);
    assert_eq!(
        evaluate(&i),
        Decision::Drop(DropReason::Blocklist("thanks for watching".to_string()))
    );
}

#[test]
fn score_checks_in_order() {
    let i = input("hello", -5.0, 0.99, -80.0);
    assert_eq!(evaluate(&i), Decision::Drop(DropReason::NoSpeech));
    let i = input("hello", -5.0, 0.1, -80.0);
    assert_eq!(evaluate(&i), Decision::Drop(DropReason::LowLogprob));
    // Thresholds themselves pass.
    let i = input("hello", -1.0, 0.6, -45.0);
    assert_eq!(evaluate(&i), Decision::Keep);
}

#[test]
fn first_blocklist_phrase_wins() {
    let n: Vec<char> = "subtitles by amara, thanks for watching".chars().collect();
    assert_eq!(
        evaluate_normalized(&n, false, false, false),
        Decision::Drop(DropReason::Blocklist("thanks for watching".to_string()))
    );
}

#[test]
fn blocklist_needs_collapsed_spaces() {
    let i = input("Subscribe   to\n my\tchannel", -0.3, 0.02, -20.0);
    assert_eq!(
        evaluate(&i),
        Decision::Drop(DropReason::Blocklist("subscribe to my channel".to_string()))
    );
}

#[test]
fn normalization_folds_and_collapses() {
    let n: String = normalize_lowercased("  olá,   você \t está  ").into_iter().collect();
    assert_eq!(n, "ola, voce esta");
    let n: String = normalize_lowercased("ç ü ì").into_iter().collect();
    assert_eq!(n, "c u i");
    assert!(normalize_lowercased(" \n ").is_empty());
}
