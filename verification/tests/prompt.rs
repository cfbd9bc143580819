use voicetabs::prompt::build_initial_prompt;

#[test]
fn empty_terms_returns_empty_prompt() {
    assert_eq!(build_initial_prompt(&[], "pt"), "");
    assert_eq!(build_initial_prompt(&[], "en"), "");
}

#[test]
fn whitespace_only_terms_return_empty_prompt() {
    let terms: Vec<String> = vec!["".into(), "   ".into(), "\t\n".into()];
    assert_eq!(build_initial_prompt(&terms, "pt"), "");
}

#[test]
fn pt_prefix_used_for_portuguese() {
    let terms: Vec<String> = vec!["VoiceTabs".into(), "whisper.cpp".into()];
    assert_eq!(build_initial_prompt(&terms, "pt"), "Termos: VoiceTabs, whisper.cpp.");
}

#[test]
fn en_prefix_used_for_english() {
    let terms: Vec<String> = vec!["VoiceTabs".into()];
    assert_eq!(build_initial_prompt(&terms, "en"), "Terms: VoiceTabs.");
}

#[test]
fn terms_are_trimmed_individually() {
    let terms: Vec<String> = vec!["  pádua  ".into(), "leo".into()];
    assert_eq!(build_initial_prompt(&terms, "pt"), "Termos: pádua, leo.");
}

#[test]
fn order_is_preserved() {
    let terms: Vec<String> = vec!["c".into(), "a".into(), "b".into()];
    assert_eq!(build_initial_prompt(&terms, "en"), "Terms: c, a, b.");
}

#[test]
fn blank_terms_between_others_are_skipped() {
    let terms: Vec<String> = vec!["a".into(), "  ".into(), "b".into()];
    assert_eq!(build_initial_prompt(&terms, "en"), "Terms: a, b.");
}

#[test]
fn any_other_language_uses_english_prefix() {
    let terms: Vec<String> = vec!["x".into()];
    assert_eq!(build_initial_prompt(&terms, "es"), "Terms: x.");
    assert_eq!(build_initial_prompt(&terms, "PT"), "Terms: x.");
}
