use voicetabs::keyring::redact_secret;

#[test]
fn redact_replaces_full_key() {
    let key = "sk-abcdefghijklmnop";
    let s = format!("Bearer {key}");
    let red = redact_secret(&s, key);
    assert!(!red.contains("abcdef"));
    assert!(red.contains("sk-"));
    assert!(red.contains("****"));
}

#[test]
fn redact_handles_short_keys() {
    let key = "abc";
    let s = "leaked: abc here";
    let red = redact_secret(s, key);
    assert!(!red.contains("abc here"));
}

#[test]
fn redact_noop_on_empty_key() {
    assert_eq!(redact_secret("hello", ""), "hello");
}

#[test]
fn redact_exact_mask_for_long_key() {
    let key = "sk-abcdefghijklmnop";
    assert_eq!(redact_secret(&format!("Bearer {key}"), key), "Bearer sk-a**********");
}

#[test]
fn redact_short_key_keeps_whole_key_as_prefix() {
    assert_eq!(redact_secret("leaked: abc here", "abc"), "leaked: abc********** here");
}

#[test]
fn redact_every_occurrence() {
    assert_eq!(redact_secret("abc-abc", "abc"), "abc**********-abc**********");
}

#[test]
fn redact_without_occurrence_is_identity() {
    assert_eq!(redact_secret("nothing to hide", "sk-secret-key"), "nothing to hide");
}

use voicetabs::keyring::{clear_result, read_result, write_result, KeyringError, StoreOutcome};

#[test]
fn store_read_outcomes() {
    assert_eq!(read_result(StoreOutcome::Done("sk-1".to_string())), Ok("sk-1".to_string()));
    assert_eq!(
        read_result(StoreOutcome::Failed { no_entry: true, message: "none".into() }),
        Err(KeyringError::NotFound)
    );
    assert_eq!(
        read_result(StoreOutcome::Failed { no_entry: false, message: "locked".into() }),
        Err(KeyringError::Backend("locked".into()))
    );
}

#[test]
fn store_write_and_clear_outcomes() {
    assert_eq!(write_result(StoreOutcome::Done(())), Ok(()));
    assert_eq!(
        write_result(StoreOutcome::Failed { no_entry: true, message: "none".into() }),
        Err(KeyringError::Backend("none".into()))
    );
    assert_eq!(clear_result(StoreOutcome::Failed { no_entry: true, message: "none".into() }), Ok(()));
    assert_eq!(
        clear_result(StoreOutcome::Failed { no_entry: false, message: "denied".into() }),
        Err(KeyringError::Backend("denied".into()))
    );
}

#[test]
fn keyring_error_messages() {
    assert_eq!(KeyringError::NotFound.message(), "no key configured");
    assert_eq!(KeyringError::Backend("x".into()).message(), "keyring: x");
}

use voicetabs::keyring::key_entry_names;

#[test]
fn key_lives_under_fixed_names() {
    assert_eq!(key_entry_names(), ("voicetabs", "openai_api_key"));
}
