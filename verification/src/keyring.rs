//! The OpenAI API key in the OS credential store, and its redaction from
//! text that may be logged.
use vstd::prelude::*;
use crate::text::{
    append_chars, chars_of, concat_str, matches_at, occurs_at, str_to_string, string_of,
};

verus! {

#[verifier::external_type_specification]
#[verifier::external_body]
pub struct ExKeyringEntry(keyring::Entry);

#[verifier::external_type_specification]
#[verifier::external_body]
pub struct ExKeyringError(keyring::Error);

/// Credential-store service name.
pub const SERVICE: &'static str = "voicetabs";

/// Credential-store user name of the key.
pub const KEY_NAME: &'static str = "openai_api_key";

#[derive(Debug, Clone, PartialEq, Eq)]
pub enum KeyringError {
    /// The store failed; the store's message.
    Backend(String),
    /// No key is configured.
    NotFound,
}

/// `keyring::Entry::new`: an entry for `service`/`user` in the platform's
/// default store. Its outcome depends on the platform store, so nothing is
/// stated of it (it panics only if the store's internal lock is poisoned).
#[verifier::external_body]
fn entry_new(service: &str, user: &str) -> (r: Result<keyring::Entry, keyring::Error>) {
    keyring::Entry::new(service, user)
}

/// `keyring::Entry::get_password`: the stored password. It depends on the
/// store's contents, so nothing is stated of it.
#[verifier::external_body]
fn entry_get_password(entry: &keyring::Entry) -> (r: Result<String, keyring::Error>) {
    entry.get_password()
}

/// `keyring::Entry::set_password`. Its outcome depends on the store.
#[verifier::external_body]
fn entry_set_password(entry: &keyring::Entry, value: &str) -> (r: Result<(), keyring::Error>) {
    entry.set_password(value)
}

/// `keyring::Entry::delete_credential`. Its outcome depends on the store.
#[verifier::external_body]
fn entry_delete_credential(entry: &keyring::Entry) -> (r: Result<(), keyring::Error>) {
    entry.delete_credential()
}

/// Tells `keyring::Error::NoEntry` (nothing stored) from the other variants.
/// The error is opaque here, so the answer is not stated.
#[verifier::external_body]
fn error_is_no_entry(e: &keyring::Error) -> (r: bool) {
    matches!(e, keyring::Error::NoEntry)
}

/// `keyring::Error`'s `Display` text, as `to_string` gives it. Not stated.
#[verifier::external_body]
fn error_message(e: &keyring::Error) -> (r: String) {
    e.to_string()
}

pub open spec fn keyring_error_message(e: KeyringError) -> Seq<char> {
    match e {
        KeyringError::Backend(m) => "keyring: "@ + m@,
        KeyringError::NotFound => "no key configured"@,
    }
}

impl KeyringError {
    /// The error's message.
    pub fn message(&self) -> (r: String)
        ensures
            r@ == keyring_error_message(*self),
    {
        match self {
            KeyringError::Backend(m) => concat_str("keyring: ", m.as_str()),
            KeyringError::NotFound => str_to_string("no key configured"),
        }
    }
}

/// What a credential-store call answered, as plain values.
#[derive(Debug, Clone, PartialEq, Eq)]
pub enum StoreOutcome<T> {
    Done(T),
    /// The call failed; `no_entry` tells "nothing is stored" from any other
    /// failure, and `message` is the store's text.
    Failed { no_entry: bool, message: String },
}

/// The result of reading the key: a missing entry is `NotFound`, any other
/// failure is reported with the store's message.
pub fn read_result(o: StoreOutcome<String>) -> (r: Result<String, KeyringError>)
    ensures
        r == (match o {
            StoreOutcome::Done(s) => Ok(s),
            StoreOutcome::Failed { no_entry: true, .. } => Err(KeyringError::NotFound),
            StoreOutcome::Failed { no_entry: false, message } => Err(KeyringError::Backend(message)),
        }),
{
    match o {
        StoreOutcome::Done(s) => Ok(s),
        StoreOutcome::Failed { no_entry, message } => {
            if no_entry {
                Err(KeyringError::NotFound)
            } else {
                Err(KeyringError::Backend(message))
            }
        },
    }
}

/// The result of storing the key: every failure is reported with the
/// store's message.
pub fn write_result(o: StoreOutcome<()>) -> (r: Result<(), KeyringError>)
    ensures
        r == (match o {
            StoreOutcome::Done(()) => Ok(()),
            StoreOutcome::Failed { message, .. } => Err(KeyringError::Backend(message)),
        }),
{
    match o {
        StoreOutcome::Done(()) => Ok(()),
        StoreOutcome::Failed { message, .. } => Err(KeyringError::Backend(message)),
    }
}

/// The result of clearing the key: clearing when nothing is stored
/// succeeds; other failures are reported with the store's message.
pub fn clear_result(o: StoreOutcome<()>) -> (r: Result<(), KeyringError>)
    ensures
        r == (match o {
            StoreOutcome::Done(()) => Ok(()),
            StoreOutcome::Failed { no_entry: true, .. } => Ok(()),
            StoreOutcome::Failed { no_entry: false, message } => Err(KeyringError::Backend(message)),
        }),
{
    match o {
        StoreOutcome::Done(()) => Ok(()),
        StoreOutcome::Failed { no_entry, message } => {
            if no_entry {
                Ok(())
            } else {
                Err(KeyringError::Backend(message))
            }
        },
    }
}

/// A failed store call as plain values.
fn store_failure<T>(e: &keyring::Error) -> (r: StoreOutcome<T>)
    ensures
        r is Failed,
{
    StoreOutcome::Failed { no_entry: error_is_no_entry(e), message: error_message(e) }
}

/// The credential-store entry that holds the key: its service and user
/// names.
pub fn key_entry_names() -> (r: (&'static str, &'static str))
    ensures
        r.0@ == "voicetabs"@,
        r.1@ == "openai_api_key"@,
{
    (SERVICE, KEY_NAME)
}

/// The key's entry in the store (`key_entry_names`); failing to open it is a
/// backend failure.
fn open_entry() -> (r: Result<keyring::Entry, KeyringError>)
    ensures
        r matches Err(e) ==> e is Backend,
{
    let (service, user) = key_entry_names();
    match entry_new(service, user) {
        Ok(e) => Ok(e),
        Err(e) => Err(KeyringError::Backend(error_message(&e))),
    }
}

/// Read the stored key: `NotFound` when none is stored. What is stored is
/// outside the library, so the key itself is not stated.
pub fn get_api_key() -> (r: Result<String, KeyringError>) {
    let entry = match open_entry() {
        Ok(e) => e,
        Err(e) => return Err(e),
    };
    let outcome = match entry_get_password(&entry) {
        Ok(s) => StoreOutcome::Done(s),
        Err(e) => store_failure(&e),
    };
    read_result(outcome)
}

/// Store the key; never reports `NotFound`.
pub fn set_api_key(value: &str) -> (r: Result<(), KeyringError>)
    ensures
        r != Err::<(), KeyringError>(KeyringError::NotFound),
{
    let entry = match open_entry() {
        Ok(e) => e,
        Err(e) => return Err(e),
    };
    let outcome = match entry_set_password(&entry, value) {
        Ok(()) => StoreOutcome::Done(()),
        Err(e) => store_failure(&e),
    };
    write_result(outcome)
}

/// Remove the key. Idempotent: clearing when nothing is stored succeeds, so
/// it never reports `NotFound`.
pub fn clear_api_key() -> (r: Result<(), KeyringError>)
    ensures
        r != Err::<(), KeyringError>(KeyringError::NotFound),
{
    let entry = match open_entry() {
        Ok(e) => e,
        Err(e) => return Err(e),
    };
    let outcome = match entry_delete_credential(&entry) {
        Ok(()) => StoreOutcome::Done(()),
        Err(e) => store_failure(&e),
    };
    clear_result(outcome)
}

/// The mask that replaces a key: its first four characters (all of a
/// shorter key) followed by ten asterisks.
pub open spec fn mask_of(key: Seq<char>) -> Seq<char> {
    let n = if key.len() < 4 {
        key.len()
    } else {
        4
    };
    key.take(n as int) + Seq::new(10, |i: int| '*')
}

/// `str::replace`: every non-overlapping occurrence of `key`, scanning from
/// the left, replaced by `with` (`key` non-empty).
pub open spec fn replace_spec(hay: Seq<char>, key: Seq<char>, with: Seq<char>) -> Seq<char>
    decreases hay.len(),
{
    if hay.len() == 0 || key.len() == 0 {
        hay
    } else if occurs_at(hay, key, 0) {
        with + replace_spec(hay.skip(key.len() as int), key, with)
    } else {
        seq![hay[0]] + replace_spec(hay.skip(1), key, with)
    }
}

/// Redaction: `haystack` unchanged for an empty key, else every occurrence
/// of `key` replaced by its mask.
pub open spec fn redact_spec(hay: Seq<char>, key: Seq<char>) -> Seq<char> {
    if key.len() == 0 {
        hay
    } else {
        replace_spec(hay, key, mask_of(key))
    }
}

proof fn lemma_occurs_shift(hay: Seq<char>, key: Seq<char>, i: int)
    requires
        0 <= i <= hay.len(),
    ensures
        occurs_at(hay.skip(i), key, 0) == occurs_at(hay, key, i),
{
    if occurs_at(hay, key, i) {
        assert(hay.skip(i).subrange(0, key.len() as int) =~= hay.subrange(i, i + key.len()));
    }
    if occurs_at(hay.skip(i), key, 0) {
        assert(hay.skip(i).subrange(0, key.len() as int) =~= hay.subrange(i, i + key.len()));
    }
}

/// Mask `key` in `haystack`, keeping its first four characters to aid
/// support debugging. An empty key leaves the text unchanged.
pub fn redact_secret(haystack: &str, key: &str) -> (r: String)
    ensures
        r@ == redact_spec(haystack@, key@),
{
    let h = chars_of(haystack);
    let k = chars_of(key);
    if k.len() == 0 {
        return str_to_string(haystack);
    }
    // the mask: up to four leading characters, then ten asterisks
    let mut mask: Vec<char> = Vec::new();
    let keep: usize = if k.len() < 4 {
        k.len()
    } else {
        4
    };
    let mut p: usize = 0;
    while p < keep
        invariant
            keep <= k@.len(),
            p <= keep,
            mask@ == k@.take(p as int),
        decreases keep - p,
    {
        mask.push(k[p]);
        assert(mask@ =~= k@.take(p + 1));
        p = p + 1;
    }
    let ghost prefix = mask@;
    let mut q: usize = 0;
    while q < 10
        invariant
            q <= 10,
            mask@ == prefix + Seq::new(q as nat, |i: int| '*'),
        decreases 10 - q,
    {
        mask.push('*');
        assert(mask@ =~= prefix + Seq::new((q + 1) as nat, |i: int| '*'));
        q = q + 1;
    }
    assert(mask@ =~= mask_of(k@));
    let ghost m = mask@;
    let mut out: Vec<char> = Vec::new();
    let mut i: usize = 0;
    assert(h@.skip(0) =~= h@);
    while i < h.len()
        invariant
            i <= h@.len(),
            k@.len() > 0,
            m == mask@,
            out@ + replace_spec(h@.skip(i as int), k@, m) == replace_spec(h@, k@, m),
        decreases h@.len() - i,
    {
        proof {
            lemma_occurs_shift(h@, k@, i as int);
        }
        if matches_at(h.as_slice(), k.as_slice(), i) {
            let ghost before = out@;
            append_chars(&mut out, mask.as_slice());
            proof {
                assert(h@.skip(i as int).skip(k@.len() as int) =~= h@.skip(i + k@.len()));
                assert(out@ + replace_spec(h@.skip(i + k@.len()), k@, m) =~= before + (m
                    + replace_spec(h@.skip(i as int).skip(k@.len() as int), k@, m)));
            }
            i = i + k.len();
        } else {
            let ghost before = out@;
            out.push(h[i]);
            proof {
                assert(h@.skip(i as int).skip(1) =~= h@.skip(i + 1));
                assert(h@.skip(i as int)[0] == h@[i as int]);
                assert(out@ + replace_spec(h@.skip(i + 1), k@, m) =~= before + (seq![h@[i as int]]
                    + replace_spec(h@.skip(i as int).skip(1), k@, m)));
            }
            i = i + 1;
        }
    }
    assert(h@.skip(i as int) =~= Seq::<char>::empty());
    assert(out@ =~= replace_spec(h@, k@, m));
    string_of(out.as_slice())
}

/// Text that does not contain the key comes back unchanged.
pub proof fn lemma_redact_without_key_is_identity(hay: Seq<char>, key: Seq<char>)
    requires
        forall|i: int| !occurs_at(hay, key, i),
    ensures
        redact_spec(hay, key) == hay,
    decreases hay.len(),
{
    if key.len() > 0 && hay.len() > 0 {
        assert forall|i: int| !occurs_at(hay.skip(1), key, i) by {
            if occurs_at(hay.skip(1), key, i) {
                assert(hay.skip(1).subrange(i, i + key.len()) =~= hay.subrange(
                    i + 1,
                    i + 1 + key.len(),
                ));
                assert(occurs_at(hay, key, i + 1));
            }
        }
        lemma_redact_without_key_is_identity(hay.skip(1), key);
        assert(hay =~= seq![hay[0]] + hay.skip(1));
    }
}

/// The key on its own is replaced by exactly its mask.
pub proof fn lemma_redact_key_alone(key: Seq<char>)
    requires
        key.len() > 0,
    ensures
        redact_spec(key, key) == mask_of(key),
{
    assert(key.subrange(0, key.len() as int) =~= key);
    assert(occurs_at(key, key, 0));
    assert(key.skip(key.len() as int) =~= Seq::<char>::empty());
    assert(replace_spec(key.skip(key.len() as int), key, mask_of(key)) == Seq::<char>::empty());
    assert(mask_of(key) + Seq::<char>::empty() =~= mask_of(key));
}

} // verus!
