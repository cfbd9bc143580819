//! Speech-to-text backends: their kinds, statuses and errors, the GPU probe's
//! parsing, and the decisions of the cloud backend's request loop.
use vstd::prelude::*;
use crate::keyring::{redact_secret, redact_spec};
use crate::text::{
    chars_of, concat_str, contains_chars, contains_seq, str_eq, str_to_string, string_of,
    trim_chars, trim_spec,
};

verus! {

/// Which speech-to-text backend transcribes.
#[derive(Debug, Clone, Copy, PartialEq, Eq, Structural)]
pub enum BackendKind {
    Local,
    Openai,
}

pub open spec fn backend_kind_name(k: BackendKind) -> Seq<char> {
    match k {
        BackendKind::Local => "local"@,
        BackendKind::Openai => "openai"@,
    }
}

impl BackendKind {
    /// The setting's value: `"openai"` selects the cloud backend, anything
    /// else the local one.
    pub fn from_setting(s: &str) -> (r: Self)
        ensures
            r == (if s@ == "openai"@ {
                BackendKind::Openai
            } else {
                BackendKind::Local
            }),
    {
        if str_eq(s, "openai") {
            BackendKind::Openai
        } else {
            BackendKind::Local
        }
    }

    pub fn as_str(&self) -> (r: &'static str)
        ensures
            r@ == backend_kind_name(*self),
    {
        match self {
            BackendKind::Local => "local",
            BackendKind::Openai => "openai",
        }
    }
}

/// Backend identifier the worker status reports for a kind: the local
/// worker runs on the CPU.
pub fn status_backend_id(kind: BackendKind) -> (r: &'static str)
    ensures
        r@ == (match kind {
            BackendKind::Local => "cpu"@,
            BackendKind::Openai => "openai"@,
        }),
{
    match kind {
        BackendKind::Local => "cpu",
        BackendKind::Openai => "openai",
    }
}

/// Reading back a kind's own setting value gives the kind.
pub proof fn lemma_backend_kind_round_trip(k: BackendKind)
    ensures
        (if backend_kind_name(k) == "openai"@ {
            BackendKind::Openai
        } else {
            BackendKind::Local
        }) == k,
{
    reveal_strlit("local");
    reveal_strlit("openai");
    assert("local"@.len() != "openai"@.len());
}

/// Compute device of the local worker.
#[derive(Debug, Clone, Copy, PartialEq, Eq, Structural)]
pub enum Backend {
    Cuda,
    Cpu,
}

pub open spec fn backend_name(b: Backend) -> Seq<char> {
    match b {
        Backend::Cuda => "cuda"@,
        Backend::Cpu => "cpu"@,
    }
}

impl Backend {
    pub fn as_str(&self) -> (r: &'static str)
        ensures
            r@ == backend_name(*self),
    {
        match self {
            Backend::Cuda => "cuda",
            Backend::Cpu => "cpu",
        }
    }
}

/// Minimum VRAM (MiB) for an NVIDIA GPU to be used.
pub const MIN_VRAM_MIB: u32 = 4096;

/// The `WHISPER_CUDA` override: unset means no override; `"0"` and the
/// spellings of false select the CPU; any other value selects CUDA.
pub open spec fn env_override_spec(value: Option<Seq<char>>) -> Option<Backend> {
    match value {
        None => None,
        Some(v) => if v == "0"@ || v == "false"@ || v == "FALSE"@ || v == "False"@ {
            Some(Backend::Cpu)
        } else {
            Some(Backend::Cuda)
        },
    }
}

pub fn env_override(value: Option<&str>) -> (r: Option<Backend>)
    ensures
        r == env_override_spec(
            match value {
                Some(v) => Some(v@),
                None => None,
            },
        ),
{
    match value {
        None => None,
        Some(v) => {
            if str_eq(v, "0") || str_eq(v, "false") || str_eq(v, "FALSE") || str_eq(v, "False") {
                Some(Backend::Cpu)
            } else {
                Some(Backend::Cuda)
            }
        },
    }
}

/// Backend chosen before any probe: the environment override, else the
/// cached choice; `None` when the hardware has to be probed.
pub open spec fn preset_spec(env: Option<Backend>, cached: Option<Backend>) -> Option<Backend> {
    match env {
        Some(b) => Some(b),
        None => cached,
    }
}

pub fn preset_backend(env: Option<Backend>, cached: Option<Backend>) -> (r: Option<Backend>)
    ensures
        r == preset_spec(env, cached),
{
    match env {
        Some(b) => Some(b),
        None => cached,
    }
}

/// Backend chosen from the probes. `smi` is `None` when `nvidia-smi` could
/// not run successfully, else whether it listed a GPU with at least
/// `MIN_VRAM_MIB` MiB. When it ran, its answer decides (smaller NVIDIA GPUs
/// fall back to the CPU); only when it could not run does an NVIDIA
/// controller listed by `wmic` select CUDA.
pub open spec fn probe_spec(smi: Option<bool>, wmic_nvidia: bool) -> Backend {
    match smi {
        Some(true) => Backend::Cuda,
        Some(false) => Backend::Cpu,
        None => if wmic_nvidia {
            Backend::Cuda
        } else {
            Backend::Cpu
        },
    }
}

pub fn probed_backend(smi: Option<bool>, wmic_nvidia: bool) -> (r: Backend)
    ensures
        r == probe_spec(smi, wmic_nvidia),
{
    match smi {
        Some(true) => Backend::Cuda,
        Some(false) => Backend::Cpu,
        None => {
            if wmic_nvidia {
                Backend::Cuda
            } else {
                Backend::Cpu
            }
        },
    }
}

/// Detection order: with no override a cached backend is used as it is and
/// the hardware is probed only when nothing is cached; an override wins
/// over both. A GPU listed by `nvidia-smi` below the memory floor never
/// selects CUDA, whatever `wmic` lists.
pub proof fn lemma_detection_order(
    env: Option<Backend>,
    cached: Option<Backend>,
    smi: Option<bool>,
    wmic_nvidia: bool,
)
    ensures
        env is None ==> preset_spec(env, cached) == cached,
        env matches Some(b) ==> preset_spec(env, cached) == Some(b),
        smi == Some(false) ==> probe_spec(smi, wmic_nvidia) == Backend::Cpu,
        smi == Some(true) ==> probe_spec(smi, wmic_nvidia) == Backend::Cuda,
{
}

pub open spec fn is_ascii_digit(c: char) -> bool {
    '0' <= c <= '9'
}

/// Value of a string of decimal digits.
pub open spec fn digits_value(ds: Seq<char>) -> nat
    decreases ds.len(),
{
    if ds.len() == 0 {
        0
    } else {
        digits_value(ds.drop_last()) * 10 + ((ds.last() as nat) - ('0' as nat)) as nat
    }
}

/// `<u32 as FromStr>::from_str`: an optional `+`, then one or more decimal
/// digits whose value fits in `u32`.
pub open spec fn parse_u32_spec(s: Seq<char>) -> Option<u32> {
    let body = u32_digits(s);
    if body.len() == 0 || !all_ascii_digits(body) {
        None
    } else if digits_value(body) > u32::MAX {
        None
    } else {
        Some(digits_value(body) as u32)
    }
}

/// The digits part of a `u32` literal: all after a leading `+`, if any.
pub open spec fn u32_digits(s: Seq<char>) -> Seq<char> {
    if s.len() > 0 && s[0] == '+' {
        s.skip(1)
    } else {
        s
    }
}

pub open spec fn all_ascii_digits(ds: Seq<char>) -> bool {
    forall|i: int| 0 <= i < ds.len() ==> is_ascii_digit(#[trigger] ds[i])
}

/// Parse a `u32` as `str::parse::<u32>` does.
fn parse_u32(s: &str) -> (r: Option<u32>)
    ensures
        r == parse_u32_spec(s@),
{
    let cs = chars_of(s);
    let start: usize = if cs.len() > 0 && cs[0] == '+' {
        1
    } else {
        0
    };
    let ghost body = u32_digits(s@);
    assert(body =~= cs@.skip(start as int));
    if cs.len() == start {
        return None;
    }
    // the value so far, saturated at `u32::MAX + 1`
    let mut acc: u64 = 0;
    let mut i: usize = start;
    assert(body.take(0) =~= Seq::<char>::empty());
    while i < cs.len()
        invariant
            start <= i <= cs@.len(),
            start <= 1,
            cs@ == s@,
            body == u32_digits(s@),
            body == cs@.skip(start as int),
            forall|j: int| 0 <= j < i - start ==> is_ascii_digit(#[trigger] body[j]),
            acc == (if digits_value(body.take(i - start)) > u32::MAX {
                u32::MAX as nat + 1
            } else {
                digits_value(body.take(i - start))
            }),
        decreases cs@.len() - i,
    {
        let c = cs[i];
        assert(body[i - start] == c);
        if !('0' <= c && c <= '9') {
            assert(!is_ascii_digit(body[i - start]));
            return None;
        }
        let d: u64 = ((c as u32) - ('0' as u32)) as u64;
        proof {
            let k = i - start;
            assert(body.take(k + 1).drop_last() =~= body.take(k));
            assert(body.take(k + 1).last() == c);
        }
        if acc <= 4294967295u64 {
            acc = acc * 10 + d;
            if acc > 4294967295u64 {
                acc = 4294967296u64;
            }
        }
        i = i + 1;
    }
    assert(body.take(body.len() as int) =~= body);
    if acc > 4294967295u64 {
        None
    } else {
        Some(acc as u32)
    }
}

/// One line of `nvidia-smi --query-gpu=name,memory.total` output
/// (`"NVIDIA GeForce GTX 1060, 6144"`) reports enough memory: the text after
/// the first comma, trimmed, is a number of MiB of at least 4096.
pub open spec fn smi_line_ok(line: Seq<char>) -> bool {
    exists|k: int|
        0 <= k < line.len() && line[k] == ',' && (forall|j: int| 0 <= j < k ==> line[j] != ',')
            && match parse_u32_spec(trim_spec(line.skip(k + 1))) {
            Some(v) => v >= MIN_VRAM_MIB,
            None => false,
        }
}

/// The lines of `s` (split at `'\n'`) scanned left to right: whether a
/// finished line was good, and the line in progress.
pub open spec fn smi_scan(s: Seq<char>) -> (bool, Seq<char>)
    decreases s.len(),
{
    if s.len() == 0 {
        (false, Seq::empty())
    } else {
        let prev = smi_scan(s.drop_last());
        if s.last() == '\n' {
            (prev.0 || smi_line_ok(prev.1), Seq::empty())
        } else {
            (prev.0, prev.1.push(s.last()))
        }
    }
}

/// Some line of the `nvidia-smi` output reports a GPU with enough memory.
pub open spec fn smi_reports_cuda(s: Seq<char>) -> bool {
    smi_scan(s).0 || smi_line_ok(smi_scan(s).1)
}

fn line_ok(line: &[char]) -> (r: bool)
    ensures
        r == smi_line_ok(line@),
{
    let mut k: usize = 0;
    while k < line.len() && line[k] != ','
        invariant
            k <= line@.len(),
            forall|j: int| 0 <= j < k ==> line@[j] != ',',
        decreases line@.len() - k,
    {
        k = k + 1;
    }
    if k == line.len() {
        assert forall|k2: int| 0 <= k2 < line@.len() && line@[k2] == ',' implies false by {
            assert(line@[k2] != ',');
        }
        return false;
    }
    let mut rest: Vec<char> = Vec::new();
    let mut j: usize = k + 1;
    while j < line.len()
        invariant
            k < line@.len(),
            k + 1 <= j <= line@.len(),
            rest@ == line@.subrange(k + 1, j as int),
        decreases line@.len() - j,
    {
        rest.push(line[j]);
        assert(rest@ =~= line@.subrange(k + 1, j + 1));
        j = j + 1;
    }
    assert(rest@ =~= line@.skip(k + 1));
    let trimmed = trim_chars(rest.as_slice());
    let text = string_of(trimmed.as_slice());
    let ok = match parse_u32(text.as_str()) {
        Some(v) => v >= MIN_VRAM_MIB,
        None => false,
    };
    proof {
        if ok {
            assert(line@[k as int] == ',');
        } else {
            assert forall|k2: int|
                0 <= k2 < line@.len() && line@[k2] == ',' && (forall|j2: int|
                    0 <= j2 < k2 ==> line@[j2] != ',') implies !match parse_u32_spec(
                trim_spec(line@.skip(k2 + 1)),
            ) {
                Some(v) => v >= MIN_VRAM_MIB,
                None => false,
            } by {
                if k2 < k {
                } else if k2 > k {
                    assert(line@[k as int] == ',');
                }
            }
        }
    }
    ok
}

/// Whether `nvidia-smi`'s output reports an NVIDIA GPU with at least
/// 4096 MiB.
pub fn nvidia_smi_reports_cuda(stdout: &str) -> (r: bool)
    ensures
        r == smi_reports_cuda(stdout@),
{
    let cs = chars_of(stdout);
    let mut found = false;
    let mut line: Vec<char> = Vec::new();
    let mut i: usize = 0;
    while i < cs.len()
        invariant
            i <= cs@.len(),
            (found, line@) == smi_scan(cs@.take(i as int)),
        decreases cs@.len() - i,
    {
        proof {
            assert(cs@.take(i + 1).drop_last() =~= cs@.take(i as int));
        }
        if cs[i] == '\n' {
            if !found {
                found = line_ok(line.as_slice());
            }
            line = Vec::new();
        } else {
            line.push(cs[i]);
        }
        i = i + 1;
    }
    assert(cs@.take(cs@.len() as int) =~= cs@);
    if found {
        true
    } else {
        line_ok(line.as_slice())
    }
}

/// `char::to_ascii_lowercase`.
pub open spec fn ascii_lower(c: char) -> char {
    if 'A' <= c <= 'Z' {
        ((c as u32) + 32) as char
    } else {
        c
    }
}

/// Whether `wmic`'s video-controller listing names an NVIDIA device
/// (ASCII case-insensitive).
pub fn wmic_reports_nvidia(stdout: &str) -> (r: bool)
    ensures
        r == contains_seq(stdout@.map_values(|c: char| ascii_lower(c)), "nvidia"@),
{
    let cs = chars_of(stdout);
    let mut lower: Vec<char> = Vec::new();
    let mut i: usize = 0;
    while i < cs.len()
        invariant
            i <= cs@.len(),
            lower@ == cs@.take(i as int).map_values(|c: char| ascii_lower(c)),
        decreases cs@.len() - i,
    {
        let c = cs[i];
        let l = if 'A' <= c && c <= 'Z' {
            ((c as u32) + 32) as u8 as char
        } else {
            c
        };
        assert('A' <= c <= 'Z' ==> l == ascii_lower(c)) by {
            if 'A' <= c && c <= 'Z' {
                assert(((c as u32) + 32) as u8 as char == ((c as u32) + 32) as char);
            }
        }
        lower.push(l);
        assert(lower@ =~= cs@.take(i + 1).map_values(|c: char| ascii_lower(c)));
        i = i + 1;
    }
    assert(cs@.take(cs@.len() as int) =~= cs@);
    let needle = chars_of("nvidia");
    contains_chars(lower.as_slice(), needle.as_slice())
}

/// Status of the speech-to-text engine.
#[derive(Debug, Clone, PartialEq, Eq)]
pub enum SttStatus {
    /// The worker is starting and its model is loading.
    Loading { backend: String },
    /// Transcriptions can be issued.
    Ready { backend: String, model_id: String },
    /// The worker died and is being restarted.
    Restarting { backend: String },
    /// A fatal error.
    Error { message: String },
}

#[derive(Debug, Clone, PartialEq, Eq)]
pub enum BackendError {
    MissingApiKey,
    Auth,
    Network(String),
    RateLimited,
    Server(String),
    Worker(String),
    NotReady,
}

pub open spec fn backend_error_message(e: BackendError) -> Seq<char> {
    match e {
        BackendError::MissingApiKey => "missing OpenAI API key"@,
        BackendError::Auth => "authentication failed (check API key)"@,
        BackendError::Network(m) => "network: "@ + m@,
        BackendError::RateLimited => "rate limited"@,
        BackendError::Server(m) => "server error: "@ + m@,
        BackendError::Worker(m) => "worker error: "@ + m@,
        BackendError::NotReady => "backend not ready"@,
    }
}

impl BackendError {
    /// The error's message.
    pub fn message(&self) -> (r: String)
        ensures
            r@ == backend_error_message(*self),
    {
        match self {
            BackendError::MissingApiKey => str_to_string("missing OpenAI API key"),
            BackendError::Auth => str_to_string("authentication failed (check API key)"),
            BackendError::Network(m) => concat_str("network: ", m.as_str()),
            BackendError::RateLimited => str_to_string("rate limited"),
            BackendError::Server(m) => concat_str("server error: ", m.as_str()),
            BackendError::Worker(m) => concat_str("worker error: ", m.as_str()),
            BackendError::NotReady => str_to_string("backend not ready"),
        }
    }
}

/// The API key for the cloud backend: any failure to read it counts as a
/// missing key.
pub fn api_key_or_missing<E>(key: Result<String, E>) -> (r: Result<String, BackendError>)
    ensures
        match key {
            Ok(k) => r == Ok::<String, BackendError>(k),
            Err(_) => r == Err::<String, BackendError>(BackendError::MissingApiKey),
        },
{
    match key {
        Ok(k) => Ok(k),
        Err(_) => Err(BackendError::MissingApiKey),
    }
}

/// The model id a `Ready` status reports, else `fallback`.
pub fn ready_model_id(status: &SttStatus, fallback: &str) -> (r: String)
    ensures
        r@ == (match status {
            SttStatus::Ready { model_id, .. } => model_id@,
            _ => fallback@,
        }),
{
    match status {
        SttStatus::Ready { model_id, .. } => model_id.clone(),
        _ => str_to_string(fallback),
    }
}

/// Model of the cloud backend.
pub open spec fn openai_model_name() -> Seq<char> {
    "gpt-4o-mini-transcribe"@
}

pub fn openai_model_id() -> (r: &'static str)
    ensures
        r@ == openai_model_name(),
{
    "gpt-4o-mini-transcribe"
}

/// What the cloud backend does with an HTTP status.
#[derive(Debug, Clone, Copy, PartialEq, Eq, Structural)]
pub enum HttpOutcome {
    /// 2xx: read the transcription.
    Success,
    /// 401 or 403: the key is refused.
    Auth,
    /// First 429: wait the backoff and send again.
    Retry,
    /// 429 after the retry.
    RateLimited,
    /// 5xx.
    ServerError,
    /// Any other status.
    Unexpected,
}

/// Decide on a response status; `attempt` counts the retries already made.
pub fn classify_status(status: u16, attempt: u32) -> (r: HttpOutcome)
    ensures
        r == (if 200 <= status <= 299 {
            HttpOutcome::Success
        } else if status == 401 || status == 403 {
            HttpOutcome::Auth
        } else if status == 429 && attempt == 0 {
            HttpOutcome::Retry
        } else if status == 429 {
            HttpOutcome::RateLimited
        } else if 500 <= status <= 599 {
            HttpOutcome::ServerError
        } else {
            HttpOutcome::Unexpected
        }),
{
    if 200 <= status && status <= 299 {
        HttpOutcome::Success
    } else if status == 401 || status == 403 {
        HttpOutcome::Auth
    } else if status == 429 && attempt == 0 {
        HttpOutcome::Retry
    } else if status == 429 {
        HttpOutcome::RateLimited
    } else if 500 <= status && status <= 599 {
        HttpOutcome::ServerError
    } else {
        HttpOutcome::Unexpected
    }
}

/// The error that ends a cloud request with this outcome, `None` when the
/// request goes on (success, or the one retry). A server or unexpected
/// status is reported as `"<status>: <body>"` (prefixed `"unexpected "` for
/// the latter) with the API key masked.
pub fn http_failure(outcome: HttpOutcome, status: &str, body: &str, api_key: &str) -> (r: Option<
    BackendError,
>)
    ensures
        (outcome is Success || outcome is Retry) ==> r is None,
        outcome is Auth ==> r == Some(BackendError::Auth),
        outcome is RateLimited ==> r == Some(BackendError::RateLimited),
        outcome is ServerError ==> (r matches Some(BackendError::Server(m)) && m@ == redact_spec(
            status@ + ": "@ + body@,
            api_key@,
        )),
        outcome is Unexpected ==> (r matches Some(BackendError::Server(m)) && m@ == redact_spec(
            "unexpected "@ + status@ + ": "@ + body@,
            api_key@,
        )),
{
    match outcome {
        HttpOutcome::Success => None,
        HttpOutcome::Retry => None,
        HttpOutcome::Auth => Some(BackendError::Auth),
        HttpOutcome::RateLimited => Some(BackendError::RateLimited),
        HttpOutcome::ServerError => {
            let head = concat_str(status, ": ");
            let text = concat_str(head.as_str(), body);
            Some(BackendError::Server(redact_secret(text.as_str(), api_key)))
        },
        HttpOutcome::Unexpected => {
            let a = concat_str("unexpected ", status);
            let head = concat_str(a.as_str(), ": ");
            let text = concat_str(head.as_str(), body);
            Some(BackendError::Server(redact_secret(text.as_str(), api_key)))
        },
    }
}

/// A transport failure of a cloud request, with the API key masked.
pub fn network_failure(message: &str, api_key: &str) -> (r: BackendError)
    ensures
        r matches BackendError::Network(m) && m@ == redact_spec(message@, api_key@),
{
    BackendError::Network(redact_secret(message, api_key))
}

/// An unreadable answer to a cloud request, with the API key masked.
pub fn response_failure(message: &str, api_key: &str) -> (r: BackendError)
    ensures
        r matches BackendError::Server(m) && m@ == redact_spec(message@, api_key@),
{
    BackendError::Server(redact_secret(message, api_key))
}

} // verus!
