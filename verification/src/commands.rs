//! Frontend command types: the error every command returns, tabs, and the
//! validation the commands perform before touching any state.
use vstd::prelude::*;
use crate::capture::CaptureMode;
use crate::stt::{backend_error_message, ready_model_id, BackendError, BackendKind, SttStatus};
use crate::text::{append_chars, chars_of, str_to_string, string_of, trim_chars, trim_spec};
use crate::utterance::{decimal, push_decimal};

verus! {

/// Error returned to the frontend: a stable code and a message.
#[derive(Debug, Clone, PartialEq, Eq)]
pub struct CommandError {
    pub code: String,
    pub message: String,
}

pub fn cmd_err(code: &str, msg: String) -> (r: CommandError)
    ensures
        r.code@ == code@,
        r.message == msg,
{
    CommandError { code: str_to_string(code), message: msg }
}

/// A tab as the frontend sees it.
#[derive(Debug, Clone, PartialEq, Eq)]
pub struct Tab {
    pub id: i64,
    pub title: String,
    pub order_idx: i64,
    pub created_at: i64,
    pub updated_at: i64,
}

/// Which vocabulary a re-transcription uses.
#[derive(Debug, Clone, Copy, PartialEq, Eq, Structural)]
pub enum RetranscribeMode {
    /// Today's vocabulary setting.
    Current,
    /// The vocabulary stored on the segment when it was first transcribed.
    Snapshot,
}

/// An API key must hold a non-white character.
pub fn validate_api_key(value: &str) -> (r: Result<(), CommandError>)
    ensures
        r is Ok <==> trim_spec(value@).len() > 0,
        r matches Err(e) ==> e.code@ == "EMPTY_KEY"@ && e.message@ == "API key must not be empty"@,
{
    let cs = chars_of(value);
    let t = trim_chars(cs.as_slice());
    if t.len() == 0 {
        Err(cmd_err("EMPTY_KEY", str_to_string("API key must not be empty")))
    } else {
        Ok(())
    }
}

/// Parse a capture-mode setting, refusing unknown values with a validation
/// error that names the value.
pub fn parse_capture_mode(mode: &str) -> (r: Result<CaptureMode, CommandError>)
    ensures
        mode@ == "always_on"@ ==> r == Ok::<CaptureMode, CommandError>(CaptureMode::AlwaysOn),
        mode@ == "ptt"@ ==> r == Ok::<CaptureMode, CommandError>(CaptureMode::Ptt),
        mode@ != "always_on"@ && mode@ != "ptt"@ ==> (r matches Err(e) && e.code@ == "VALIDATION"@
            && e.message@ == "unknown capture_mode: "@ + mode@),
{
    proof {
        reveal_strlit("always_on");
        reveal_strlit("ptt");
        assert("always_on"@.len() != "ptt"@.len());
    }
    match CaptureMode::parse(mode) {
        Some(m) => Ok(m),
        None => {
            let mut msg = chars_of("unknown capture_mode: ");
            let m = chars_of(mode);
            append_chars(&mut msg, m.as_slice());
            Err(cmd_err("VALIDATION", string_of(msg.as_slice())))
        },
    }
}

/// Decimal spelling of an integer, with a leading `-` when negative.
pub open spec fn signed_decimal(n: int) -> Seq<char> {
    if n < 0 {
        seq!['-'] + decimal((-n) as nat)
    } else {
        decimal(n as nat)
    }
}

/// `n` in decimal.
pub fn i64_to_decimal(n: i64) -> (r: String)
    ensures
        r@ == signed_decimal(n as int),
{
    let mut out: Vec<char> = Vec::new();
    if n < 0 {
        out.push('-');
        let m: u64 = if n == i64::MIN {
            9223372036854775808u64
        } else {
            (-n) as u64
        };
        push_decimal(&mut out, m);
    } else {
        push_decimal(&mut out, n as u64);
    }
    string_of(out.as_slice())
}

/// `"<what> <id> not found"`.
fn not_found_message(what: &str, id: i64) -> (r: String)
    ensures
        r@ == what@ + " "@ + signed_decimal(id as int) + " not found"@,
{
    let mut msg = chars_of(what);
    let sp = chars_of(" ");
    append_chars(&mut msg, sp.as_slice());
    let d = i64_to_decimal(id);
    let dc = chars_of(d.as_str());
    append_chars(&mut msg, dc.as_slice());
    let tail = chars_of(" not found");
    append_chars(&mut msg, tail.as_slice());
    string_of(msg.as_slice())
}

/// Error of a command naming a tab that does not exist.
pub fn tab_not_found(id: i64) -> (r: CommandError)
    ensures
        r.code@ == "TAB_NOT_FOUND"@,
        r.message@ == "tab "@ + signed_decimal(id as int) + " not found"@,
{
    let m = not_found_message("tab", id);
    proof {
        reveal_strlit("tab");
        reveal_strlit(" ");
        reveal_strlit("tab ");
        assert("tab"@ + " "@ =~= "tab "@);
    }
    cmd_err("TAB_NOT_FOUND", m)
}

/// Error of a command naming a segment that does not exist.
pub fn segment_not_found(id: i64) -> (r: CommandError)
    ensures
        r.code@ == "SEGMENT_NOT_FOUND"@,
        r.message@ == "segment "@ + signed_decimal(id as int) + " not found"@,
{
    let m = not_found_message("segment", id);
    proof {
        reveal_strlit("segment");
        reveal_strlit(" ");
        reveal_strlit("segment ");
        assert("segment"@ + " "@ =~= "segment "@);
    }
    cmd_err("SEGMENT_NOT_FOUND", m)
}

/// Error of selecting a backend that could not be built: a missing API key
/// gets its own code and advice, anything else is reported as is.
pub fn backend_build_error(e: &BackendError) -> (r: CommandError)
    ensures
        (*e is MissingApiKey) ==> r.code@ == "OPENAI_NO_KEY"@ && r.message@
            == "configure an OpenAI API key before selecting this backend"@,
        !(*e is MissingApiKey) ==> r.code@ == "BACKEND_BUILD_ERROR"@ && r.message@
            == backend_error_message(*e),
{
    match e {
        BackendError::MissingApiKey => cmd_err(
            "OPENAI_NO_KEY",
            str_to_string("configure an OpenAI API key before selecting this backend"),
        ),
        other => cmd_err("BACKEND_BUILD_ERROR", other.message()),
    }
}

/// Status published after switching to `kind`: `Ready` under the kind's
/// name, with the cloud model, or with the model the local worker reported
/// (`"local-whisper"` when it is not ready).
pub fn status_after_switch(kind: BackendKind, current: &SttStatus) -> (r: SttStatus)
    ensures
        r matches SttStatus::Ready { backend, model_id } && backend@ == (match kind {
            BackendKind::Local => "local"@,
            BackendKind::Openai => "openai"@,
        }) && model_id@ == (match kind {
            BackendKind::Openai => "gpt-4o-mini-transcribe"@,
            BackendKind::Local => match *current {
                SttStatus::Ready { model_id: m, .. } => m@,
                _ => "local-whisper"@,
            },
        }),
{
    let model_id = match kind {
        BackendKind::Local => ready_model_id(current, "local-whisper"),
        BackendKind::Openai => str_to_string("gpt-4o-mini-transcribe"),
    };
    SttStatus::Ready { backend: str_to_string(kind.as_str()), model_id }
}

/// Status published when clearing the API key moves the app back from the
/// cloud to the local worker.
pub fn status_after_key_clear(current: &SttStatus) -> (r: SttStatus)
    ensures
        r matches SttStatus::Ready { backend, model_id } && backend@ == "cpu"@ && model_id@
            == (match *current {
            SttStatus::Ready { model_id: m, .. } => m@,
            _ => "local-whisper"@,
        }),
{
    SttStatus::Ready {
        backend: str_to_string("cpu"),
        model_id: ready_model_id(current, "local-whisper"),
    }
}

} // verus!
