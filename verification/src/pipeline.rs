//! Decisions of the segment pipeline that runs after each utterance:
//! the stored duration, the model id recorded with a segment, and the status
//! shown after a transcription.
use vstd::prelude::*;
use crate::filter::{
    decision_spec, evaluate, normalize_spec, Decision, DropReason, Input,
};
use crate::stt::{backend_error_message, ready_model_id, BackendError, SttStatus};
use crate::text::{str_eq, str_to_string};
use crate::utterance::{decimal, wav_file_name};

verus! {

/// Duration stored with a segment: `ended - started`, or 0 when the end
/// precedes the start, as an `i64` (wrapping above `i64::MAX`).
pub fn segment_duration_ms(started_at_ms: u64, ended_at_ms: u64) -> (r: i64)
    ensures
        r == (if ended_at_ms >= started_at_ms {
            (ended_at_ms - started_at_ms) as u64
        } else {
            0u64
        }) as i64,
{
    let d: u64 = if ended_at_ms >= started_at_ms {
        ended_at_ms - started_at_ms
    } else {
        0
    };
    d as i64
}

/// Model id recorded with a segment: the cloud backend's own id, else the
/// model the local worker reported when it became ready, else `"unknown"`.
pub fn segment_model_id(backend_id: &str, backend_model_id: &str, status: &SttStatus) -> (r: String)
    ensures
        backend_id@ == "openai"@ ==> r@ == backend_model_id@,
        backend_id@ != "openai"@ ==> r@ == (match status {
            SttStatus::Ready { model_id, .. } => model_id@,
            _ => "unknown"@,
        }),
{
    if str_eq(backend_id, "openai") {
        str_to_string(backend_model_id)
    } else {
        ready_model_id(status, "unknown")
    }
}

/// After a successful transcription, an `Error` status turns back into
/// `Ready` for the backend used; any other status stays.
pub fn status_after_success(current: &SttStatus, backend_id: &str, model_id: &str) -> (r: Option<
    SttStatus,
>)
    ensures
        current is Error ==> (r matches Some(SttStatus::Ready { backend, model_id: m }) && backend@
            == backend_id@ && m@ == model_id@),
        !(current is Error) ==> r is None,
{
    match current {
        SttStatus::Error { .. } => Some(
            SttStatus::Ready { backend: str_to_string(backend_id), model_id: str_to_string(model_id) },
        ),
        _ => None,
    }
}

/// Status published when a transcription fails.
pub fn failure_status(e: &BackendError) -> (r: SttStatus)
    ensures
        r matches SttStatus::Error { message } && message@ == backend_error_message(*e),
{
    SttStatus::Error { message: e.message() }
}

/// The columns of a segment that the pipeline decides (the scores and the
/// vocabulary's serialised form are added by the caller).
#[derive(Debug, Clone, PartialEq, Eq)]
pub struct SegmentDraft {
    pub tab_id: i64,
    pub text: String,
    /// File name of the utterance's WAV in the audio directory.
    pub audio_path: String,
    pub started_at: i64,
    pub ended_at: i64,
    pub duration_ms: i64,
    pub model_id: String,
}

/// What becomes of a transcription.
#[derive(Debug, Clone, PartialEq, Eq)]
pub enum PipelineOutcome {
    Insert(SegmentDraft),
    Dropped(DropReason),
}

/// Model id recorded with a segment, as `segment_model_id` returns it.
pub open spec fn segment_model_spec(
    backend_id: Seq<char>,
    backend_model_id: Seq<char>,
    status: SttStatus,
) -> Seq<char> {
    if backend_id == "openai"@ {
        backend_model_id
    } else {
        match status {
            SttStatus::Ready { model_id, .. } => model_id@,
            _ => "unknown"@,
        }
    }
}

/// After a transcription: run the filter on its text and, when kept, draft
/// the segment in the tab of the utterance's routing snapshot, named after
/// its WAV file.
pub fn segment_after_transcription(
    text: String,
    no_speech_too_high: bool,
    avg_logprob_too_low: bool,
    rms_too_low: bool,
    start_tab_id: i64,
    started_at_ms: u64,
    ended_at_ms: u64,
    backend_id: &str,
    backend_model_id: &str,
    status: &SttStatus,
) -> (r: PipelineOutcome)
    ensures
        match r {
            PipelineOutcome::Insert(d) => {
                &&& decision_spec(
                    normalize_spec(text@),
                    no_speech_too_high,
                    avg_logprob_too_low,
                    rms_too_low,
                    Decision::Keep,
                )
                &&& d.tab_id == start_tab_id
                &&& d.text@ == text@
                &&& d.audio_path@ == decimal(started_at_ms as nat) + ".wav"@
                &&& d.started_at == started_at_ms as i64
                &&& d.ended_at == ended_at_ms as i64
                &&& d.duration_ms == (if ended_at_ms >= started_at_ms {
                    (ended_at_ms - started_at_ms) as u64
                } else {
                    0u64
                }) as i64
                &&& d.model_id@ == segment_model_spec(backend_id@, backend_model_id@, *status)
            },
            PipelineOutcome::Dropped(reason) => decision_spec(
                normalize_spec(text@),
                no_speech_too_high,
                avg_logprob_too_low,
                rms_too_low,
                Decision::Drop(reason),
            ),
        },
{
    let decision = evaluate(
        &Input { text: text.as_str(), no_speech_too_high, avg_logprob_too_low, rms_too_low },
    );
    match decision {
        Decision::Drop(reason) => PipelineOutcome::Dropped(reason),
        Decision::Keep => {
            let model_id = segment_model_id(backend_id, backend_model_id, status);
            PipelineOutcome::Insert(
                SegmentDraft {
                    tab_id: start_tab_id,
                    text,
                    audio_path: wav_file_name(started_at_ms),
                    started_at: started_at_ms as i64,
                    ended_at: ended_at_ms as i64,
                    duration_ms: segment_duration_ms(started_at_ms, ended_at_ms),
                    model_id,
                },
            )
        },
    }
}

/// A timestamp column read back as milliseconds: negative values as 0.
pub fn row_timestamp_ms(v: i64) -> (r: u64)
    ensures
        r == (if v >= 0 {
            v as u64
        } else {
            0u64
        }),
{
    if v >= 0 {
        v as u64
    } else {
        0
    }
}

} // verus!
