//! Messages of the speech-to-text worker protocol that carry no score.
use vstd::prelude::*;
use crate::text::str_to_string;

verus! {

/// The worker's first message.
#[derive(Debug, Clone, PartialEq, Eq)]
pub struct ReadyMessage {
    pub ready: bool,
    pub model_id: String,
    pub backend: String,
}

/// Header sent before each utterance's PCM frame.
#[derive(Debug, Clone, PartialEq, Eq)]
pub struct RequestHeader {
    pub request_id: String,
    pub sample_rate: u32,
    pub language: String,
    pub initial_prompt: String,
    pub n_samples: u32,
}

/// Sample rate of every request.
pub const REQUEST_SAMPLE_RATE: u32 = 16000;

/// Header of a request for `n_samples` samples at 16 kHz.
pub fn request_header(request_id: String, n_samples: usize, language: &str, initial_prompt: &str) -> (r:
    RequestHeader)
    ensures
        r.request_id == request_id,
        r.sample_rate == REQUEST_SAMPLE_RATE,
        r.language@ == language@,
        r.initial_prompt@ == initial_prompt@,
        r.n_samples == n_samples as u32,
{
    RequestHeader {
        request_id,
        sample_rate: REQUEST_SAMPLE_RATE,
        language: str_to_string(language),
        initial_prompt: str_to_string(initial_prompt),
        n_samples: n_samples as u32,
    }
}

/// Text of a worker response: the text when there is text and no error;
/// the error when there is one; else a fixed message.
pub open spec fn response_text_spec(text: Option<Seq<char>>, error: Option<Seq<char>>) -> Result<
    Seq<char>,
    Seq<char>,
> {
    match (text, error) {
        (Some(t), None) => Ok(t),
        (_, Some(e)) => Err(e),
        (None, None) => Err("response missing both text and error"@),
    }
}

pub open spec fn opt_str_view(o: Option<String>) -> Option<Seq<char>> {
    match o {
        Some(s) => Some(s@),
        None => None,
    }
}

pub fn response_text(text: Option<String>, error: Option<String>) -> (r: Result<String, String>)
    ensures
        match r {
            Ok(t) => response_text_spec(opt_str_view(text), opt_str_view(error)) == Ok::<
                Seq<char>,
                Seq<char>,
            >(t@),
            Err(e) => response_text_spec(opt_str_view(text), opt_str_view(error)) == Err::<
                Seq<char>,
                Seq<char>,
            >(e@),
        },
{
    match (text, error) {
        (Some(t), None) => Ok(t),
        (_, Some(e)) => Err(e),
        (None, None) => Err(str_to_string("response missing both text and error")),
    }
}

} // verus!
