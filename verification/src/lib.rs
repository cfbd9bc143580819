//! VoiceTabs core: the verified decision logic of a voice-to-tabs dictation
//! app (VAD hysteresis, utterance assembly, capture routing, STT framing,
//! text normalisation and the hallucination filter).

pub mod audio;
pub mod capture;
pub mod capture_runs;
pub mod client;
pub mod commands;
pub mod filter;
pub mod framing;
pub mod hotkey;
pub mod keyring;
pub mod pipeline;
pub mod prompt;
pub mod protocol;
pub mod routing;
pub mod stt;
pub mod supervisor;
pub mod text;
pub mod tray;
pub mod utterance;
pub mod vad;
