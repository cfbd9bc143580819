//! Audio capture configuration and devices.
use vstd::prelude::*;
use crate::text::{concat_str, str_to_string};

verus! {

/// Requested capture format: mono 16 kHz.
#[derive(Debug, Clone, Copy, PartialEq, Eq, Structural)]
pub struct AudioConfig {
    pub sample_rate: u32,
    pub channels: u16,
}

impl Default for AudioConfig {
    fn default() -> (r: Self)
        ensures
            r == (AudioConfig { sample_rate: 16000, channels: 1 }),
    {
        AudioConfig { sample_rate: 16000, channels: 1 }
    }
}

/// An input device and whether it is the system default.
#[derive(Debug, Clone, PartialEq, Eq)]
pub struct InputDevice {
    pub name: String,
    pub is_default: bool,
}

#[derive(Debug, Clone, PartialEq, Eq)]
pub enum AudioError {
    NoDevice,
    Cpal(String),
}

pub open spec fn audio_error_message(e: AudioError) -> Seq<char> {
    match e {
        AudioError::NoDevice => "no default input device available"@,
        AudioError::Cpal(m) => "cpal error: "@ + m@,
    }
}

impl AudioError {
    /// The error's message.
    pub fn message(&self) -> (r: String)
        ensures
            r@ == audio_error_message(*self),
    {
        match self {
            AudioError::NoDevice => str_to_string("no default input device available"),
            AudioError::Cpal(m) => concat_str("cpal error: ", m.as_str()),
        }
    }
}

} // verus!
