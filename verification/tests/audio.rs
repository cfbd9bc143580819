use voicetabs::audio::{AudioConfig, AudioError};

#[test]
fn audio_defaults_to_mono_16k() {
    let c = AudioConfig::default();
    assert_eq!(c.sample_rate, 16_000);
    assert_eq!(c.channels, 1);
}

#[test]
fn audio_error_messages() {
    assert_eq!(AudioError::NoDevice.message(), "no default input device available");
    assert_eq!(AudioError::Cpal("busy".into()).message(), "cpal error: busy");
}
