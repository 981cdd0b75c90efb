//! Plain values exchanged with the capture and playback collaborators.
use vstd::prelude::*;

verus! {

/// The engine's internal sample rate in Hz.
pub const TARGET_SAMPLE_RATE: u32 = 48000;

/// Capture and playback failures.
#[derive(Debug, Clone, PartialEq, Eq)]
pub enum AudioError {
    /// No audio device found.
    NoDevice,
    /// The device name could not be read.
    DeviceName(String),
    /// The device's default configuration could not be read.
    DefaultConfig(String),
    /// The stream could not be built.
    BuildStream(String),
    /// The stream could not be started or paused.
    PlayStream(String),
    /// The resampler could not be created.
    ResamplerError(String),
    /// A playback device that does not run at 48 kHz (its rate in Hz).
    UnsupportedSampleRate(u32),
}

/// What is known of an audio device.
#[derive(Debug, Clone)]
pub struct AudioDeviceInfo {
    pub name: String,
    pub sample_rate: u32,
    pub channels: u16,
}

/// Whether capture at `device_rate` Hz must be resampled to 48 kHz.
pub fn needs_resampling(device_rate: u32) -> (b: bool)
    ensures
        b == (device_rate != TARGET_SAMPLE_RATE),
{
    device_rate != TARGET_SAMPLE_RATE
}

/// Playback is only monitored on a 48 kHz device.
pub fn check_output_rate(device_rate: u32) -> (r: Result<(), AudioError>)
    ensures
        device_rate == TARGET_SAMPLE_RATE ==> r == Ok::<(), AudioError>(()),
        device_rate != TARGET_SAMPLE_RATE ==> r == Err::<(), AudioError>(
            AudioError::UnsupportedSampleRate(device_rate),
        ),
{
    if device_rate == TARGET_SAMPLE_RATE {
        Ok(())
    } else {
        Err(AudioError::UnsupportedSampleRate(device_rate))
    }
}

/// The description of a capture device: whatever its own rate, samples reach
/// the engine at 48 kHz (resampled when needed), so that rate is reported.
pub fn capture_device_info(name: String, channels: u16) -> (info: AudioDeviceInfo)
    ensures
        info.name == name,
        info.sample_rate == TARGET_SAMPLE_RATE,
        info.channels == channels,
{
    AudioDeviceInfo { name, sample_rate: TARGET_SAMPLE_RATE, channels }
}

} // verus!
