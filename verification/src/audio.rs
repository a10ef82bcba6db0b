//! Audio metadata, playback states and audio errors, with the audio
//! input and playback state machines in the submodules.

use vstd::prelude::*;
use vstd::string::*;

pub mod input;
pub mod player;
pub mod wav;

verus! {

/// Audio metadata.
#[derive(Clone, Copy, Debug, PartialEq, Eq, Structural)]
pub struct AudioInfo {
    /// Duration in milliseconds (0 for streams)
    pub duration_ms: u64,
    /// Sample rate in Hz (e.g., 44100, 48000)
    pub sample_rate: u32,
    /// Number of audio channels (1 = mono, 2 = stereo)
    pub channels: u32,
    /// Whether this is a live/streaming source
    pub is_stream: bool,
}

impl Default for AudioInfo {
    /// All fields zero, not a stream.
    fn default() -> (i: AudioInfo)
        ensures
            i.duration_ms == 0,
            i.sample_rate == 0,
            i.channels == 0,
            !i.is_stream,
    {
        AudioInfo { duration_ms: 0, sample_rate: 0, channels: 0, is_stream: false }
    }
}

/// Audio playback state.
#[derive(Clone, Copy, Debug, PartialEq, Eq, Structural)]
pub enum PlaybackState {
    /// No audio loaded
    Idle,
    /// Audio is loading/buffering
    Loading,
    /// Audio is playing
    Playing,
    /// Audio is paused
    Paused,
    /// Audio has finished playing
    Ended,
    /// Error occurred
    Error,
}

/// The number that stands for each playback state on the FFI boundary.
pub open spec fn playback_state_code(s: PlaybackState) -> i32 {
    match s {
        PlaybackState::Idle => 0,
        PlaybackState::Loading => 1,
        PlaybackState::Playing => 2,
        PlaybackState::Paused => 3,
        PlaybackState::Ended => 4,
        PlaybackState::Error => 5,
    }
}

impl PlaybackState {
    /// The FFI code of this state (0 = Idle ... 5 = Error).
    pub fn as_i32(self) -> (r: i32)
        ensures
            r == playback_state_code(self),
    {
        match self {
            PlaybackState::Idle => 0,
            PlaybackState::Loading => 1,
            PlaybackState::Playing => 2,
            PlaybackState::Paused => 3,
            PlaybackState::Ended => 4,
            PlaybackState::Error => 5,
        }
    }
}

/// Audio error.
#[derive(Clone, Debug)]
pub enum AudioError {
    /// Failed to load audio from file/URL
    LoadError(String),
    /// Invalid audio format
    FormatError(String),
    /// Decoder error
    DecodeError(String),
    /// Seek error
    SeekError(String),
    /// Output device error
    DeviceError(String),
    /// Platform not supported
    UnsupportedPlatform,
    /// Audio not loaded
    NotLoaded,
    /// Permission denied
    PermissionDenied,
    /// Other error
    Other(String),
}

/// The human-readable text of an audio error.
pub open spec fn audio_error_text(e: AudioError) -> Seq<char> {
    match e {
        AudioError::LoadError(m) => "Failed to load audio: "@ + m@,
        AudioError::FormatError(m) => "Invalid audio format: "@ + m@,
        AudioError::DecodeError(m) => "Decoder error: "@ + m@,
        AudioError::SeekError(m) => "Seek error: "@ + m@,
        AudioError::DeviceError(m) => "Audio device error: "@ + m@,
        AudioError::UnsupportedPlatform => "Audio not supported on this platform"@,
        AudioError::NotLoaded => "No audio loaded"@,
        AudioError::PermissionDenied => "Permission denied"@,
        AudioError::Other(m) => m@,
    }
}

fn prefixed(prefix: &str, m: &String) -> (r: String)
    ensures
        r@ == prefix@ + m@,
{
    let mut s = String::from_str(prefix);
    s.append(m.as_str());
    s
}

impl AudioError {
    /// The human-readable text of this error.
    pub fn message(&self) -> (r: String)
        ensures
            r@ == audio_error_text(*self),
    {
        match self {
            AudioError::LoadError(m) => prefixed("Failed to load audio: ", m),
            AudioError::FormatError(m) => prefixed("Invalid audio format: ", m),
            AudioError::DecodeError(m) => prefixed("Decoder error: ", m),
            AudioError::SeekError(m) => prefixed("Seek error: ", m),
            AudioError::DeviceError(m) => prefixed("Audio device error: ", m),
            AudioError::UnsupportedPlatform => String::from_str("Audio not supported on this platform"),
            AudioError::NotLoaded => String::from_str("No audio loaded"),
            AudioError::PermissionDenied => String::from_str("Permission denied"),
            AudioError::Other(m) => m.clone(),
        }
    }
}

} // verus!
