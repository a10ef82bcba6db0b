//! Audio input (microphone) capture: the capture state machine.
//!
//! Device enumeration and the capture stream belong to the platform audio
//! host; the host's answers (device lists, whether a default device exists,
//! whether a stream could be started or paused) are handed in, and this
//! module decides the resulting state and result.

use vstd::prelude::*;
use vstd::string::*;
use super::{AudioError, AudioInfo};

verus! {

/// Audio input state.
#[derive(Clone, Copy, Debug, PartialEq, Eq, Structural)]
pub enum AudioInputState {
    /// Not initialized
    Idle,
    /// Requesting permissions
    RequestingPermission,
    /// Ready to capture
    Ready,
    /// Currently capturing
    Capturing,
    /// Stopped
    Stopped,
    /// Error occurred
    Error,
}

/// The FFI number of each input state.
pub open spec fn input_state_code(s: AudioInputState) -> i32 {
    match s {
        AudioInputState::Idle => 0,
        AudioInputState::RequestingPermission => 1,
        AudioInputState::Ready => 2,
        AudioInputState::Capturing => 3,
        AudioInputState::Stopped => 4,
        AudioInputState::Error => 5,
    }
}

/// The input state an FFI number stands for; unknown numbers mean Error.
pub open spec fn input_state_of(v: i32) -> AudioInputState {
    if v == 0 {
        AudioInputState::Idle
    } else if v == 1 {
        AudioInputState::RequestingPermission
    } else if v == 2 {
        AudioInputState::Ready
    } else if v == 3 {
        AudioInputState::Capturing
    } else if v == 4 {
        AudioInputState::Stopped
    } else {
        AudioInputState::Error
    }
}

impl AudioInputState {
    /// The FFI number of this state.
    pub fn as_i32(self) -> (r: i32)
        ensures
            r == input_state_code(self),
    {
        match self {
            AudioInputState::Idle => 0,
            AudioInputState::RequestingPermission => 1,
            AudioInputState::Ready => 2,
            AudioInputState::Capturing => 3,
            AudioInputState::Stopped => 4,
            AudioInputState::Error => 5,
        }
    }

    /// The state an FFI number stands for (Error for unknown numbers).
    pub fn from_i32(value: i32) -> (r: AudioInputState)
        ensures
            r == input_state_of(value),
    {
        match value {
            0 => AudioInputState::Idle,
            1 => AudioInputState::RequestingPermission,
            2 => AudioInputState::Ready,
            3 => AudioInputState::Capturing,
            4 => AudioInputState::Stopped,
            _ => AudioInputState::Error,
        }
    }
}

/// Converting a state to its number and back gives the state.
pub proof fn lemma_input_state_roundtrip(s: AudioInputState)
    ensures
        input_state_of(input_state_code(s)) == s,
{
}

/// The numbers 0 to 5 survive the trip through a state; every other number
/// becomes Error (5).
pub proof fn lemma_input_code_roundtrip(v: i32)
    ensures
        0 <= v <= 5 ==> input_state_code(input_state_of(v)) == v,
        !(0 <= v <= 5) ==> input_state_of(v) == AudioInputState::Error,
{
}

/// Audio input configuration.
#[derive(Clone, Copy, Debug, PartialEq, Eq, Structural)]
pub struct AudioInputConfig {
    /// Sample rate in Hz (default: 44100)
    pub sample_rate: u32,
    /// Number of channels (default: 1 for mono)
    pub channels: u32,
    /// Bits per sample (default: 16)
    pub bits_per_sample: u32,
    /// Buffer size in samples (default: 1024)
    pub buffer_size: u32,
}

impl Default for AudioInputConfig {
    /// 44100 Hz, mono, 16-bit samples, 1024-sample buffers.
    fn default() -> (c: AudioInputConfig)
        ensures
            c.sample_rate == 44100,
            c.channels == 1,
            c.bits_per_sample == 16,
            c.buffer_size == 1024,
    {
        AudioInputConfig { sample_rate: 44100, channels: 1, bits_per_sample: 16, buffer_size: 1024 }
    }
}

impl AudioInputConfig {
    /// The configuration asked for through the C interface: a sample rate
    /// or channel count of 0 means the default (44100 Hz, mono); sample
    /// size and buffer size are the defaults.
    pub fn requested(sample_rate: u32, channels: u32) -> (c: AudioInputConfig)
        ensures
            c.sample_rate == if sample_rate == 0 {
                44100
            } else {
                sample_rate
            },
            c.channels == if channels == 0 {
                1
            } else {
                channels
            },
            c.bits_per_sample == 16,
            c.buffer_size == 1024,
    {
        AudioInputConfig {
            sample_rate: if sample_rate == 0 {
                44100
            } else {
                sample_rate
            },
            channels: if channels == 0 {
                1
            } else {
                channels
            },
            bits_per_sample: 16,
            buffer_size: 1024,
        }
    }
}

/// Audio input device information.
#[derive(Clone, Debug)]
pub struct AudioInputDevice {
    /// Unique device identifier
    pub id: String,
    /// Human-readable device name
    pub name: String,
    /// Whether this is the default device
    pub is_default: bool,
}

pub struct DeviceEntry {
    pub id: Seq<char>,
    pub name: Seq<char>,
    pub is_default: bool,
}

impl View for AudioInputDevice {
    type V = DeviceEntry;

    open spec fn view(&self) -> DeviceEntry {
        DeviceEntry { id: self.id@, name: self.name@, is_default: self.is_default }
    }
}

pub open spec fn devices_view(ds: Seq<AudioInputDevice>) -> Seq<DeviceEntry> {
    ds.map_values(|d: AudioInputDevice| d@)
}

/// The devices listed for the host's devices, in order: devices whose name
/// could not be read (`None`) are left out; the id is the name, and the
/// device whose name is the default device's name is marked default.
pub open spec fn device_entries(default_name: Option<Seq<char>>, names: Seq<Option<String>>) -> Seq<
    DeviceEntry,
>
    decreases names.len(),
{
    if names.len() == 0 {
        Seq::empty()
    } else {
        let prev = device_entries(default_name, names.drop_last());
        match names.last() {
            Some(n) => prev.push(
                DeviceEntry { id: n@, name: n@, is_default: default_name == Some(n@) },
            ),
            None => prev,
        }
    }
}

/// Is `names[i]` the name `id`.
pub open spec fn names_match(names: Seq<Option<String>>, i: int, id: Seq<char>) -> bool {
    match names[i] {
        Some(n) => n@ == id,
        None => false,
    }
}

/// `i` is the first position whose name is `id`.
pub open spec fn first_match(names: Seq<Option<String>>, id: Seq<char>, i: int) -> bool {
    &&& 0 <= i < names.len()
    &&& names_match(names, i, id)
    &&& forall|j: int| 0 <= j < i ==> !names_match(names, j, id)
}

/// Which device an input was opened on.
#[derive(Clone, Copy, Debug, PartialEq, Eq, Structural)]
pub enum SelectedDevice {
    /// The host's default input device.
    Default,
    /// The device at this position of the host's device list.
    Listed(usize),
}

/// Capture stream settings derived from the configuration.
#[derive(Clone, Copy, Debug, PartialEq, Eq, Structural)]
pub struct StreamSettings {
    pub channels: u16,
    pub sample_rate: u32,
    /// Fixed buffer size in samples.
    pub buffer_size: u32,
}

/// Why a capture stream could not be started.
pub enum StreamFailure {
    /// Building the stream failed, with the host's reason.
    Build(String),
    /// The stream was built but would not play, with the host's reason.
    Play(String),
}

/// The state of an audio input.
pub struct AudioInputView {
    pub state: AudioInputState,
    pub info: Option<AudioInfo>,
    pub device: Option<SelectedDevice>,
    pub settings: Option<StreamSettings>,
    pub streaming: bool,
}

/// The state after the input was opened on `device` with `config`.
pub open spec fn opened(v: AudioInputView, device: SelectedDevice, config: AudioInputConfig) -> AudioInputView {
    AudioInputView {
        state: AudioInputState::Ready,
        info: Some(
            AudioInfo {
                duration_ms: 0,
                sample_rate: config.sample_rate,
                channels: config.channels,
                is_stream: true,
            },
        ),
        device: Some(device),
        settings: Some(
            StreamSettings {
                channels: config.channels as u16,
                sample_rate: config.sample_rate,
                buffer_size: config.buffer_size,
            },
        ),
        streaming: v.streaming,
    }
}

/// `e` is a device error whose message is `text`.
pub open spec fn is_device_error(e: AudioError, text: Seq<char>) -> bool {
    e matches AudioError::DeviceError(m) && m@ == text
}

/// The text of an optional string.
pub open spec fn opt_string_view(o: Option<String>) -> Option<Seq<char>> {
    match o {
        Some(s) => Some(s@),
        None => None,
    }
}

/// `r` failed with a device error whose message is `text`.
pub open spec fn device_failure<T>(r: Result<T, AudioError>, text: Seq<char>) -> bool {
    match r {
        Err(e) => is_device_error(e, text),
        Ok(_) => false,
    }
}

/// Cross-platform audio input.
pub struct AudioInput {
    state: AudioInputState,
    info: Option<AudioInfo>,
    device: Option<SelectedDevice>,
    settings: Option<StreamSettings>,
    streaming: bool,
}

impl View for AudioInput {
    type V = AudioInputView;

    closed spec fn view(&self) -> AudioInputView {
        AudioInputView {
            state: self.state,
            info: self.info,
            device: self.device,
            settings: self.settings,
            streaming: self.streaming,
        }
    }
}

fn device_error_msg(msg: &str) -> (e: AudioError)
    ensures
        is_device_error(e, msg@),
{
    AudioError::DeviceError(String::from_str(msg))
}

fn device_error_with(prefix: &str, detail: &str) -> (e: AudioError)
    ensures
        is_device_error(e, prefix@ + detail@),
{
    let mut s = String::from_str(prefix);
    s.append(detail);
    AudioError::DeviceError(s)
}

/// The first position whose name is `wanted`.
fn find_device(names: &Vec<Option<String>>, wanted: &String) -> (r: Option<usize>)
    ensures
        match r {
            Some(k) => first_match(names@, wanted@, k as int),
            None => forall|j: int| 0 <= j < names@.len() ==> !names_match(names@, j, wanted@),
        },
{
    let mut i: usize = 0;
    while i < names.len()
        invariant
            i <= names@.len(),
            forall|j: int| 0 <= j < i ==> !names_match(names@, j, wanted@),
        decreases names@.len() - i,
    {
        let hit = match &names[i] {
            Some(n) => *n == *wanted,
            None => false,
        };
        if hit {
            return Some(i);
        }
        i = i + 1;
    }
    None
}

fn device_error(prefix: &str, detail: &str, suffix: &str) -> (e: AudioError)
    ensures
        is_device_error(e, prefix@ + detail@ + suffix@),
{
    let mut s = String::from_str(prefix);
    s.append(detail);
    s.append(suffix);
    AudioError::DeviceError(s)
}

impl AudioInput {
    /// A new, idle audio input with nothing opened.
    pub fn new() -> (r: AudioInput)
        ensures
            r@ == (AudioInputView {
                state: AudioInputState::Idle,
                info: None,
                device: None,
                settings: None,
                streaming: false,
            }),
    {
        AudioInput {
            state: AudioInputState::Idle,
            info: None,
            device: None,
            settings: None,
            streaming: false,
        }
    }

    /// Permission request: granted exactly when the host has a default
    /// input device (state Ready), refused otherwise (state Error).
    pub fn request_permission(&mut self, default_device_present: bool) -> (r: Result<(), AudioError>)
        ensures
            default_device_present ==> r is Ok && final(self)@ == (AudioInputView {
                state: AudioInputState::Ready,
                ..old(self)@
            }),
            !default_device_present ==> final(self)@ == (AudioInputView {
                state: AudioInputState::Error,
                ..old(self)@
            }) && device_failure(r, "No audio input devices available"@),
    {
        if default_device_present {
            self.state = AudioInputState::Ready;
            Ok(())
        } else {
            self.state = AudioInputState::Error;
            Err(device_error_msg("No audio input devices available"))
        }
    }

    /// Permission is implicit: it is held when the host has a default input
    /// device.
    pub fn has_permission(&self, default_device_present: bool) -> (r: bool)
        ensures
            r == default_device_present,
    {
        default_device_present
    }

    /// The input devices, from the host's device names (`None` for a device
    /// whose name could not be read) and its default device's name; or the
    /// host's enumeration failure.
    pub fn list_devices(
        &self,
        default_name: Option<String>,
        enumeration: Result<Vec<Option<String>>, String>,
    ) -> (r: Result<Vec<AudioInputDevice>, AudioError>)
        ensures
            match enumeration {
                Err(msg) => device_failure(r, "Failed to enumerate devices: "@ + msg@,
                ),
                Ok(names) => r matches Ok(ds) && devices_view(ds@) == device_entries(
                    opt_string_view(default_name),
                    names@,
                ),
            },
    {
        let names = match enumeration {
            Err(msg) => {
                let e = device_error_with("Failed to enumerate devices: ", msg.as_str());
                return Err(e);
            },
            Ok(names) => names,
        };
        let ghost dn = opt_string_view(default_name);
        let mut result: Vec<AudioInputDevice> = Vec::new();
        let mut i: usize = 0;
        while i < names.len()
            invariant
                i <= names@.len(),
                dn == opt_string_view(default_name),
                devices_view(result@) == device_entries(dn, names@.subrange(0, i as int)),
            decreases names@.len() - i,
        {
            let ghost before = result@;
            assert(names@.subrange(0, i + 1).drop_last() =~= names@.subrange(0, i as int));
            match &names[i] {
                Some(name) => {
                    let is_default = match &default_name {
                        Some(d) => *d == *name,
                        None => false,
                    };
                    let dev = AudioInputDevice { id: name.clone(), name: name.clone(), is_default };
                    result.push(dev);
                    assert(devices_view(result@) =~= devices_view(before).push(dev@));
                },
                None => {},
            }
            i = i + 1;
        }
        assert(names@.subrange(0, names@.len() as int) =~= names@);
        Ok(result)
    }

    /// Opens the device named `device_id`, searched in the host's device
    /// list (`enumeration`), or the default device when no name is given
    /// (`default_device_present`). On failure nothing changes.
    pub fn open(
        &mut self,
        device_id: Option<&str>,
        config: &AudioInputConfig,
        enumeration: Result<Vec<Option<String>>, String>,
        default_device_present: bool,
    ) -> (r: Result<(), AudioError>)
        ensures
            r is Err ==> final(self)@ == old(self)@,
            match device_id {
                Some(id) => match enumeration {
                    Err(msg) => device_failure(r, "Failed to enumerate devices: "@ + msg@,
                    ),
                    Ok(names) => {
                        &&& (exists|i: int| first_match(names@, id@, i)) ==> r is Ok
                        &&& forall|i: int|
                            first_match(names@, id@, i) ==> final(self)@ == opened(
                                old(self)@,
                                SelectedDevice::Listed(i as usize),
                                *config,
                            )
                        &&& !(exists|i: int| first_match(names@, id@, i)) ==> device_failure(r, "Device '"@ + id@ + "' not found"@)
                    },
                },
                None => if default_device_present {
                    r is Ok && final(self)@ == opened(old(self)@, SelectedDevice::Default, *config)
                } else {
                    device_failure(r, "No default input device"@)
                },
            },
    {
        let device = match device_id {
            Some(id) => {
                let names = match enumeration {
                    Err(msg) => {
                        return Err(device_error_with("Failed to enumerate devices: ", msg.as_str()));
                    },
                    Ok(names) => names,
                };
                let wanted = String::from_str(id);
                let found = find_device(&names, &wanted);
                match found {
                    Some(k) => {
                        assert(first_match(names@, id@, k as int));
                        assert forall|j: int| first_match(names@, id@, j) implies j == k by {
                            if j < k {
                            } else if j > k {
                                assert(names_match(names@, k as int, id@));
                            }
                        }
                        SelectedDevice::Listed(k)
                    },
                    None => {
                        assert(!(exists|j: int| first_match(names@, id@, j)));
                        return Err(device_error("Device '", id, "' not found"));
                    },
                }
            },
            None => {
                if !default_device_present {
                    return Err(device_error_msg("No default input device"));
                }
                SelectedDevice::Default
            },
        };
        self.device = Some(device);
        self.settings = Some(
            StreamSettings {
                channels: config.channels as u16,
                sample_rate: config.sample_rate,
                buffer_size: config.buffer_size,
            },
        );
        self.info = Some(
            AudioInfo {
                duration_ms: 0,
                sample_rate: config.sample_rate,
                channels: config.channels,
                is_stream: true,
            },
        );
        self.state = AudioInputState::Ready;
        Ok(())
    }

    /// The device and stream settings a capture stream must be started
    /// with; an error when no device or no configuration has been set.
    pub fn stream_request(&self) -> (r: Result<(SelectedDevice, StreamSettings), AudioError>)
        ensures
            match (self@.device, self@.settings) {
                (Some(d), Some(s)) => r == Ok::<(SelectedDevice, StreamSettings), AudioError>((d, s)),
                (None, _) => device_failure(r, "No device opened"@),
                (Some(_), None) => device_failure(r, "No configuration set"@),
            },
    {
        match self.device {
            None => Err(device_error_msg("No device opened")),
            Some(d) => match self.settings {
                None => Err(device_error_msg("No configuration set")),
                Some(s) => Ok((d, s)),
            },
        }
    }

    /// Records the outcome of starting the capture stream described by
    /// [`AudioInput::stream_request`]: on success the input is capturing.
    /// Without a device or configuration the outcome is not consulted.
    pub fn start(&mut self, outcome: Result<(), StreamFailure>) -> (r: Result<(), AudioError>)
        ensures
            old(self)@.device is None ==> device_failure(r, "No device opened"@)
                && final(self)@ == old(self)@,
            old(self)@.device is Some && old(self)@.settings is None ==> device_failure(r, "No configuration set"@) && final(self)@ == old(self)@,
            old(self)@.device is Some && old(self)@.settings is Some ==> match outcome {
                Ok(()) => r is Ok && final(self)@ == (AudioInputView {
                    state: AudioInputState::Capturing,
                    streaming: true,
                    ..old(self)@
                }),
                Err(StreamFailure::Build(m)) => device_failure(r, "Failed to build stream: "@ + m@,
                ) && final(self)@ == old(self)@,
                Err(StreamFailure::Play(m)) => device_failure(r, "Failed to start stream: "@ + m@,
                ) && final(self)@ == old(self)@,
            },
    {
        if let Err(e) = self.stream_request() {
            return Err(e);
        }
        match outcome {
            Ok(()) => {
                self.streaming = true;
                self.state = AudioInputState::Capturing;
                Ok(())
            },
            Err(StreamFailure::Build(m)) => Err(
                device_error_with("Failed to build stream: ", m.as_str()),
            ),
            Err(StreamFailure::Play(m)) => Err(
                device_error_with("Failed to start stream: ", m.as_str()),
            ),
        }
    }

    /// Stops capturing. When a stream exists `pause_outcome` is the result
    /// of pausing it; a failed pause leaves the input unchanged.
    pub fn stop(&mut self, pause_outcome: Result<(), String>) -> (r: Result<(), AudioError>)
        ensures
            (!old(self)@.streaming || pause_outcome is Ok) ==> r is Ok && final(self)@ == (
            AudioInputView { state: AudioInputState::Stopped, ..old(self)@ }),
            old(self)@.streaming ==> match pause_outcome {
                Ok(()) => true,
                Err(m) => device_failure(r, "Failed to pause stream: "@ + m@)
                    && final(self)@ == old(self)@,
            },
    {
        if self.streaming {
            if let Err(m) = pause_outcome {
                return Err(device_error_with("Failed to pause stream: ", m.as_str()));
            }
        }
        self.state = AudioInputState::Stopped;
        Ok(())
    }

    /// Closes the device: stream, device, settings and audio info are
    /// dropped and the input is idle again.
    pub fn close(&mut self)
        ensures
            final(self)@ == (AudioInputView {
                state: AudioInputState::Idle,
                info: None,
                device: None,
                settings: None,
                streaming: false,
            }),
    {
        self.info = None;
        self.streaming = false;
        self.device = None;
        self.settings = None;
        self.state = AudioInputState::Idle;
    }

    /// The current state.
    pub fn state(&self) -> (s: AudioInputState)
        ensures
            s == self@.state,
    {
        self.state
    }

    /// The audio info of the opened device.
    pub fn info(&self) -> (i: Option<&AudioInfo>)
        ensures
            match i {
                Some(x) => self@.info == Some(*x),
                None => self@.info is None,
            },
    {
        match &self.info {
            Some(x) => Some(x),
            None => None,
        }
    }

    /// The device the input was opened on.
    pub fn selected_device(&self) -> (d: Option<SelectedDevice>)
        ensures
            d == self@.device,
    {
        self.device
    }

    /// Whether a capture stream exists.
    pub fn is_streaming(&self) -> (b: bool)
        ensures
            b == self@.streaming,
    {
        self.streaming
    }
}

impl Default for AudioInput {
    /// Same as [`AudioInput::new`].
    fn default() -> (r: AudioInput)
        ensures
            r@ == (AudioInputView {
                state: AudioInputState::Idle,
                info: None,
                device: None,
                settings: None,
                streaming: false,
            }),
    {
        AudioInput::new()
    }
}

/// Opening leaves the input ready on the opened device, with the stream
/// settings and the audio info that the configuration gives; so a start
/// that follows finds both a device and settings.
pub proof fn lemma_open_prepares_stream(v: AudioInputView, device: SelectedDevice, config: AudioInputConfig)
    ensures
        opened(v, device, config).state == AudioInputState::Ready,
        opened(v, device, config).device == Some(device),
        opened(v, device, config).settings == Some(
            StreamSettings {
                channels: config.channels as u16,
                sample_rate: config.sample_rate,
                buffer_size: config.buffer_size,
            },
        ),
        opened(v, device, config).info == Some(
            AudioInfo {
                duration_ms: 0,
                sample_rate: config.sample_rate,
                channels: config.channels,
                is_stream: true,
            },
        ),
{
}

/// Each listed device has its name as its id and is marked default exactly
/// when its name is the default device's; there are never more entries
/// than host devices, and when every name could be read there is one
/// entry per host device, in the host's order, named as the host names it.
pub proof fn lemma_device_entries_follow_names(default_name: Option<Seq<char>>, names: Seq<Option<String>>)
    ensures
        device_entries(default_name, names).len() <= names.len(),
        forall|i: int|
            0 <= i < device_entries(default_name, names).len() ==> (#[trigger] device_entries(
                default_name,
                names,
            )[i]).id == device_entries(default_name, names)[i].name && device_entries(
                default_name,
                names,
            )[i].is_default == (default_name == Some(device_entries(default_name, names)[i].name)),
        (forall|j: int| 0 <= j < names.len() ==> #[trigger] names[j] is Some) ==> device_entries(
            default_name,
            names,
        ).len() == names.len() && forall|j: int|
            0 <= j < names.len() ==> (#[trigger] device_entries(default_name, names)[j]).name
                == names[j]->0@,
    decreases names.len(),
{
    if names.len() > 0 {
        let prev = names.drop_last();
        lemma_device_entries_follow_names(default_name, prev);
        if forall|j: int| 0 <= j < names.len() ==> #[trigger] names[j] is Some {
            assert forall|j: int| 0 <= j < prev.len() implies #[trigger] prev[j] is Some by {
                assert(names[j] is Some);
            }
            assert(names[names.len() - 1] is Some);
        }
    }
}

} // verus!
