//! Audio player: the playback state machine in front of a platform audio
//! backend.
//!
//! The backend (decoder and output device) belongs to the platform; each
//! operation is handed the backend's answer and decides the player's state
//! and result. Volume is kept with the backend.

use vstd::prelude::*;
use super::{AudioError, PlaybackState, audio_error_text};

verus! {

/// The state of an audio player.
pub struct PlayerView {
    pub state: PlaybackState,
    pub looping: bool,
    /// The volume, as the bits of an `f32` in 0.0..=1.0.
    pub volume_bits: u32,
    /// A backend holds loaded audio.
    pub loaded: bool,
    pub error_message: Option<Seq<char>>,
}

/// The state after a load attempt: `Ok` when the backend was created and
/// loaded the audio, paused at the start; otherwise Error with the message.
pub open spec fn after_load(v: PlayerView, loaded: Result<(), AudioError>) -> PlayerView {
    match loaded {
        Ok(()) => PlayerView {
            state: PlaybackState::Paused,
            loaded: true,
            error_message: None,
            ..v
        },
        Err(e) => PlayerView {
            state: PlaybackState::Error,
            loaded: false,
            error_message: Some(audio_error_text(e)),
            ..v
        },
    }
}

/// Audio player.
pub struct AudioPlayer {
    state: PlaybackState,
    looping: bool,
    volume_bits: u32,
    loaded: bool,
    error_message: Option<String>,
}

impl View for AudioPlayer {
    type V = PlayerView;

    closed spec fn view(&self) -> PlayerView {
        PlayerView {
            state: self.state,
            looping: self.looping,
            volume_bits: self.volume_bits,
            loaded: self.loaded,
            error_message: match self.error_message {
                Some(m) => Some(m@),
                None => None,
            },
        }
    }
}

/// The bits of the `f32` 1.0.
pub const FULL_VOLUME_BITS: u32 = 0x3f80_0000;

/// A fresh player: idle, not looping, at full volume, nothing loaded, no
/// error.
pub open spec fn fresh_player() -> PlayerView {
    PlayerView {
        state: PlaybackState::Idle,
        looping: false,
        volume_bits: FULL_VOLUME_BITS,
        loaded: false,
        error_message: None,
    }
}

/// The bits of an `f32` NaN.
pub open spec fn is_nan_bits(b: u32) -> bool {
    (0x7f80_0000 < b && b <= 0x7fff_ffff) || 0xff80_0000 < b
}

/// The bits of an `f32` in 0.0..=1.0 (-0.0 included).
pub open spec fn in_unit_range(b: u32) -> bool {
    b <= FULL_VOLUME_BITS || b == 0x8000_0000
}

/// The (non-NaN) `f32` with bits `b` clamped to 0.0..=1.0, as bits:
/// numbers below zero become 0.0 (-0.0 stays), numbers above one
/// (infinity included) become 1.0; a NaN, which has no place in the
/// range, gives 0.0.
pub open spec fn unit_clamped(b: u32) -> u32 {
    if is_nan_bits(b) || b > 0x8000_0000 {
        0
    } else if FULL_VOLUME_BITS < b && b < 0x8000_0000 {
        FULL_VOLUME_BITS
    } else {
        b
    }
}

/// Clamps the `f32` with bits `b` to 0.0..=1.0 (see [`unit_clamped`]).
pub fn clamp_unit(b: u32) -> (r: u32)
    ensures
        r == unit_clamped(b),
        in_unit_range(r),
{
    if (0x7f80_0000 < b && b <= 0x7fff_ffff) || 0xff80_0000 < b || b > 0x8000_0000 {
        0
    } else if FULL_VOLUME_BITS < b && b < 0x8000_0000 {
        FULL_VOLUME_BITS
    } else {
        b
    }
}

impl AudioPlayer {
    #[verifier::type_invariant]
    closed spec fn inv(self) -> bool {
        in_unit_range(self.volume_bits)
    }

    /// A new, idle player.
    pub fn new() -> (p: AudioPlayer)
        ensures
            p@ == fresh_player(),
    {
        AudioPlayer {
            state: PlaybackState::Idle,
            looping: false,
            volume_bits: FULL_VOLUME_BITS,
            loaded: false,
            error_message: None,
        }
    }

    fn load(&mut self, backend: Result<(), AudioError>, loaded: Result<(), AudioError>) -> (r: Result<
        (),
        AudioError,
    >)
        ensures
            match backend {
                Err(e) => r == Err::<(), AudioError>(e) && final(self)@ == (PlayerView {
                    state: PlaybackState::Loading,
                    loaded: false,
                    error_message: None,
                    ..old(self)@
                }),
                Ok(()) => r == loaded && final(self)@ == after_load(old(self)@, loaded),
            },
    {
        proof {
            use_type_invariant(&*self);
        }
        self.loaded = false;
        self.state = PlaybackState::Idle;
        self.error_message = None;
        self.state = PlaybackState::Loading;
        if backend.is_err() {
            return backend;
        }
        match &loaded {
            Ok(()) => {
                self.loaded = true;
                self.state = PlaybackState::Paused;
            },
            Err(e) => {
                self.state = PlaybackState::Error;
                self.error_message = Some(e.message());
            },
        }
        loaded
    }

    /// Loads audio from a file path. `backend` is whether a platform backend
    /// could be created; `loaded` is that backend's answer to loading the
    /// file (consulted only when the backend exists). Loading keeps the
    /// volume and looping, which a backend that loaded is then given
    /// ([`AudioPlayer::backend_settings`]).
    pub fn load_file(&mut self, backend: Result<(), AudioError>, loaded: Result<(), AudioError>) -> (r:
        Result<(), AudioError>)
        ensures
            match backend {
                Err(e) => r == Err::<(), AudioError>(e) && final(self)@ == (PlayerView {
                    state: PlaybackState::Loading,
                    loaded: false,
                    error_message: None,
                    ..old(self)@
                }),
                Ok(()) => r == loaded && final(self)@ == after_load(old(self)@, loaded),
            },
    {
        self.load(backend, loaded)
    }

    /// Loads audio from a URL; see [`AudioPlayer::load_file`].
    pub fn load_url(&mut self, backend: Result<(), AudioError>, loaded: Result<(), AudioError>) -> (r:
        Result<(), AudioError>)
        ensures
            match backend {
                Err(e) => r == Err::<(), AudioError>(e) && final(self)@ == (PlayerView {
                    state: PlaybackState::Loading,
                    loaded: false,
                    error_message: None,
                    ..old(self)@
                }),
                Ok(()) => r == loaded && final(self)@ == after_load(old(self)@, loaded),
            },
    {
        self.load(backend, loaded)
    }

    fn transport(&mut self, outcome: Result<(), AudioError>, next: PlaybackState) -> (r: Result<
        (),
        AudioError,
    >)
        ensures
            !old(self)@.loaded ==> (r matches Err(AudioError::NotLoaded)) && final(self)@ == old(self)@,
            old(self)@.loaded ==> r == outcome && final(self)@ == (match outcome {
                Ok(()) => PlayerView { state: next, ..old(self)@ },
                Err(_) => old(self)@,
            }),
    {
        proof {
            use_type_invariant(&*self);
        }
        if !self.loaded {
            return Err(AudioError::NotLoaded);
        }
        if outcome.is_ok() {
            self.state = next;
        }
        outcome
    }

    /// Starts or resumes playback; `outcome` is the backend's answer.
    pub fn play(&mut self, outcome: Result<(), AudioError>) -> (r: Result<(), AudioError>)
        ensures
            !old(self)@.loaded ==> (r matches Err(AudioError::NotLoaded)) && final(self)@ == old(self)@,
            old(self)@.loaded ==> r == outcome && final(self)@ == (match outcome {
                Ok(()) => PlayerView { state: PlaybackState::Playing, ..old(self)@ },
                Err(_) => old(self)@,
            }),
    {
        self.transport(outcome, PlaybackState::Playing)
    }

    /// Pauses playback; `outcome` is the backend's answer.
    pub fn pause(&mut self, outcome: Result<(), AudioError>) -> (r: Result<(), AudioError>)
        ensures
            !old(self)@.loaded ==> (r matches Err(AudioError::NotLoaded)) && final(self)@ == old(self)@,
            old(self)@.loaded ==> r == outcome && final(self)@ == (match outcome {
                Ok(()) => PlayerView { state: PlaybackState::Paused, ..old(self)@ },
                Err(_) => old(self)@,
            }),
    {
        self.transport(outcome, PlaybackState::Paused)
    }

    /// Stops playback and rewinds (the player is then paused); `outcome` is
    /// the backend's answer.
    pub fn stop(&mut self, outcome: Result<(), AudioError>) -> (r: Result<(), AudioError>)
        ensures
            !old(self)@.loaded ==> (r matches Err(AudioError::NotLoaded)) && final(self)@ == old(self)@,
            old(self)@.loaded ==> r == outcome && final(self)@ == (match outcome {
                Ok(()) => PlayerView { state: PlaybackState::Paused, ..old(self)@ },
                Err(_) => old(self)@,
            }),
    {
        self.transport(outcome, PlaybackState::Paused)
    }

    /// Seeks; `outcome` is the backend's answer. The state is unchanged.
    pub fn seek(&self, outcome: Result<(), AudioError>) -> (r: Result<(), AudioError>)
        ensures
            !self@.loaded ==> r matches Err(AudioError::NotLoaded),
            self@.loaded ==> r == outcome,
    {
        if !self.loaded {
            return Err(AudioError::NotLoaded);
        }
        outcome
    }

    /// Sets the volume (the bits of an `f32`), clamped to 0.0..=1.0; a NaN
    /// leaves the volume as it was. A loaded backend is then given the
    /// volume.
    pub fn set_volume(&mut self, volume_bits: u32)
        ensures
            is_nan_bits(volume_bits) ==> final(self)@ == old(self)@,
            !is_nan_bits(volume_bits) ==> final(self)@ == (PlayerView {
                volume_bits: unit_clamped(volume_bits),
                ..old(self)@
            }),
            in_unit_range(final(self)@.volume_bits),
    {
        proof {
            use_type_invariant(&*self);
        }
        let nan = (0x7f80_0000 < volume_bits && volume_bits <= 0x7fff_ffff) || 0xff80_0000
            < volume_bits;
        if !nan {
            self.volume_bits = clamp_unit(volume_bits);
        }
    }

    /// The volume, as the bits of an `f32` in 0.0..=1.0.
    pub fn volume(&self) -> (v: u32)
        ensures
            v == self@.volume_bits,
            in_unit_range(v),
    {
        proof {
            use_type_invariant(self);
        }
        self.volume_bits
    }

    /// What a backend is given when it is created by a load, and after
    /// [`AudioPlayer::set_volume`] and [`AudioPlayer::set_looping`]: the
    /// player's volume (`f32` bits) and whether it loops.
    pub fn backend_settings(&self) -> (r: (u32, bool))
        ensures
            r == (self@.volume_bits, self@.looping),
    {
        (self.volume_bits, self.looping)
    }

    /// Sets whether the audio loops.
    pub fn set_looping(&mut self, looping: bool)
        ensures
            final(self)@ == (PlayerView { looping, ..old(self)@ }),
    {
        proof {
            use_type_invariant(&*self);
        }
        self.looping = looping;
    }

    /// Whether the audio loops.
    pub fn is_looping(&self) -> (b: bool)
        ensures
            b == self@.looping,
    {
        self.looping
    }

    /// The current playback state.
    pub fn state(&self) -> (s: PlaybackState)
        ensures
            s == self@.state,
    {
        self.state
    }

    /// Whether a backend holds loaded audio.
    pub fn is_loaded(&self) -> (b: bool)
        ensures
            b == self@.loaded,
    {
        self.loaded
    }

    /// The playback position: the backend's position when audio is
    /// loaded, 0 otherwise.
    pub fn current_time_ms(&self, backend_time_ms: u64) -> (t: u64)
        ensures
            t == if self@.loaded {
                backend_time_ms
            } else {
                0
            },
    {
        if self.loaded {
            backend_time_ms
        } else {
            0
        }
    }

    /// The message of the last failed load.
    pub fn error_message(&self) -> (m: Option<&str>)
        ensures
            match m {
                Some(s) => self@.error_message == Some(s@),
                None => self@.error_message is None,
            },
    {
        match &self.error_message {
            Some(s) => Some(s.as_str()),
            None => None,
        }
    }

    /// Takes the backend's state after its periodic update; returns whether
    /// the player's state changed.
    pub fn update(&mut self, backend_state: PlaybackState) -> (changed: bool)
        ensures
            changed == (old(self)@.loaded && backend_state != old(self)@.state),
            final(self)@ == if old(self)@.loaded {
                PlayerView { state: backend_state, ..old(self)@ }
            } else {
                old(self)@
            },
    {
        proof {
            use_type_invariant(&*self);
        }
        if self.loaded {
            let same = match (backend_state, self.state) {
                (PlaybackState::Idle, PlaybackState::Idle) => true,
                (PlaybackState::Loading, PlaybackState::Loading) => true,
                (PlaybackState::Playing, PlaybackState::Playing) => true,
                (PlaybackState::Paused, PlaybackState::Paused) => true,
                (PlaybackState::Ended, PlaybackState::Ended) => true,
                (PlaybackState::Error, PlaybackState::Error) => true,
                _ => false,
            };
            if !same {
                self.state = backend_state;
                return true;
            }
        }
        false
    }
}

impl Default for AudioPlayer {
    /// Same as [`AudioPlayer::new`].
    fn default() -> (p: AudioPlayer)
        ensures
            p@ == fresh_player(),
    {
        AudioPlayer::new()
    }
}

/// A successful load leaves the player paused at the start with no error,
/// and a failed load leaves it in the Error state carrying the error's
/// text; either way volume and looping are kept.
pub proof fn lemma_load_outcomes(v: PlayerView, loaded: Result<(), AudioError>)
    ensures
        loaded is Ok ==> after_load(v, loaded).state == PlaybackState::Paused
            && after_load(v, loaded).loaded && after_load(v, loaded).error_message is None,
        loaded matches Err(e) ==> after_load(v, loaded).state == PlaybackState::Error
            && !after_load(v, loaded).loaded && after_load(v, loaded).error_message == Some(
            audio_error_text(e),
        ),
        after_load(v, loaded).looping == v.looping,
        after_load(v, loaded).volume_bits == v.volume_bits,
{
}

/// Clamping a volume keeps any value already in 0.0..=1.0, turns every
/// number above one (infinity included) into 1.0 and every number below
/// zero (minus infinity included) into 0.0; only a NaN, which setting the
/// volume ignores, has no place in the range.
pub proof fn lemma_volume_clamp(b: u32)
    ensures
        in_unit_range(b) ==> unit_clamped(b) == b,
        FULL_VOLUME_BITS < b <= 0x7f80_0000 ==> unit_clamped(b) == FULL_VOLUME_BITS,
        0x8000_0000 < b <= 0xff80_0000 ==> unit_clamped(b) == 0,
        !is_nan_bits(b) ==> in_unit_range(unit_clamped(b)),
        unit_clamped(unit_clamped(b)) == unit_clamped(b),
{
}

} // verus!
