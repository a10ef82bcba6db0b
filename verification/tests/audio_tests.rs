use centered_engine::audio::input::{
    AudioInput, AudioInputConfig, AudioInputState, SelectedDevice, StreamFailure,
};
use centered_engine::audio::player::AudioPlayer;
use centered_engine::audio::{AudioError, AudioInfo, PlaybackState};

#[test]
fn test_playback_state_values() {
    assert_eq!(PlaybackState::Idle as i32, 0);
    assert_eq!(PlaybackState::Loading as i32, 1);
    assert_eq!(PlaybackState::Playing as i32, 2);
    assert_eq!(PlaybackState::Paused as i32, 3);
    assert_eq!(PlaybackState::Ended as i32, 4);
    assert_eq!(PlaybackState::Error as i32, 5);
}

#[test]
fn test_audio_info_default() {
    let info = AudioInfo::default();
    assert_eq!(info.duration_ms, 0);
    assert_eq!(info.sample_rate, 0);
    assert_eq!(info.channels, 0);
    assert!(!info.is_stream);
}

#[test]
fn test_input_creation() {
    let input = AudioInput::new();
    assert_eq!(input.state(), AudioInputState::Idle);
}

#[test]
fn test_list_devices() {
    let input = AudioInput::new();
    // A host without devices lists none.
    let _ = input.list_devices(None, Ok(Vec::new()));
}

#[test]
fn macos_input_test_audio_input_creation() {
    let input = AudioInput::new();
    assert_eq!(input.state(), AudioInputState::Idle);
}

#[test]
fn windows_input_test_audio_input_creation() {
    let input = AudioInput::new();
    assert_eq!(input.state(), AudioInputState::Idle);
}

#[test]
fn playback_state_codes_through_as_i32() {
    assert_eq!(PlaybackState::Idle.as_i32(), 0);
    assert_eq!(PlaybackState::Playing.as_i32(), 2);
    assert_eq!(PlaybackState::Error.as_i32(), 5);
}

#[test]
fn input_state_codes_round_trip() {
    let all = [
        AudioInputState::Idle,
        AudioInputState::RequestingPermission,
        AudioInputState::Ready,
        AudioInputState::Capturing,
        AudioInputState::Stopped,
        AudioInputState::Error,
    ];
    for (i, s) in all.iter().enumerate() {
        assert_eq!(s.as_i32(), i as i32);
        assert_eq!(AudioInputState::from_i32(i as i32), *s);
    }
    assert_eq!(AudioInputState::from_i32(42), AudioInputState::Error);
    assert_eq!(AudioInputState::from_i32(-1), AudioInputState::Error);
}

#[test]
fn input_config_default_values() {
    let c = AudioInputConfig::default();
    assert_eq!(c.sample_rate, 44100);
    assert_eq!(c.channels, 1);
    assert_eq!(c.bits_per_sample, 16);
    assert_eq!(c.buffer_size, 1024);
}

#[test]
fn audio_error_messages() {
    assert_eq!(
        AudioError::LoadError("x.mp3".to_string()).message(),
        "Failed to load audio: x.mp3"
    );
    assert_eq!(AudioError::FormatError("ogg".to_string()).message(), "Invalid audio format: ogg");
    assert_eq!(AudioError::DecodeError("bad".to_string()).message(), "Decoder error: bad");
    assert_eq!(AudioError::SeekError("far".to_string()).message(), "Seek error: far");
    assert_eq!(AudioError::DeviceError("gone".to_string()).message(), "Audio device error: gone");
    assert_eq!(AudioError::UnsupportedPlatform.message(), "Audio not supported on this platform");
    assert_eq!(AudioError::NotLoaded.message(), "No audio loaded");
    assert_eq!(AudioError::PermissionDenied.message(), "Permission denied");
    assert_eq!(AudioError::Other("plain".to_string()).message(), "plain");
}

fn device_message(r: Result<(), AudioError>) -> String {
    match r {
        Err(AudioError::DeviceError(m)) => m,
        other => panic!("expected a device error, got {:?}", other),
    }
}

#[test]
fn permission_follows_default_device() {
    let mut input = AudioInput::new();
    assert!(input.request_permission(true).is_ok());
    assert_eq!(input.state(), AudioInputState::Ready);
    assert!(input.has_permission(true));
    assert!(!input.has_permission(false));

    let mut input = AudioInput::new();
    let m = device_message(input.request_permission(false));
    assert_eq!(m, "No audio input devices available");
    assert_eq!(input.state(), AudioInputState::Error);
}

#[test]
fn list_devices_skips_unnamed_and_marks_default() {
    let input = AudioInput::new();
    let names = vec![Some("Mic A".to_string()), None, Some("Mic B".to_string())];
    let ds = input.list_devices(Some("Mic B".to_string()), Ok(names)).unwrap();
    assert_eq!(ds.len(), 2);
    assert_eq!(ds[0].id, "Mic A");
    assert_eq!(ds[0].name, "Mic A");
    assert!(!ds[0].is_default);
    assert_eq!(ds[1].id, "Mic B");
    assert!(ds[1].is_default);

    match input.list_devices(None, Err("host down".to_string())) {
        Err(AudioError::DeviceError(m)) => assert_eq!(m, "Failed to enumerate devices: host down"),
        _ => panic!("expected an enumeration failure"),
    }
}

#[test]
fn open_start_stop_close_cycle() {
    let mut input = AudioInput::new();
    let config = AudioInputConfig { sample_rate: 48000, channels: 2, bits_per_sample: 16, buffer_size: 512 };
    let names = vec![None, Some("USB".to_string()), Some("USB".to_string())];
    assert!(input.open(Some("USB"), &config, Ok(names), false).is_ok());
    assert_eq!(input.state(), AudioInputState::Ready);
    assert_eq!(input.selected_device(), Some(SelectedDevice::Listed(1)));
    let info = *input.info().unwrap();
    assert_eq!(info.sample_rate, 48000);
    assert_eq!(info.channels, 2);
    assert_eq!(info.duration_ms, 0);
    assert!(info.is_stream);
    let (dev, settings) = input.stream_request().unwrap();
    assert_eq!(dev, SelectedDevice::Listed(1));
    assert_eq!(settings.channels, 2);
    assert_eq!(settings.sample_rate, 48000);
    assert_eq!(settings.buffer_size, 512);

    assert!(input.start(Ok(())).is_ok());
    assert_eq!(input.state(), AudioInputState::Capturing);
    assert!(input.is_streaming());

    let m = device_message(input.stop(Err("busy".to_string())));
    assert_eq!(m, "Failed to pause stream: busy");
    assert_eq!(input.state(), AudioInputState::Capturing);

    assert!(input.stop(Ok(())).is_ok());
    assert_eq!(input.state(), AudioInputState::Stopped);

    input.close();
    assert_eq!(input.state(), AudioInputState::Idle);
    assert_eq!(input.selected_device(), None);
    assert!(!input.is_streaming());
    assert!(input.info().is_none());
}

#[test]
fn open_failures_leave_input_unchanged() {
    let mut input = AudioInput::new();
    let config = AudioInputConfig::default();
    let m = device_message(input.open(Some("Nope"), &config, Ok(vec![Some("Mic".to_string())]), true));
    assert_eq!(m, "Device 'Nope' not found");
    assert_eq!(input.state(), AudioInputState::Idle);
    assert!(input.info().is_none());

    let m = device_message(input.open(None, &config, Ok(Vec::new()), false));
    assert_eq!(m, "No default input device");

    let m = device_message(input.open(Some("Mic"), &config, Err("no host".to_string()), true));
    assert_eq!(m, "Failed to enumerate devices: no host");

    assert!(input.open(None, &config, Ok(Vec::new()), true).is_ok());
    assert_eq!(input.selected_device(), Some(SelectedDevice::Default));
}

#[test]
fn start_errors() {
    let mut input = AudioInput::new();
    assert_eq!(device_message(input.start(Ok(()))), "No device opened");

    let config = AudioInputConfig::default();
    input.open(None, &config, Ok(Vec::new()), true).unwrap();
    let m = device_message(input.start(Err(StreamFailure::Build("fmt".to_string()))));
    assert_eq!(m, "Failed to build stream: fmt");
    let m = device_message(input.start(Err(StreamFailure::Play("dead".to_string()))));
    assert_eq!(m, "Failed to start stream: dead");
    assert_eq!(input.state(), AudioInputState::Ready);
    assert!(!input.is_streaming());
}

#[test]
fn stop_without_stream_succeeds() {
    let mut input = AudioInput::new();
    assert!(input.stop(Err("ignored".to_string())).is_ok());
    assert_eq!(input.state(), AudioInputState::Stopped);
}

#[test]
fn player_load_and_transport() {
    let mut p = AudioPlayer::new();
    assert_eq!(p.state(), PlaybackState::Idle);
    assert!(!p.is_looping());
    assert!(!p.is_loaded());
    assert!(matches!(p.play(Ok(())), Err(AudioError::NotLoaded)));
    assert!(matches!(p.seek(Ok(())), Err(AudioError::NotLoaded)));
    assert_eq!(p.current_time_ms(1234), 0);

    assert!(p.load_file(Ok(()), Ok(())).is_ok());
    assert_eq!(p.state(), PlaybackState::Paused);
    assert!(p.is_loaded());
    assert!(p.error_message().is_none());

    assert!(p.play(Ok(())).is_ok());
    assert_eq!(p.state(), PlaybackState::Playing);
    assert_eq!(p.current_time_ms(1234), 1234);
    assert!(p.pause(Ok(())).is_ok());
    assert_eq!(p.state(), PlaybackState::Paused);
    assert!(p.play(Err(AudioError::Other("device".to_string()))).is_err());
    assert_eq!(p.state(), PlaybackState::Paused);
    assert!(p.stop(Ok(())).is_ok());
    assert_eq!(p.state(), PlaybackState::Paused);

    p.set_looping(true);
    assert!(p.is_looping());

    assert!(p.update(PlaybackState::Ended));
    assert_eq!(p.state(), PlaybackState::Ended);
    assert!(!p.update(PlaybackState::Ended));
}

#[test]
fn player_failed_load_keeps_message() {
    let mut p = AudioPlayer::new();
    let r = p.load_url(Ok(()), Err(AudioError::LoadError("404".to_string())));
    assert!(matches!(r, Err(AudioError::LoadError(_))));
    assert_eq!(p.state(), PlaybackState::Error);
    assert_eq!(p.error_message(), Some("Failed to load audio: 404"));
    assert!(!p.is_loaded());

    let mut p = AudioPlayer::new();
    let r = p.load_file(Err(AudioError::UnsupportedPlatform), Ok(()));
    assert!(matches!(r, Err(AudioError::UnsupportedPlatform)));
    assert_eq!(p.state(), PlaybackState::Loading);
    assert!(!p.update(PlaybackState::Playing));
}

#[test]
fn player_volume_is_clamped_like_f32_clamp() {
    let mut p = AudioPlayer::new();
    assert_eq!(f32::from_bits(p.volume()), 1.0);
    for v in [0.5f32, 2.0, -1.0, 0.0, -0.0, 1.0, f32::INFINITY, f32::NEG_INFINITY, 1e-40] {
        p.set_volume(v.to_bits());
        assert_eq!(p.volume(), v.clamp(0.0, 1.0).to_bits());
    }
    p.set_volume(1.5f32.to_bits());
    assert_eq!(f32::from_bits(p.volume()), 1.0);
    p.set_volume((-0.5f32).to_bits());
    assert_eq!(f32::from_bits(p.volume()), 0.0);
    // A NaN leaves the volume as it was.
    p.set_volume(0.3f32.to_bits());
    p.set_volume(f32::NAN.to_bits());
    assert_eq!(f32::from_bits(p.volume()), 0.3);
    p.set_volume(0x7fc0_0000);
    assert_eq!(f32::from_bits(p.volume()), 0.3);
    p.set_volume(0.25f32.to_bits());
    p.set_looping(true);
    assert!(p.load_file(Ok(()), Ok(())).is_ok());
    assert_eq!(p.backend_settings(), (0.25f32.to_bits(), true));
}
