use centered_engine::audio::input::AudioInputConfig;
use centered_engine::audio::AudioError;
use centered_engine::registry::{permission_status, status_code, Registry};
use centered_engine::tray::{create, default_icon_rgba, icon_status, IconOutcome, TrayBuild, TrayIcon};

#[test]
fn ids_start_at_one_and_are_not_reused() {
    let mut r: Registry<&str> = Registry::new();
    assert_eq!(r.next_id(), 1);
    let a = r.create("a");
    let b = r.create("b");
    assert_eq!((a, b), (1, 2));
    assert_eq!(r.get(a), Some(&"a"));
    r.destroy(a);
    assert!(!r.contains(a));
    assert_eq!(r.get(a), None);
    let c = r.create("c");
    assert_eq!(c, 3);
    assert_eq!(r.get(b), Some(&"b"));
    r.destroy(99);
    assert!(r.contains(b) && r.contains(c));
}

#[test]
fn take_and_restore() {
    let mut r: Registry<u32> = Registry::new();
    let id = r.create(5);
    let v = r.take(id).unwrap();
    assert!(!r.contains(id));
    r.restore(id, v + 1);
    assert_eq!(r.get(id), Some(&6));
    assert_eq!(r.take(42), None);
}

#[test]
fn c_status_codes() {
    assert_eq!(status_code::<AudioError>(None), -2);
    assert_eq!(status_code::<AudioError>(Some(Ok(()))), 0);
    assert_eq!(status_code(Some(Err(AudioError::NotLoaded))), -3);
    assert_eq!(permission_status(None), -2);
    assert_eq!(permission_status(Some(Ok(()))), 0);
    assert_eq!(permission_status(Some(Err(AudioError::PermissionDenied))), 1);
    assert_eq!(permission_status(Some(Err(AudioError::DeviceError("none".to_string())))), -3);
    assert_eq!(permission_status(Some(Err(AudioError::UnsupportedPlatform))), -3);
}

#[test]
fn requested_input_config_defaults() {
    let c = AudioInputConfig::requested(0, 0);
    assert_eq!((c.sample_rate, c.channels, c.bits_per_sample, c.buffer_size), (44100, 1, 16, 1024));
    let c = AudioInputConfig::requested(48000, 2);
    assert_eq!((c.sample_rate, c.channels), (48000, 2));
}

#[test]
fn tray_icon_status_codes() {
    let mut t: TrayIcon<u8> = TrayIcon::new();
    assert_eq!(icon_status(&t, false, IconOutcome::Shown), -3);
    assert_eq!(icon_status(&t, true, IconOutcome::Shown), -1);
    create(&mut t, TrayBuild::Built);
    assert_eq!(icon_status(&t, true, IconOutcome::BadImage), -3);
    assert_eq!(icon_status(&t, true, IconOutcome::Refused), -4);
    assert_eq!(icon_status(&t, true, IconOutcome::Shown), 0);
}

#[test]
fn default_icon_is_a_blue_disc() {
    let rgba = default_icon_rgba();
    assert_eq!(rgba.len(), 22 * 22 * 4);
    let px = |x: usize, y: usize| &rgba[4 * (22 * y + x)..4 * (22 * y + x) + 4];
    assert_eq!(px(11, 11), &[59, 130, 246, 255]);
    assert_eq!(px(0, 0), &[0, 0, 0, 0]);
    assert_eq!(px(1, 11), &[59, 130, 246, 255]); // distance 10
    assert_eq!(px(0, 11), &[0, 0, 0, 0]); // distance 11
    assert_eq!(px(21, 21), &[0, 0, 0, 0]);
    // The same picture the float computation gives.
    for y in 0..22u32 {
        for x in 0..22u32 {
            let dx = x as f32 - 11.0;
            let dy = y as f32 - 11.0;
            let inside = (dx * dx + dy * dy).sqrt() <= 10.0;
            let expected: [u8; 4] = if inside { [59, 130, 246, 255] } else { [0, 0, 0, 0] };
            assert_eq!(px(x as usize, y as usize), &expected);
        }
    }
}
