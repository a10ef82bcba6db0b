use centered_engine::audio::wav::{parse_wav, wav_readable, WavSamples};
use centered_engine::audio::AudioError;

/// A WAV file: header, a `fmt ` chunk, an extra chunk, then the data chunk.
fn wav(channels: u16, rate: u32, bits: u16, data: &[u8]) -> Vec<u8> {
    let mut v = b"RIFF".to_vec();
    v.extend(((36 + 8 + 2 + data.len()) as u32).to_le_bytes());
    v.extend(b"WAVE");
    v.extend(b"fmt ");
    v.extend(16u32.to_le_bytes());
    v.extend(1u16.to_le_bytes());
    v.extend(channels.to_le_bytes());
    v.extend(rate.to_le_bytes());
    v.extend((rate * channels as u32 * bits as u32 / 8).to_le_bytes());
    v.extend((channels * bits / 8).to_le_bytes());
    v.extend(bits.to_le_bytes());
    v.extend(b"LIST");
    v.extend(2u32.to_le_bytes());
    v.extend([0, 0]);
    v.extend(b"data");
    v.extend((data.len() as u32).to_le_bytes());
    v.extend_from_slice(data);
    v
}

fn format_message(r: Result<centered_engine::audio::wav::WavAudio, AudioError>) -> String {
    match r {
        Err(AudioError::FormatError(m)) => m,
        _ => panic!("expected a format error"),
    }
}

#[test]
fn pcm16_file() {
    let data = [0x01, 0x00, 0xFF, 0x7F, 0x00, 0x80, 0x34];
    let w = parse_wav(&wav(1, 2, 16, &data)).unwrap();
    assert_eq!((w.channels, w.sample_rate), (1, 2));
    match &w.samples {
        WavSamples::Pcm16(s) => assert_eq!(s, &vec![1, i16::MAX, i16::MIN, 0x34]),
        _ => panic!("expected 16-bit samples"),
    }
    // 4 samples at 2 per second.
    assert_eq!(w.duration_ms, 2000);
}

#[test]
fn pcm8_file() {
    let data = [128u8; 8000];
    let w = parse_wav(&wav(2, 8000, 8, &data)).unwrap();
    match &w.samples {
        WavSamples::Pcm8(s) => assert_eq!(s.len(), 8000),
        _ => panic!("expected 8-bit samples"),
    }
    assert_eq!(w.duration_ms, 500);
}

#[test]
fn refused_files() {
    assert_eq!(format_message(parse_wav(&[0u8; 10])), "File too small for WAV");
    let mut bad = wav(1, 8000, 16, &[0, 0]);
    bad[0] = b'X';
    assert_eq!(format_message(parse_wav(&bad)), "Not a valid WAV file");
    let mut no_data = wav(1, 8000, 16, &[0, 0]);
    let at = no_data.len() - 10;
    no_data[at..at + 4].copy_from_slice(b"junk");
    assert_eq!(format_message(parse_wav(&no_data)), "No data chunk found");
    assert_eq!(format_message(parse_wav(&wav(1, 8000, 16, &[]))), "No data chunk found");
    assert_eq!(format_message(parse_wav(&wav(1, 8000, 24, &[1, 2, 3]))), "Unsupported bit depth: 24");
}

#[test]
fn readability_is_told_before_reading() {
    assert!(wav_readable(&wav(1, 8000, 16, &[1, 2])));
    assert!(wav_readable(&[0u8; 10]));
    // A data chunk that claims more bytes than the file holds.
    let mut long = wav(1, 8000, 16, &[1, 2]);
    let at = long.len() - 6;
    long[at..at + 4].copy_from_slice(&100u32.to_le_bytes());
    assert!(!wav_readable(&long));
    // No channels.
    assert!(!wav_readable(&wav(0, 8000, 16, &[1, 2])));
}
