use centered_engine::batch::{
    flag_answer, info_answer, measure_answer, measure_batch_answer, parse_batch_request, BatchResponse,
    BatchResponseType, ResponseWriter,
};
use centered_engine::batch_run::{BatchRun, Pending};
use centered_engine::command::{decode_command, BatchCommand, BatchCommandType, PayloadShape};
use centered_engine::render::RenderOp;
use centered_engine::wire::{push_u32, push_u64, read_text, read_u16, read_u32, read_u64};

fn le32(x: u32) -> Vec<u8> {
    x.to_le_bytes().to_vec()
}

fn frame(cmd: u16, payload: &[u8]) -> Vec<u8> {
    let mut v = cmd.to_le_bytes().to_vec();
    v.extend(le32(payload.len() as u32));
    v.extend_from_slice(payload);
    v
}

fn invalid_bytes(c: BatchCommand) -> Vec<u8> {
    match c {
        BatchCommand::Invalid(m) => m,
        _ => panic!("expected a refused command"),
    }
}

#[test]
fn wire_reads_little_endian() {
    let s = [0x34u8, 0x12, 0x78, 0x56, 0x01, 0, 0, 0, 0, 0, 0, 0x80];
    assert_eq!(read_u16(&s, 0), 0x1234);
    assert_eq!(read_u32(&s, 0), 0x5678_1234);
    assert_eq!(read_u64(&s, 4), 0x8000_0000_0000_0001);
    let mut out = Vec::new();
    push_u32(&mut out, 0xAABB_CCDD);
    push_u64(&mut out, 1);
    assert_eq!(out, vec![0xDD, 0xCC, 0xBB, 0xAA, 1, 0, 0, 0, 0, 0, 0, 0]);
}

#[test]
fn read_text_checks_utf8() {
    let bytes = "héllo".as_bytes();
    assert_eq!(read_text(bytes, 0, bytes.len()), Some("héllo".to_string()));
    assert_eq!(read_text(&[0x68, 0xFF, 0x69], 0, 3), None);
    assert_eq!(read_text(&[0x68, 0xFF, 0x69], 2, 3), Some("i".to_string()));
}

#[test]
fn request_shorter_than_header_is_refused() {
    assert!(parse_batch_request(&[1, 0, 0]).is_none());
    let r = parse_batch_request(&[0, 0, 0, 0]).unwrap();
    assert_eq!(r.declared_count, 0);
    assert!(r.commands.is_empty());
}

#[test]
fn request_frames_are_split() {
    let mut req = le32(2);
    req.extend(frame(0x0404, &le32(7)));
    req.extend(frame(0xFF00, &[]));
    let r = parse_batch_request(&req).unwrap();
    assert_eq!(r.declared_count, 2);
    assert_eq!(r.commands.len(), 2);
    assert_eq!(r.commands[0].cmd_type, 0x0404);
    assert_eq!(r.commands[0].payload, le32(7));
    assert_eq!(r.commands[1].cmd_type, 0xFF00);
    assert!(r.commands[1].payload.is_empty());
}

#[test]
fn request_stops_at_truncated_frame() {
    let mut req = le32(3);
    req.extend(frame(0x0300, &[]));
    // A frame that claims 10 payload bytes but carries 2.
    req.extend(0x0401u16.to_le_bytes());
    req.extend(le32(10));
    req.extend([1, 2]);
    let r = parse_batch_request(&req).unwrap();
    assert_eq!(r.declared_count, 3);
    assert_eq!(r.commands.len(), 1);
    assert_eq!(r.commands[0].cmd_type, 0x0300);
}

#[test]
fn response_writer_frames_and_count() {
    let mut w = ResponseWriter::new(64);
    assert!(w.push(BatchResponseType::Uint32, &le32(9)));
    assert!(w.push(BatchResponseType::Success, &[]));
    let out = w.finish(2);
    let mut expected = le32(2);
    expected.push(4);
    expected.extend(le32(4));
    expected.extend(le32(9));
    expected.push(0);
    expected.extend(le32(0));
    assert_eq!(out, expected);
}

#[test]
fn response_writer_refuses_overflow() {
    let mut w = ResponseWriter::new(12);
    // 4 (count) + 5 (header) + 3 = 12 fits exactly.
    assert!(w.push(BatchResponseType::Bytes, &[1, 2, 3]));
    assert!(!w.push(BatchResponseType::Success, &[]));
    let out = w.finish(1);
    assert_eq!(out.len(), 12);
    assert_eq!(out[4], 7);
}

#[test]
fn response_encodings() {
    let (t, p) = BatchResponse::Success.encode();
    assert_eq!(t, BatchResponseType::Success);
    assert!(p.is_empty());

    let (t, p) = BatchResponse::Error(b"bad".to_vec()).encode();
    assert_eq!(t, BatchResponseType::Error);
    assert_eq!(p, b"bad".to_vec());

    let (t, p) = BatchResponse::Float32(1.5f32.to_bits()).encode();
    assert_eq!(t, BatchResponseType::Float32);
    assert_eq!(p, 1.5f32.to_le_bytes().to_vec());

    let (t, p) = BatchResponse::Int32(-2).encode();
    assert_eq!(t, BatchResponseType::Int32);
    assert_eq!(p, (-2i32).to_le_bytes().to_vec());

    let (t, p) = BatchResponse::Uint64(0x0102_0304_0506_0708).encode();
    assert_eq!(t, BatchResponseType::Uint64);
    assert_eq!(p, vec![8, 7, 6, 5, 4, 3, 2, 1]);

    let (t, p) = BatchResponse::Text(b"hi".to_vec()).encode();
    assert_eq!(t, BatchResponseType::String);
    assert_eq!(p, vec![2, 0, 0, 0, b'h', b'i']);

    let (t, p) = BatchResponse::Bool(true).encode();
    assert_eq!(t, BatchResponseType::Bool);
    assert_eq!(p, vec![1]);

    let (t, p) = BatchResponse::Float32Array(vec![1.0f32.to_bits(), 2.0f32.to_bits()]).encode();
    assert_eq!(t, BatchResponseType::Float32Array);
    let mut e = le32(2);
    e.extend(1.0f32.to_le_bytes());
    e.extend(2.0f32.to_le_bytes());
    assert_eq!(p, e);

    let (t, p) = BatchResponse::Uint32Pair(3, 4).encode();
    assert_eq!(t, BatchResponseType::Uint32Pair);
    assert_eq!(p, vec![3, 0, 0, 0, 4, 0, 0, 0]);

    let (t, p) = BatchResponse::AudioInfo(1000, 44100, 2).encode();
    assert_eq!(t, BatchResponseType::Uint32Triple);
    let mut e = 1000u64.to_le_bytes().to_vec();
    e.extend(le32(44100));
    e.extend(le32(2));
    assert_eq!(p, e);

    let (t, p) = BatchResponse::VideoInfo(640, 480, 5).encode();
    assert_eq!(t, BatchResponseType::VideoInfo);
    let mut e = le32(640);
    e.extend(le32(480));
    e.extend(5u64.to_le_bytes());
    assert_eq!(p, e);
}

#[test]
fn response_type_codes() {
    assert_eq!(BatchResponseType::Success.code(), 0);
    assert_eq!(BatchResponseType::Error.code(), 1);
    assert_eq!(BatchResponseType::String.code(), 6);
    assert_eq!(BatchResponseType::VideoInfo.code(), 12);
}

#[test]
fn command_codes_round_trip() {
    let samples = [
        (0x0000u16, BatchCommandType::MeasureText),
        (0x0200, BatchCommandType::RenderFrame),
        (0x040A, BatchCommandType::AudioGetState),
        (0x0505, BatchCommandType::AudioInputOpen),
        (0x0610, BatchCommandType::VideoGetTextureID),
        (0x070B, BatchCommandType::VideoInputGetFrameTexture),
        (0x0801, BatchCommandType::ClipboardSet),
        (0xFF01, BatchCommandType::RequestExit),
    ];
    for (code, t) in samples {
        assert_eq!(t.code(), code);
        assert_eq!(BatchCommandType::from_code(code), Some(t));
    }
    assert_eq!(BatchCommandType::from_code(0x0104), None);
    assert_eq!(BatchCommandType::from_code(0xFFFF), None);
    assert_eq!(BatchCommandType::AudioSeek.shape(), PayloadShape::Seek);
    assert_eq!(BatchCommandType::MeasureTextToCursor.shape(), PayloadShape::Unsupported);
}

#[test]
fn decode_unknown_code_is_refused() {
    assert!(invalid_bytes(decode_command(0x1234, &[])).is_empty());
}

#[test]
fn decode_plain_and_with_id() {
    assert!(matches!(
        decode_command(0xFF00, &[9, 9]),
        BatchCommand::Plain(BatchCommandType::RequestRedraw)
    ));
    assert!(matches!(
        decode_command(0x0404, &le32(42)),
        BatchCommand::WithId(BatchCommandType::AudioPlay, 42)
    ));
    assert!(invalid_bytes(decode_command(0x0404, &[1, 2, 3])).is_empty());
}

#[test]
fn decode_text_and_source() {
    let mut p = le32(5);
    p.extend(b"hello");
    match decode_command(0x0801, &p) {
        BatchCommand::Text(BatchCommandType::ClipboardSet, t) => assert_eq!(t, "hello"),
        _ => panic!("expected clipboard text"),
    }
    let mut bad = le32(2);
    bad.extend([0xC3, 0x28]);
    assert!(invalid_bytes(decode_command(0x0801, &bad)).is_empty());

    let mut s = le32(3);
    s.extend(le32(6));
    s.extend(b"/a.mp3");
    match decode_command(0x0403, &s) {
        BatchCommand::Source(BatchCommandType::AudioLoadFile, 3, path) => assert_eq!(path, "/a.mp3"),
        _ => panic!("expected a source"),
    }
    // A path with a NUL byte cannot be handed to the platform.
    let mut n = le32(3);
    n.extend(le32(3));
    n.extend([b'a', 0, b'b']);
    assert!(invalid_bytes(decode_command(0x0403, &n)).is_empty());
}

#[test]
fn decode_seek_volume_flag() {
    let mut p = le32(1);
    p.extend(2500u64.to_le_bytes());
    assert!(matches!(
        decode_command(0x0407, &p),
        BatchCommand::Seek(BatchCommandType::AudioSeek, 1, 2500)
    ));
    let mut v = le32(4);
    v.extend(0.5f32.to_le_bytes());
    match decode_command(0x0408, &v) {
        BatchCommand::Volume(BatchCommandType::AudioSetVolume, 4, bits) => {
            assert_eq!(f32::from_bits(bits), 0.5)
        }
        _ => panic!("expected a volume"),
    }
    let mut f = le32(6);
    f.push(1);
    assert!(matches!(
        decode_command(0x0609, &f),
        BatchCommand::Flag(BatchCommandType::VideoSetLooping, 6, true)
    ));
    assert!(invalid_bytes(decode_command(0x0609, &le32(6))).is_empty());
}

#[test]
fn decode_measure_text() {
    let mut p = le32(2);
    p.extend(b"Hi");
    p.extend(le32(5));
    p.extend(b"Inter");
    p.extend(14.0f32.to_le_bytes());
    match decode_command(0x0000, &p) {
        BatchCommand::MeasureText(r) => {
            assert_eq!(r.text, "Hi");
            assert_eq!(r.font, "Inter");
            assert_eq!(f32::from_bits(r.size_bits), 14.0);
        }
        _ => panic!("expected a measurement"),
    }
    p.pop();
    assert!(invalid_bytes(decode_command(0x0000, &p)).is_empty());
}

#[test]
fn decode_measure_text_batch() {
    let mut p = le32(2);
    for (t, f) in [("a", "x"), ("bc", "y")] {
        p.extend(le32(t.len() as u32));
        p.extend(t.as_bytes());
        p.extend(le32(f.len() as u32));
        p.extend(f.as_bytes());
        p.extend(10.0f32.to_le_bytes());
    }
    match decode_command(0x0001, &p) {
        BatchCommand::MeasureTextBatch(rs) => {
            assert_eq!(rs.len(), 2);
            assert_eq!(rs[1].text, "bc");
            assert_eq!(rs[1].font, "y");
        }
        _ => panic!("expected a batch"),
    }
}

#[test]
fn decode_audio_input_open() {
    let mut p = le32(1);
    p.extend(le32(3));
    p.extend(b"mic");
    p.extend(le32(48000));
    p.extend(le32(2));
    match decode_command(0x0505, &p) {
        BatchCommand::AudioInputOpen { input_id, device_id, sample_rate, channels } => {
            assert_eq!(input_id, 1);
            assert_eq!(device_id, Some("mic".to_string()));
            assert_eq!(sample_rate, 48000);
            assert_eq!(channels, 2);
        }
        _ => panic!("expected an open"),
    }
    let mut d = le32(1);
    d.extend(le32(0));
    d.extend(le32(44100));
    d.extend(le32(1));
    assert!(matches!(
        decode_command(0x0505, &d),
        BatchCommand::AudioInputOpen { device_id: None, sample_rate: 44100, .. }
    ));
}

#[test]
fn decode_video_commands() {
    let mut p = le32(2);
    p.extend(le32(4));
    p.extend(le32(3));
    p.extend(77u64.to_le_bytes());
    p.extend([1, 2, 3]);
    match decode_command(0x0605, &p) {
        BatchCommand::VideoPushFrame { player_id, width, height, timestamp_ms, frame } => {
            assert_eq!((player_id, width, height, timestamp_ms), (2, 4, 3, 77));
            assert_eq!(frame, vec![1, 2, 3]);
        }
        _ => panic!("expected a frame"),
    }
    let mut q = le32(5);
    q.extend(le32(9));
    assert!(matches!(
        decode_command(0x070B, &q),
        BatchCommand::VideoInputGetFrameTexture { input_id: 5, existing_texture_id: 9 }
    ));
    let mut s = le32(1);
    s.extend(le32(320));
    s.extend(le32(240));
    assert!(matches!(
        decode_command(0x0604, &s),
        BatchCommand::VideoInitStream { player_id: 1, width: 320, height: 240 }
    ));
}

#[test]
fn decode_render_frame_command() {
    let mut p = le32(2);
    p.push(0);
    p.extend([10, 20, 30, 255]);
    p.push(6);
    match decode_command(0x0200, &p) {
        BatchCommand::RenderFrame(ops) => {
            assert_eq!(ops.len(), 2);
            assert!(matches!(ops[0], RenderOp::Clear { r: 10, g: 20, b: 30, a: 255 }));
            assert!(matches!(ops[1], RenderOp::PopClip));
        }
        _ => panic!("expected a frame"),
    }
    let mut bad = le32(1);
    bad.push(42);
    assert_eq!(
        invalid_bytes(decode_command(0x0200, &bad)),
        b"unknown render command type: 42".to_vec()
    );
    let short = le32(1);
    assert_eq!(
        invalid_bytes(decode_command(0x0200, &short)),
        b"unexpected end of payload".to_vec()
    );
}

#[test]
fn decode_load_image_keeps_bytes() {
    match decode_command(0x0100, &[1, 2, 3]) {
        BatchCommand::LoadImage(d) => assert_eq!(d, vec![1, 2, 3]),
        _ => panic!("expected image data"),
    }
}

#[test]
fn written_request_reads_back() {
    let frames: Vec<(u16, Vec<u8>)> = vec![(0x0000, b"abc".to_vec()), (0x0300, vec![]), (0x0802, vec![1; 300])];
    let mut req = le32(frames.len() as u32);
    for (t, p) in &frames {
        req.extend(frame(*t, p));
    }
    let r = parse_batch_request(&req).unwrap();
    assert_eq!(r.declared_count as usize, frames.len());
    let back: Vec<(u16, Vec<u8>)> = r.commands.iter().map(|c| (c.cmd_type, c.payload.clone())).collect();
    assert_eq!(back, frames);
}

#[test]
fn batch_run_answers_in_order() {
    let mut req = le32(3);
    req.extend(frame(0x0404, &le32(3)));
    req.extend(frame(0x1234, &[]));
    req.extend(frame(0xFF00, &[]));
    assert!(BatchRun::start(&[0, 0], 64).is_none());
    let mut run = BatchRun::start(&req, 64).unwrap();
    match run.next_step() {
        Pending::Command(c) => assert!(matches!(c, BatchCommand::WithId(BatchCommandType::AudioPlay, 3))),
        _ => panic!("expected a command"),
    }
    assert!(run.answer(BatchResponse::Int32(-2)));
    // The unknown command is answered by the run itself.
    assert!(matches!(run.next_step(), Pending::Refused));
    match run.next_step() {
        Pending::Command(c) => assert!(matches!(c, BatchCommand::Plain(BatchCommandType::RequestRedraw))),
        _ => panic!("expected a command"),
    }
    assert!(run.answer(BatchResponse::Success));
    assert!(matches!(run.next_step(), Pending::Done));
    let out = run.finish();
    let mut expected = le32(3);
    expected.push(3);
    expected.extend(le32(4));
    expected.extend((-2i32).to_le_bytes());
    expected.push(1);
    expected.extend(le32(0));
    expected.push(0);
    expected.extend(le32(0));
    assert_eq!(out, expected);
}

#[test]
fn batch_run_stops_when_full() {
    let mut req = le32(1);
    req.extend(frame(0xFF00, &[]));
    let mut run = BatchRun::start(&req, 8).unwrap();
    assert!(matches!(run.next_step(), Pending::Command(_)));
    assert!(!run.answer(BatchResponse::Success));
    // Nothing was answered: the same command is still next.
    assert!(matches!(run.next_step(), Pending::Command(_)));
}

#[test]
fn response_count_is_the_number_of_responses() {
    // Two commands announced, none present: no response is written.
    let run = BatchRun::start(&[2, 0, 0, 0], 16).unwrap();
    assert_eq!(run.finish(), vec![0, 0, 0, 0]);
}

#[test]
fn measurement_answers() {
    let (t, p) = measure_batch_answer(vec![]).encode();
    assert_eq!(t, BatchResponseType::Float32Array);
    assert_eq!(p, vec![0, 0, 0, 0]);
    let (t, p) = measure_batch_answer(vec![Some(12.5f32.to_bits()), None]).encode();
    assert_eq!(t, BatchResponseType::Float32Array);
    let mut e = le32(2);
    e.extend(12.5f32.to_le_bytes());
    e.extend(0.0f32.to_le_bytes());
    assert_eq!(p, e);
    let (t, p) = measure_answer(None).encode();
    assert_eq!(t, BatchResponseType::Float32);
    assert_eq!(p, vec![0, 0, 0, 0]);
    let (_, p) = measure_answer(Some(3.0f32.to_bits())).encode();
    assert_eq!(p, 3.0f32.to_le_bytes().to_vec());
}

#[test]
fn flag_and_info_answers() {
    assert!(matches!(flag_answer(1), BatchResponse::Bool(true)));
    assert!(matches!(flag_answer(0), BatchResponse::Bool(false)));
    assert!(matches!(flag_answer(-2), BatchResponse::Bool(false)));
    assert!(matches!(info_answer(0, 10, 44100, 2), BatchResponse::AudioInfo(10, 44100, 2)));
    assert!(matches!(info_answer(-3, 10, 44100, 2), BatchResponse::Error(ref m) if m.is_empty()));
}
