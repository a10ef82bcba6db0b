use centered_engine::ffi_render::{
    is_positive_f32, FFICommandData, FFIDrawText, FFIFontSourceType, FFIRect, FFIRenderCommandType,
};
use centered_engine::render::{
    decode_render_frame, BorderStyle, FontSource, FontStyle, Gradient, RenderDecodeError, RenderOp,
    TextAlign, TextOverflow, VerticalAlign, WhiteSpace, WordBreak,
};

fn f(x: f32) -> [u8; 4] {
    x.to_le_bytes()
}

fn u(x: u32) -> [u8; 4] {
    x.to_le_bytes()
}

fn with_count(n: u32, body: &[u8]) -> Vec<u8> {
    let mut v = u(n).to_vec();
    v.extend_from_slice(body);
    v
}

#[test]
fn empty_and_short_frames() {
    assert_eq!(decode_render_frame(&u(0)).unwrap().len(), 0);
    assert!(matches!(decode_render_frame(&[1, 0]), Err(RenderDecodeError::Malformed)));
    assert!(matches!(decode_render_frame(&u(1)), Err(RenderDecodeError::UnexpectedEnd)));
    assert!(matches!(
        decode_render_frame(&with_count(1, &[200])),
        Err(RenderDecodeError::UnknownCommand(200))
    ));
}

#[test]
fn error_messages() {
    assert!(RenderDecodeError::Malformed.message().is_empty());
    assert_eq!(RenderDecodeError::UnexpectedEnd.message(), b"unexpected end of payload".to_vec());
    assert_eq!(
        RenderDecodeError::UnknownCommand(7).message(),
        b"unknown render command type: 7".to_vec()
    );
    assert_eq!(
        RenderDecodeError::UnknownCommand(255).message(),
        b"unknown render command type: 255".to_vec()
    );
}

#[test]
fn rect_with_border_and_gradient() {
    let mut b = vec![1u8];
    for x in [1.0f32, 2.0, 30.0, 40.0] {
        b.extend(f(x));
    }
    b.extend(u(0xFF0000FF));
    for _ in 0..4 {
        b.extend(f(4.0));
    }
    b.extend(f(0.0)); // rotation
    b.push(0b11); // border and gradient
    b.extend(f(2.0));
    b.extend(u(0x000000FF));
    b.push(1); // dashed
    b.push(0); // linear gradient
    b.extend(f(90.0));
    b.push(2);
    b.extend(f(0.0));
    b.extend(u(0xFFFFFFFF));
    b.extend(f(1.0));
    b.extend(u(0x000000FF));
    let ops = decode_render_frame(&with_count(1, &b)).unwrap();
    assert_eq!(ops.len(), 1);
    match &ops[0] {
        RenderOp::DrawRect { x_bits, width_bits, color, corner_radii, border, gradient, .. } => {
            assert_eq!(f32::from_bits(*x_bits), 1.0);
            assert_eq!(f32::from_bits(*width_bits), 30.0);
            assert_eq!(*color, 0xFF0000FF);
            assert_eq!(f32::from_bits(corner_radii.3), 4.0);
            let border = border.unwrap();
            assert_eq!(f32::from_bits(border.width_bits), 2.0);
            assert_eq!(border.style, BorderStyle::Dashed);
            match gradient {
                Some(Gradient::Linear { angle_bits, stops }) => {
                    assert_eq!(f32::from_bits(*angle_bits), 90.0);
                    assert_eq!(stops.len(), 2);
                    assert_eq!(stops[1].color, 0x000000FF);
                }
                _ => panic!("expected a linear gradient"),
            }
        }
        _ => panic!("expected a rectangle"),
    }
    // The same rectangle cut short in its border is malformed.
    let cut = &b[..b.len() - 30];
    assert!(matches!(decode_render_frame(&with_count(1, cut)), Err(RenderDecodeError::Malformed)));
}

#[test]
fn text_command_with_layout() {
    let mut b = vec![2u8];
    b.extend(f(5.0));
    b.extend(f(6.0));
    b.extend(u(2));
    b.extend(b"ok");
    b.push(1); // bundled
    b.extend(u(4));
    b.extend(b"a.tf");
    b.extend(700u16.to_le_bytes());
    b.push(1); // italic
    b.extend(f(12.0));
    b.extend(u(0x112233FF));
    b.push(0b101); // max width and max lines
    b.extend(f(100.0));
    b.extend(u(3));
    b.extend(f(1.2));
    b.extend(f(0.0));
    b.extend(f(0.0));
    b.extend([1, 2, 3, 1, 2]);
    let ops = decode_render_frame(&with_count(1, &b)).unwrap();
    match &ops[0] {
        RenderOp::DrawText { text, font, color, layout, .. } => {
            assert_eq!(text, "ok");
            assert!(matches!(&font.source, FontSource::Bundled(n) if n == "a.tf"));
            assert_eq!(font.weight, 700);
            assert_eq!(font.style, FontStyle::Italic);
            assert_eq!(*color, 0x112233FF);
            assert_eq!(layout.max_width_bits.map(f32::from_bits), Some(100.0));
            assert_eq!(layout.max_height_bits, None);
            assert_eq!(layout.max_lines, Some(3));
            assert_eq!(layout.alignment, TextAlign::Center);
            assert_eq!(layout.vertical_align, VerticalAlign::Bottom);
            assert_eq!(layout.word_break, WordBreak::BreakWord);
            assert_eq!(layout.overflow, TextOverflow::Ellipsis);
            assert_eq!(layout.white_space, WhiteSpace::Pre);
        }
        _ => panic!("expected text"),
    }
}

#[test]
fn image_shadow_clip_scroll_opacity() {
    let mut b = vec![3u8];
    for x in [0.0f32, 0.0, 10.0, 10.0] {
        b.extend(f(x));
    }
    b.extend(u(17)); // texture
    b.push(1); // source rect present
    for x in [1.0f32, 1.0, 5.0, 5.0] {
        b.extend(f(x));
    }
    for _ in 0..4 {
        b.extend(f(0.0));
    }
    b.push(4);
    for _ in 0..8 {
        b.extend(f(1.0));
    }
    for _ in 0..4 {
        b.extend(f(2.0));
    }
    b.push(5);
    for _ in 0..4 {
        b.extend(f(3.0));
    }
    b.push(7);
    for _ in 0..6 {
        b.extend(f(0.0));
    }
    b.push(0b10); // content height only
    b.extend(f(900.0));
    b.push(8);
    b.push(9);
    b.extend(f(0.5));
    b.push(6);
    let ops = decode_render_frame(&with_count(7, &b)).unwrap();
    assert_eq!(ops.len(), 7);
    assert!(matches!(ops[0], RenderOp::DrawImage { texture_id: 17, source_rect: Some(_), .. }));
    assert!(matches!(ops[1], RenderOp::DrawShadow { .. }));
    assert!(matches!(ops[2], RenderOp::PushClip { .. }));
    match ops[3] {
        RenderOp::BeginScrollView { content_width_bits, content_height_bits, .. } => {
            assert_eq!(content_width_bits, None);
            assert_eq!(content_height_bits.map(f32::from_bits), Some(900.0));
        }
        _ => panic!("expected a scroll view"),
    }
    assert!(matches!(ops[4], RenderOp::EndScrollView));
    match ops[5] {
        RenderOp::SetOpacity { opacity_bits } => assert_eq!(f32::from_bits(opacity_bits), 0.5),
        _ => panic!("expected opacity"),
    }
    assert!(matches!(ops[6], RenderOp::PopClip));
}

#[test]
fn ffi_kind_codes() {
    assert_eq!(FFIFontSourceType::System.code(), 0);
    assert_eq!(FFIFontSourceType::Memory.code(), 2);
    assert_eq!(FFIFontSourceType::from_code(1), Some(FFIFontSourceType::Bundled));
    assert_eq!(FFIFontSourceType::from_code(3), None);
    assert_eq!(FFIRenderCommandType::Clear.code(), 5);
    assert_eq!(FFIRenderCommandType::from_code(2), Some(FFIRenderCommandType::PushClip));
    assert_eq!(FFIRenderCommandType::from_code(6), None);
}

#[test]
fn ffi_font_sources() {
    assert!(matches!(FontSource::from_ffi(0, "Inter".to_string(), 0), FontSource::System(n) if n == "Inter"));
    assert!(matches!(FontSource::from_ffi(1, "f.ttf".to_string(), 0), FontSource::Bundled(n) if n == "f.ttf"));
    assert!(matches!(
        FontSource::from_ffi(2, "mem".to_string(), 99),
        FontSource::Memory { name, data_hash: 99 } if name == "mem"
    ));
    assert!(matches!(FontSource::from_ffi(9, "x".to_string(), 0), FontSource::System(n) if n == "system"));
}

#[test]
fn positive_f32_bits() {
    assert!(is_positive_f32(1.0f32.to_bits()));
    assert!(is_positive_f32(f32::MIN_POSITIVE.to_bits()));
    assert!(is_positive_f32(f32::INFINITY.to_bits()));
    assert!(!is_positive_f32(0.0f32.to_bits()));
    assert!(!is_positive_f32((-0.0f32).to_bits()));
    assert!(!is_positive_f32((-3.0f32).to_bits()));
    assert!(!is_positive_f32(f32::NAN.to_bits()));
}

fn ffi_text(max_width: f32) -> FFIDrawText {
    FFIDrawText {
        x_bits: 1.0f32.to_bits(),
        y_bits: 2.0f32.to_bits(),
        text: "hey".to_string(),
        font_source_type: 2,
        font_name: "mem".to_string(),
        font_data_hash: 42,
        font_weight: 400,
        font_style: 1,
        font_size_bits: 16.0f32.to_bits(),
        color: 0xFFFFFFFF,
        max_width_bits: max_width.to_bits(),
        max_height_bits: 0.0f32.to_bits(),
        line_height_bits: 1.2f32.to_bits(),
        letter_spacing_bits: 0,
        word_spacing_bits: 0,
        alignment: 2,
        vertical_align: 1,
        word_break: 0,
        overflow: 2,
        white_space: 3,
    }
}

#[test]
fn ffi_text_command() {
    match ffi_text(120.0).to_render_op() {
        RenderOp::DrawText { text, font, layout, color, .. } => {
            assert_eq!(text, "hey");
            assert!(matches!(&font.source, FontSource::Memory { name, data_hash: 42 } if name == "mem"));
            assert_eq!(font.style, FontStyle::Italic);
            assert_eq!(color, 0xFFFFFFFF);
            assert_eq!(layout.max_width_bits.map(f32::from_bits), Some(120.0));
            assert_eq!(layout.max_height_bits, None);
            assert_eq!(layout.max_lines, None);
            assert_eq!(layout.alignment, TextAlign::Right);
            assert_eq!(layout.vertical_align, VerticalAlign::Middle);
            assert_eq!(layout.overflow, TextOverflow::Wrap);
            assert_eq!(layout.white_space, WhiteSpace::PreWrap);
        }
        _ => panic!("expected text"),
    }
    match ffi_text(-5.0).to_render_op() {
        RenderOp::DrawText { layout, .. } => assert_eq!(layout.max_width_bits, None),
        _ => panic!("expected text"),
    }
}

#[test]
fn ffi_other_commands() {
    let r = FFIRect {
        x_bits: 1.0f32.to_bits(),
        y_bits: 2.0f32.to_bits(),
        width_bits: 3.0f32.to_bits(),
        height_bits: 4.0f32.to_bits(),
        color: 0x00FF00FF,
        border_radius_bits: 6.0f32.to_bits(),
    };
    match FFICommandData::DrawRect(r).to_render_op() {
        RenderOp::DrawRect { corner_radii, color, rotation_bits, border, gradient, .. } => {
            let six = 6.0f32.to_bits();
            assert_eq!(corner_radii, (six, six, six, six));
            assert_eq!(color, 0x00FF00FF);
            assert_eq!(rotation_bits, 0);
            assert!(border.is_none() && gradient.is_none());
        }
        _ => panic!("expected a rectangle"),
    }
    assert!(matches!(
        FFICommandData::PushClip(r).to_render_op(),
        RenderOp::PushClip { height_bits, .. } if height_bits == 4.0f32.to_bits()
    ));
    assert!(matches!(FFICommandData::PopClip.to_render_op(), RenderOp::PopClip));
    assert!(matches!(
        FFICommandData::SetOpacity(0.25f32.to_bits()).to_render_op(),
        RenderOp::SetOpacity { opacity_bits } if f32::from_bits(opacity_bits) == 0.25
    ));
    assert!(matches!(
        FFICommandData::Clear(0x10203040).to_render_op(),
        RenderOp::Clear { r: 0x10, g: 0x20, b: 0x30, a: 0x40 }
    ));
    assert!(matches!(FFICommandData::Unknown.to_render_op(), RenderOp::PopClip));
}
