//! Render commands as they arrive through the C interface: command and
//! font-source kinds, and the conversion of a C command into a render
//! command.
//!
//! The C command is a tagged union; the caller reads the union member that
//! the tag names and hands it over as plain values. Floating-point fields
//! are the bits of an `f32`.

use vstd::prelude::*;
use vstd::string::*;
use vstd::utf8::*;
use crate::frame::{Color, color_of, unpack_rgba, rgba_value, lemma_rgba_roundtrip};
use crate::wire::{u32_bytes, u32s_bytes};
use crate::render::{
    FontSource, FontSourceView, FontSpec, FontSpecView, FontStyle, RenderOp, RenderOpView,
    TextLayout, align_of, valign_of, word_break_of, overflow_of, white_space_of, align_from,
    valign_from, word_break_from, overflow_from, white_space_from, OpStep, spec_op_at, text_op_tail,
    lemma_rect_fields_read_back, lemma_clip_fields_read_back, lemma_text_fields_read_back,
};

verus! {

/// Font source kinds of the C interface.
#[derive(Clone, Copy, Debug, PartialEq, Eq, Structural)]
pub enum FFIFontSourceType {
    System,
    Bundled,
    Memory,
}

/// The number of a font source kind in the C interface.
pub open spec fn font_source_type_code(t: FFIFontSourceType) -> u8 {
    match t {
        FFIFontSourceType::System => 0,
        FFIFontSourceType::Bundled => 1,
        FFIFontSourceType::Memory => 2,
    }
}

impl FFIFontSourceType {
    /// The kind's number in the C interface.
    pub fn code(self) -> (c: u8)
        ensures
            c == font_source_type_code(self),
    {
        match self {
            FFIFontSourceType::System => 0,
            FFIFontSourceType::Bundled => 1,
            FFIFontSourceType::Memory => 2,
        }
    }

    /// The kind with the given number, if any.
    pub fn from_code(c: u8) -> (r: Option<FFIFontSourceType>)
        ensures
            r matches Some(t) ==> font_source_type_code(t) == c,
            r is None <==> c > 2,
    {
        match c {
            0 => Some(FFIFontSourceType::System),
            1 => Some(FFIFontSourceType::Bundled),
            2 => Some(FFIFontSourceType::Memory),
            _ => None,
        }
    }
}

/// The font source that a C text command names: by kind number, a system
/// font, a bundled font or a font in memory; an unknown kind falls back to
/// the system font called `system`.
pub open spec fn ffi_font_source(source_type: u8, name: Seq<char>, data_hash: u64) -> FontSourceView {
    match source_type {
        0 => FontSourceView::System(name),
        1 => FontSourceView::Bundled(name),
        2 => FontSourceView::Memory { name, data_hash },
        _ => FontSourceView::System("system"@),
    }
}

impl FontSource {
    /// The font source of a C text command (see [`ffi_font_source`]).
    pub fn from_ffi(source_type: u8, name: String, data_hash: u64) -> (r: FontSource)
        ensures
            r@ == ffi_font_source(source_type, name@, data_hash),
    {
        match source_type {
            0 => FontSource::System(name),
            1 => FontSource::Bundled(name),
            2 => FontSource::Memory { name, data_hash },
            _ => FontSource::System("system".to_owned()),
        }
    }
}

/// Command kinds of the C render interface.
#[derive(Clone, Copy, Debug, PartialEq, Eq, Structural)]
pub enum FFIRenderCommandType {
    DrawRect,
    DrawText,
    PushClip,
    PopClip,
    SetOpacity,
    Clear,
}

/// The number of a command kind in the C render interface.
pub open spec fn render_command_type_code(t: FFIRenderCommandType) -> u8 {
    match t {
        FFIRenderCommandType::DrawRect => 0,
        FFIRenderCommandType::DrawText => 1,
        FFIRenderCommandType::PushClip => 2,
        FFIRenderCommandType::PopClip => 3,
        FFIRenderCommandType::SetOpacity => 4,
        FFIRenderCommandType::Clear => 5,
    }
}

impl FFIRenderCommandType {
    /// The kind's number in the C render interface.
    pub fn code(self) -> (c: u8)
        ensures
            c == render_command_type_code(self),
    {
        match self {
            FFIRenderCommandType::DrawRect => 0,
            FFIRenderCommandType::DrawText => 1,
            FFIRenderCommandType::PushClip => 2,
            FFIRenderCommandType::PopClip => 3,
            FFIRenderCommandType::SetOpacity => 4,
            FFIRenderCommandType::Clear => 5,
        }
    }

    /// The kind with the given number, if any.
    pub fn from_code(c: u8) -> (r: Option<FFIRenderCommandType>)
        ensures
            r matches Some(t) ==> render_command_type_code(t) == c,
            r is None <==> c > 5,
    {
        match c {
            0 => Some(FFIRenderCommandType::DrawRect),
            1 => Some(FFIRenderCommandType::DrawText),
            2 => Some(FFIRenderCommandType::PushClip),
            3 => Some(FFIRenderCommandType::PopClip),
            4 => Some(FFIRenderCommandType::SetOpacity),
            5 => Some(FFIRenderCommandType::Clear),
            _ => None,
        }
    }
}


/// The `f32` with these bits is greater than zero: a positive number or
/// positive infinity (zeros, negatives and NaNs are not).
pub open spec fn f32_bits_positive(b: u32) -> bool {
    0 < b && b <= 0x7f80_0000
}

/// Whether the `f32` with bits `b` is greater than zero.
pub fn is_positive_f32(b: u32) -> (r: bool)
    ensures
        r == f32_bits_positive(b),
{
    0 < b && b <= 0x7f80_0000
}

/// A length limit of the C interface: 0 (or any value not above zero)
/// means no limit.
pub open spec fn limit_of(b: u32) -> Option<u32> {
    if f32_bits_positive(b) {
        Some(b)
    } else {
        None
    }
}

/// A rectangle of the C interface (also used for clips).
#[derive(Clone, Copy, Debug, PartialEq, Eq, Structural)]
pub struct FFIRect {
    pub x_bits: u32,
    pub y_bits: u32,
    pub width_bits: u32,
    pub height_bits: u32,
    pub color: u32,
    /// One radius for all four corners.
    pub border_radius_bits: u32,
}

/// A text command of the C interface, its strings already read.
pub struct FFIDrawText {
    pub x_bits: u32,
    pub y_bits: u32,
    pub text: String,
    pub font_source_type: u8,
    pub font_name: String,
    pub font_data_hash: u64,
    pub font_weight: u16,
    /// 0 = normal, 1 = italic.
    pub font_style: u8,
    pub font_size_bits: u32,
    pub color: u32,
    /// 0.0 = no constraint.
    pub max_width_bits: u32,
    /// 0.0 = no constraint.
    pub max_height_bits: u32,
    pub line_height_bits: u32,
    pub letter_spacing_bits: u32,
    pub word_spacing_bits: u32,
    pub alignment: u8,
    pub vertical_align: u8,
    pub word_break: u8,
    pub overflow: u8,
    pub white_space: u8,
}

/// The union member of a C command that its tag names.
pub enum FFICommandData {
    DrawRect(FFIRect),
    DrawText(FFIDrawText),
    PushClip(FFIRect),
    PopClip,
    SetOpacity(u32),
    /// `0xRRGGBBAA`.
    Clear(u32),
    /// A tag that no command has.
    Unknown,
}

/// The layout of a C text command: limits only where they are above zero,
/// no line limit.
pub open spec fn ffi_layout(t: FFIDrawText) -> TextLayout {
    TextLayout {
        max_width_bits: limit_of(t.max_width_bits),
        max_height_bits: limit_of(t.max_height_bits),
        max_lines: None,
        line_height_bits: t.line_height_bits,
        letter_spacing_bits: t.letter_spacing_bits,
        word_spacing_bits: t.word_spacing_bits,
        alignment: align_of(t.alignment),
        vertical_align: valign_of(t.vertical_align),
        word_break: word_break_of(t.word_break),
        overflow: overflow_of(t.overflow),
        white_space: white_space_of(t.white_space),
    }
}

/// The render command a C text command stands for.
pub open spec fn ffi_text_op(t: FFIDrawText) -> RenderOpView {
    RenderOpView::DrawText {
        x_bits: t.x_bits,
        y_bits: t.y_bits,
        text: t.text@,
        font: FontSpecView {
            source: ffi_font_source(t.font_source_type, t.font_name@, t.font_data_hash),
            weight: t.font_weight,
            style: if t.font_style == 1 {
                FontStyle::Italic
            } else {
                FontStyle::Normal
            },
            size_bits: t.font_size_bits,
        },
        color: t.color,
        layout: ffi_layout(t),
    }
}

/// The render command a C command stands for: a rectangle with its one
/// radius on every corner and no rotation, border or gradient; a text; a
/// clip; a clip end; an opacity; a clear of the colour written
/// `0xRRGGBBAA`; an unknown tag falls back to a clip end.
pub open spec fn ffi_op(d: FFICommandData) -> RenderOpView {
    match d {
        FFICommandData::DrawRect(r) => RenderOpView::DrawRect {
            x_bits: r.x_bits,
            y_bits: r.y_bits,
            width_bits: r.width_bits,
            height_bits: r.height_bits,
            color: r.color,
            corner_radii: (
                r.border_radius_bits,
                r.border_radius_bits,
                r.border_radius_bits,
                r.border_radius_bits,
            ),
            rotation_bits: 0,
            border: None,
            gradient: None,
        },
        FFICommandData::DrawText(t) => ffi_text_op(t),
        FFICommandData::PushClip(r) => RenderOpView::PushClip {
            x_bits: r.x_bits,
            y_bits: r.y_bits,
            width_bits: r.width_bits,
            height_bits: r.height_bits,
        },
        FFICommandData::PopClip => RenderOpView::PopClip,
        FFICommandData::SetOpacity(o) => RenderOpView::SetOpacity { opacity_bits: o },
        FFICommandData::Clear(c) => {
            let k = color_of(c);
            RenderOpView::Clear { r: k.r, g: k.g, b: k.b, a: k.a }
        },
        FFICommandData::Unknown => RenderOpView::PopClip,
    }
}

fn limit_from(b: u32) -> (r: Option<u32>)
    ensures
        r == limit_of(b),
{
    if is_positive_f32(b) {
        Some(b)
    } else {
        None
    }
}

impl FFIDrawText {
    /// The render command this C text command stands for.
    pub fn to_render_op(self) -> (op: RenderOp)
        ensures
            op@ == ffi_text_op(self),
    {
        let ghost me = self;
        let layout = TextLayout {
            max_width_bits: limit_from(self.max_width_bits),
            max_height_bits: limit_from(self.max_height_bits),
            max_lines: None,
            line_height_bits: self.line_height_bits,
            letter_spacing_bits: self.letter_spacing_bits,
            word_spacing_bits: self.word_spacing_bits,
            alignment: align_from(self.alignment),
            vertical_align: valign_from(self.vertical_align),
            word_break: word_break_from(self.word_break),
            overflow: overflow_from(self.overflow),
            white_space: white_space_from(self.white_space),
        };
        let style = if self.font_style == 1 {
            FontStyle::Italic
        } else {
            FontStyle::Normal
        };
        let source = FontSource::from_ffi(self.font_source_type, self.font_name, self.font_data_hash);
        let font = FontSpec { source, weight: self.font_weight, style, size_bits: self.font_size_bits };
        RenderOp::DrawText {
            x_bits: self.x_bits,
            y_bits: self.y_bits,
            text: self.text,
            font,
            color: self.color,
            layout,
        }
    }
}

impl FFICommandData {
    /// The render command this C command stands for (see [`ffi_op`]).
    pub fn to_render_op(self) -> (op: RenderOp)
        ensures
            op@ == ffi_op(self),
    {
        match self {
            FFICommandData::DrawRect(r) => {
                let rr = r.border_radius_bits;
                RenderOp::DrawRect {
                    x_bits: r.x_bits,
                    y_bits: r.y_bits,
                    width_bits: r.width_bits,
                    height_bits: r.height_bits,
                    color: r.color,
                    corner_radii: (rr, rr, rr, rr),
                    rotation_bits: 0,
                    border: None,
                    gradient: None,
                }
            },
            FFICommandData::DrawText(t) => t.to_render_op(),
            FFICommandData::PushClip(r) => RenderOp::PushClip {
                x_bits: r.x_bits,
                y_bits: r.y_bits,
                width_bits: r.width_bits,
                height_bits: r.height_bits,
            },
            FFICommandData::PopClip => RenderOp::PopClip,
            FFICommandData::SetOpacity(o) => RenderOp::SetOpacity { opacity_bits: o },
            FFICommandData::Clear(c) => {
                let k = unpack_rgba(c);
                RenderOp::Clear { r: k.r, g: k.g, b: k.b, a: k.a }
            },
            FFICommandData::Unknown => RenderOp::PopClip,
        }
    }
}

/// A rectangle given through the C interface is the same command as the
/// rectangle with the same fields (its one radius on every corner, no
/// rotation, no border or gradient) sent in a render frame.
pub proof fn lemma_ffi_rect_agrees_with_wire(r: FFIRect, pre: Seq<u8>, post: Seq<u8>)
    ensures
        spec_op_at(
            pre + u32s_bytes(
                seq![
                    r.x_bits,
                    r.y_bits,
                    r.width_bits,
                    r.height_bits,
                    r.color,
                    r.border_radius_bits,
                    r.border_radius_bits,
                    r.border_radius_bits,
                    r.border_radius_bits,
                    0u32,
                ],
            ) + seq![0u8] + post,
            pre.len() as int,
            1,
        ) == OpStep::Decoded(ffi_op(FFICommandData::DrawRect(r)), pre.len() + 41int),
{
    let f = seq![
        r.x_bits,
        r.y_bits,
        r.width_bits,
        r.height_bits,
        r.color,
        r.border_radius_bits,
        r.border_radius_bits,
        r.border_radius_bits,
        r.border_radius_bits,
        0u32,
    ];
    lemma_rect_fields_read_back(pre, f, post);
}

/// A clip given through the C interface is the same command as the clip
/// to the same rectangle sent in a render frame.
pub proof fn lemma_ffi_clip_agrees_with_wire(r: FFIRect, pre: Seq<u8>, post: Seq<u8>)
    ensures
        spec_op_at(
            pre + u32s_bytes(seq![r.x_bits, r.y_bits, r.width_bits, r.height_bits]) + post,
            pre.len() as int,
            5,
        ) == OpStep::Decoded(ffi_op(FFICommandData::PushClip(r)), pre.len() + 16int),
{
    lemma_clip_fields_read_back(pre, seq![r.x_bits, r.y_bits, r.width_bits, r.height_bits], post);
}

/// A clear given through the C interface as `0xRRGGBBAA` clears to the
/// colour whose red, green, blue and alpha bytes pack back to that
/// number.
pub proof fn lemma_ffi_clear_colour(c: u32)
    ensures
        ffi_op(FFICommandData::Clear(c)) matches RenderOpView::Clear { r, g, b, a } && rgba_value(
            Color { r, g, b, a },
        ) == c,
{
    lemma_rgba_roundtrip(Color { r: 0, g: 0, b: 0, a: 0 }, c);
}

/// A text command given through the C interface, with a system or bundled
/// font and no size limits, is the same command as the text command with
/// the same fields sent in a render frame.
pub proof fn lemma_ffi_text_agrees_with_wire(
    t: FFIDrawText,
    p: Seq<u8>,
    o: int,
    text: Seq<u8>,
    name: Seq<u8>,
)
    requires
        t.font_source_type <= 1,
        !f32_bits_positive(t.max_width_bits),
        !f32_bits_positive(t.max_height_bits),
        0 <= o,
        text.len() <= u32::MAX,
        name.len() <= u32::MAX,
        valid_utf8(text),
        valid_utf8(name),
        decode_utf8(text) == t.text@,
        decode_utf8(name) == t.font_name@,
        p.len() >= o + 12 + text.len() + 5 + name.len() + 29,
        p.subrange(o, o + 12) == u32s_bytes(seq![t.x_bits, t.y_bits].push(text.len() as u32)),
        p.subrange(o + 12, o + 12 + text.len()) == text,
        p.subrange(o + 12 + text.len(), o + 17 + text.len()) == seq![t.font_source_type]
            + u32_bytes(name.len() as u32),
        p.subrange(o + 17 + text.len(), o + 17 + text.len() + name.len()) == name,
        p.subrange(o + 17 + text.len() + name.len(), o + 17 + text.len() + name.len() + 29)
            == text_op_tail(
            t.font_weight,
            t.font_style,
            seq![t.font_size_bits, t.color],
            seq![t.line_height_bits, t.letter_spacing_bits, t.word_spacing_bits],
            seq![t.alignment, t.vertical_align, t.word_break, t.overflow, t.white_space],
        ),
    ensures
        spec_op_at(p, o, 2) == OpStep::Decoded(
            ffi_op(FFICommandData::DrawText(t)),
            o + 17 + text.len() + name.len() + 29,
        ),
{
    lemma_text_fields_read_back(
        p,
        o,
        seq![t.x_bits, t.y_bits],
        text,
        t.font_source_type,
        name,
        t.font_weight,
        t.font_style,
        seq![t.font_size_bits, t.color],
        seq![t.line_height_bits, t.letter_spacing_bits, t.word_spacing_bits],
        seq![t.alignment, t.vertical_align, t.word_break, t.overflow, t.white_space],
    );
}

} // verus!
