//! Render commands as they travel in the `RenderFrame` payload of the
//! binary protocol, and the decoder of that payload.
//!
//! Floating-point fields travel as the 32 bits of an IEEE-754 `f32`; the
//! decoder keeps those bits (`*_bits`) and the renderer reinterprets them.

use vstd::prelude::*;
use vstd::utf8::*;
use crate::wire::{
    le16, le32, read_u16, read_u32, read_text, u16_bytes, u32_bytes, u32s_bytes,
    lemma_u32s_bytes_len, lemma_le16_of_written, lemma_le32_of_written, lemma_le32_of_written_run,
};

verus! {

/// Border line style.
#[derive(Clone, Copy, Debug, PartialEq, Eq, Structural)]
pub enum BorderStyle {
    Solid,
    Dashed,
    Dotted,
}

/// Rectangle border.
#[derive(Clone, Copy, Debug, PartialEq, Eq, Structural)]
pub struct Border {
    pub width_bits: u32,
    pub color: u32,
    pub style: BorderStyle,
}

/// One colour stop of a gradient.
#[derive(Clone, Copy, Debug, PartialEq, Eq, Structural)]
pub struct GradientStop {
    pub position_bits: u32,
    pub color: u32,
}

/// Rectangle fill gradient.
pub enum Gradient {
    Linear { angle_bits: u32, stops: Vec<GradientStop> },
    Radial { center_x_bits: u32, center_y_bits: u32, stops: Vec<GradientStop> },
}

pub enum GradientView {
    Linear { angle_bits: u32, stops: Seq<GradientStop> },
    Radial { center_x_bits: u32, center_y_bits: u32, stops: Seq<GradientStop> },
}

impl View for Gradient {
    type V = GradientView;

    open spec fn view(&self) -> GradientView {
        match self {
            Gradient::Linear { angle_bits, stops } => GradientView::Linear {
                angle_bits: *angle_bits,
                stops: stops@,
            },
            Gradient::Radial { center_x_bits, center_y_bits, stops } => GradientView::Radial {
                center_x_bits: *center_x_bits,
                center_y_bits: *center_y_bits,
                stops: stops@,
            },
        }
    }
}

/// Where a font comes from.
pub enum FontSource {
    /// A font installed on the system, by family name.
    System(String),
    /// A font shipped with the application, by path.
    Bundled(String),
    /// A font loaded from memory, by name and content hash.
    Memory { name: String, data_hash: u64 },
}

pub enum FontSourceView {
    System(Seq<char>),
    Bundled(Seq<char>),
    Memory { name: Seq<char>, data_hash: u64 },
}

impl View for FontSource {
    type V = FontSourceView;

    open spec fn view(&self) -> FontSourceView {
        match self {
            FontSource::System(s) => FontSourceView::System(s@),
            FontSource::Bundled(s) => FontSourceView::Bundled(s@),
            FontSource::Memory { name, data_hash } => FontSourceView::Memory {
                name: name@,
                data_hash: *data_hash,
            },
        }
    }
}

#[derive(Clone, Copy, Debug, PartialEq, Eq, Structural)]
pub enum FontStyle {
    Normal,
    Italic,
}

/// Font of a text command.
pub struct FontSpec {
    pub source: FontSource,
    pub weight: u16,
    pub style: FontStyle,
    pub size_bits: u32,
}

pub struct FontSpecView {
    pub source: FontSourceView,
    pub weight: u16,
    pub style: FontStyle,
    pub size_bits: u32,
}

impl View for FontSpec {
    type V = FontSpecView;

    open spec fn view(&self) -> FontSpecView {
        FontSpecView {
            source: self.source@,
            weight: self.weight,
            style: self.style,
            size_bits: self.size_bits,
        }
    }
}

#[derive(Clone, Copy, Debug, PartialEq, Eq, Structural)]
pub enum TextAlign {
    Left,
    Center,
    Right,
    Justify,
}

#[derive(Clone, Copy, Debug, PartialEq, Eq, Structural)]
pub enum VerticalAlign {
    Top,
    Middle,
    Bottom,
    Baseline,
}

#[derive(Clone, Copy, Debug, PartialEq, Eq, Structural)]
pub enum WordBreak {
    Normal,
    BreakAll,
    KeepAll,
    BreakWord,
}

#[derive(Clone, Copy, Debug, PartialEq, Eq, Structural)]
pub enum TextOverflow {
    Clip,
    Ellipsis,
    Wrap,
}

#[derive(Clone, Copy, Debug, PartialEq, Eq, Structural)]
pub enum WhiteSpace {
    Normal,
    NoWrap,
    Pre,
    PreWrap,
}

/// Layout parameters of a text command.
#[derive(Clone, Copy, Debug, PartialEq, Eq, Structural)]
pub struct TextLayout {
    pub max_width_bits: Option<u32>,
    pub max_height_bits: Option<u32>,
    pub max_lines: Option<u32>,
    pub line_height_bits: u32,
    pub letter_spacing_bits: u32,
    pub word_spacing_bits: u32,
    pub alignment: TextAlign,
    pub vertical_align: VerticalAlign,
    pub word_break: WordBreak,
    pub overflow: TextOverflow,
    pub white_space: WhiteSpace,
}

/// Four corner radii, as `f32` bits.
pub type Radii = (u32, u32, u32, u32);

/// One render command.
pub enum RenderOp {
    Clear { r: u8, g: u8, b: u8, a: u8 },
    DrawRect {
        x_bits: u32,
        y_bits: u32,
        width_bits: u32,
        height_bits: u32,
        color: u32,
        corner_radii: Radii,
        rotation_bits: u32,
        border: Option<Border>,
        gradient: Option<Gradient>,
    },
    DrawText { x_bits: u32, y_bits: u32, text: String, font: FontSpec, color: u32, layout: TextLayout },
    DrawImage {
        x_bits: u32,
        y_bits: u32,
        width_bits: u32,
        height_bits: u32,
        texture_id: u32,
        source_rect: Option<(u32, u32, u32, u32)>,
        corner_radii: Radii,
    },
    DrawShadow {
        x_bits: u32,
        y_bits: u32,
        width_bits: u32,
        height_bits: u32,
        blur_bits: u32,
        color: u32,
        offset_x_bits: u32,
        offset_y_bits: u32,
        corner_radii: Radii,
    },
    PushClip { x_bits: u32, y_bits: u32, width_bits: u32, height_bits: u32 },
    /// Clip to a rounded rectangle (added by the engine, never decoded).
    PushRoundedClip {
        x_bits: u32,
        y_bits: u32,
        width_bits: u32,
        height_bits: u32,
        corner_radii: Radii,
    },
    PopClip,
    BeginScrollView {
        x_bits: u32,
        y_bits: u32,
        width_bits: u32,
        height_bits: u32,
        scroll_x_bits: u32,
        scroll_y_bits: u32,
        content_width_bits: Option<u32>,
        content_height_bits: Option<u32>,
    },
    EndScrollView,
    SetOpacity { opacity_bits: u32 },
}

pub enum RenderOpView {
    Clear { r: u8, g: u8, b: u8, a: u8 },
    DrawRect {
        x_bits: u32,
        y_bits: u32,
        width_bits: u32,
        height_bits: u32,
        color: u32,
        corner_radii: Radii,
        rotation_bits: u32,
        border: Option<Border>,
        gradient: Option<GradientView>,
    },
    DrawText {
        x_bits: u32,
        y_bits: u32,
        text: Seq<char>,
        font: FontSpecView,
        color: u32,
        layout: TextLayout,
    },
    DrawImage {
        x_bits: u32,
        y_bits: u32,
        width_bits: u32,
        height_bits: u32,
        texture_id: u32,
        source_rect: Option<(u32, u32, u32, u32)>,
        corner_radii: Radii,
    },
    DrawShadow {
        x_bits: u32,
        y_bits: u32,
        width_bits: u32,
        height_bits: u32,
        blur_bits: u32,
        color: u32,
        offset_x_bits: u32,
        offset_y_bits: u32,
        corner_radii: Radii,
    },
    PushClip { x_bits: u32, y_bits: u32, width_bits: u32, height_bits: u32 },
    /// Clip to a rounded rectangle (added by the engine, never decoded).
    PushRoundedClip {
        x_bits: u32,
        y_bits: u32,
        width_bits: u32,
        height_bits: u32,
        corner_radii: Radii,
    },
    PopClip,
    BeginScrollView {
        x_bits: u32,
        y_bits: u32,
        width_bits: u32,
        height_bits: u32,
        scroll_x_bits: u32,
        scroll_y_bits: u32,
        content_width_bits: Option<u32>,
        content_height_bits: Option<u32>,
    },
    EndScrollView,
    SetOpacity { opacity_bits: u32 },
}

pub open spec fn gradient_view(g: Option<Gradient>) -> Option<GradientView> {
    match g {
        Some(g) => Some(g@),
        None => None,
    }
}

impl View for RenderOp {
    type V = RenderOpView;

    open spec fn view(&self) -> RenderOpView {
        match *self {
            RenderOp::Clear { r, g, b, a } => RenderOpView::Clear { r, g, b, a },
            RenderOp::DrawRect {
                x_bits,
                y_bits,
                width_bits,
                height_bits,
                color,
                corner_radii,
                rotation_bits,
                border,
                gradient,
            } => RenderOpView::DrawRect {
                x_bits,
                y_bits,
                width_bits,
                height_bits,
                color,
                corner_radii,
                rotation_bits,
                border,
                gradient: gradient_view(gradient),
            },
            RenderOp::DrawText { x_bits, y_bits, text, font, color, layout } => RenderOpView::DrawText {
                x_bits,
                y_bits,
                text: text@,
                font: font@,
                color,
                layout,
            },
            RenderOp::DrawImage {
                x_bits,
                y_bits,
                width_bits,
                height_bits,
                texture_id,
                source_rect,
                corner_radii,
            } => RenderOpView::DrawImage {
                x_bits,
                y_bits,
                width_bits,
                height_bits,
                texture_id,
                source_rect,
                corner_radii,
            },
            RenderOp::DrawShadow {
                x_bits,
                y_bits,
                width_bits,
                height_bits,
                blur_bits,
                color,
                offset_x_bits,
                offset_y_bits,
                corner_radii,
            } => RenderOpView::DrawShadow {
                x_bits,
                y_bits,
                width_bits,
                height_bits,
                blur_bits,
                color,
                offset_x_bits,
                offset_y_bits,
                corner_radii,
            },
            RenderOp::PushClip { x_bits, y_bits, width_bits, height_bits } => RenderOpView::PushClip {
                x_bits,
                y_bits,
                width_bits,
                height_bits,
            },
            RenderOp::PushRoundedClip { x_bits, y_bits, width_bits, height_bits, corner_radii } =>
                RenderOpView::PushRoundedClip {
                x_bits,
                y_bits,
                width_bits,
                height_bits,
                corner_radii,
            },
            RenderOp::PopClip => RenderOpView::PopClip,
            RenderOp::BeginScrollView {
                x_bits,
                y_bits,
                width_bits,
                height_bits,
                scroll_x_bits,
                scroll_y_bits,
                content_width_bits,
                content_height_bits,
            } => RenderOpView::BeginScrollView {
                x_bits,
                y_bits,
                width_bits,
                height_bits,
                scroll_x_bits,
                scroll_y_bits,
                content_width_bits,
                content_height_bits,
            },
            RenderOp::EndScrollView => RenderOpView::EndScrollView,
            RenderOp::SetOpacity { opacity_bits } => RenderOpView::SetOpacity { opacity_bits },
        }
    }
}

/// Why a `RenderFrame` payload was refused.
#[derive(Clone, Copy, Debug, PartialEq, Eq, Structural)]
pub enum RenderDecodeError {
    /// A field runs past the end of the payload, or a text is not UTF-8.
    Malformed,
    /// The payload ends where a command's type byte should be.
    UnexpectedEnd,
    /// A command type byte that no command has.
    UnknownCommand(u8),
}

/// Result of decoding one command: the command and the offset after it.
pub enum OpStep {
    Decoded(RenderOpView, int),
    Failed(RenderDecodeError),
}

/// The 32-bit field at `o`.
pub open spec fn f32_at(p: Seq<u8>, o: int) -> u32 {
    le32(p, o) as u32
}

/// The four 32-bit fields from `o` on.
pub open spec fn quad_at(p: Seq<u8>, o: int) -> (u32, u32, u32, u32) {
    (f32_at(p, o), f32_at(p, o + 4), f32_at(p, o + 8), f32_at(p, o + 12))
}

/// Is bit `k` (0, 1 or 2) of `flags` set.
pub open spec fn bit_set(flags: u8, k: int) -> bool {
    if k == 0 {
        flags % 2 == 1
    } else if k == 1 {
        (flags / 2) % 2 == 1
    } else {
        (flags / 4) % 2 == 1
    }
}

pub open spec fn border_style_of(b: u8) -> BorderStyle {
    if b == 1 {
        BorderStyle::Dashed
    } else if b == 2 {
        BorderStyle::Dotted
    } else {
        BorderStyle::Solid
    }
}

/// The optional border of a rectangle at `o`, and the offset after it;
/// `None` when it does not fit.
pub open spec fn spec_border(p: Seq<u8>, o: int, flags: u8) -> Option<(Option<Border>, int)> {
    if !bit_set(flags, 0) {
        Some((None, o))
    } else if o + 9 > p.len() {
        None
    } else {
        Some(
            (
                Some(
                    Border {
                        width_bits: f32_at(p, o),
                        color: f32_at(p, o + 4),
                        style: border_style_of(p[o + 8]),
                    },
                ),
                o + 9,
            ),
        )
    }
}

/// The `count` gradient stops from `o` on.
pub open spec fn spec_stops(p: Seq<u8>, o: int, count: int) -> Seq<GradientStop> {
    Seq::new(
        count as nat,
        |i: int| GradientStop { position_bits: f32_at(p, o + 8 * i), color: f32_at(p, o + 8 * i + 4) },
    )
}

/// The optional gradient of a rectangle at `o`, and the offset after it;
/// `None` when it does not fit.
pub open spec fn spec_gradient(p: Seq<u8>, o: int, flags: u8) -> Option<(Option<GradientView>, int)> {
    if !bit_set(flags, 1) {
        Some((None, o))
    } else if o + 1 > p.len() {
        None
    } else {
        let kind = p[o];
        let o1 = o + 1;
        if kind == 0 {
            if o1 + 5 > p.len() {
                None
            } else {
                let count = p[o1 + 4] as int;
                let o2 = o1 + 5;
                if o2 + count * 8 > p.len() {
                    None
                } else {
                    Some(
                        (
                            Some(
                                GradientView::Linear {
                                    angle_bits: f32_at(p, o1),
                                    stops: spec_stops(p, o2, count),
                                },
                            ),
                            o2 + count * 8,
                        ),
                    )
                }
            }
        } else if kind == 1 {
            if o1 + 9 > p.len() {
                None
            } else {
                let count = p[o1 + 8] as int;
                let o2 = o1 + 9;
                if o2 + count * 8 > p.len() {
                    None
                } else {
                    Some(
                        (
                            Some(
                                GradientView::Radial {
                                    center_x_bits: f32_at(p, o1),
                                    center_y_bits: f32_at(p, o1 + 4),
                                    stops: spec_stops(p, o2, count),
                                },
                            ),
                            o2 + count * 8,
                        ),
                    )
                }
            }
        } else {
            Some((None, o1))
        }
    }
}

/// A rectangle command whose fields start at `o`.
pub open spec fn spec_draw_rect(p: Seq<u8>, o: int) -> OpStep {
    if o + 41 > p.len() {
        OpStep::Failed(RenderDecodeError::Malformed)
    } else {
        let flags = p[o + 40];
        match spec_border(p, o + 41, flags) {
            None => OpStep::Failed(RenderDecodeError::Malformed),
            Some((border, o2)) => match spec_gradient(p, o2, flags) {
                None => OpStep::Failed(RenderDecodeError::Malformed),
                Some((gradient, o3)) => OpStep::Decoded(
                    RenderOpView::DrawRect {
                        x_bits: f32_at(p, o),
                        y_bits: f32_at(p, o + 4),
                        width_bits: f32_at(p, o + 8),
                        height_bits: f32_at(p, o + 12),
                        color: f32_at(p, o + 16),
                        corner_radii: quad_at(p, o + 20),
                        rotation_bits: f32_at(p, o + 36),
                        border,
                        gradient,
                    },
                    o3,
                ),
            },
        }
    }
}

/// The UTF-8 text in `p[a..b]`, if it is valid UTF-8.
pub open spec fn text_in(p: Seq<u8>, a: int, b: int) -> Option<Seq<char>> {
    if valid_utf8(p.subrange(a, b)) {
        Some(decode_utf8(p.subrange(a, b)))
    } else {
        None
    }
}

pub open spec fn align_of(b: u8) -> TextAlign {
    if b == 1 {
        TextAlign::Center
    } else if b == 2 {
        TextAlign::Right
    } else if b == 3 {
        TextAlign::Justify
    } else {
        TextAlign::Left
    }
}

pub open spec fn valign_of(b: u8) -> VerticalAlign {
    if b == 1 {
        VerticalAlign::Middle
    } else if b == 2 {
        VerticalAlign::Bottom
    } else if b == 3 {
        VerticalAlign::Baseline
    } else {
        VerticalAlign::Top
    }
}

pub open spec fn word_break_of(b: u8) -> WordBreak {
    if b == 1 {
        WordBreak::BreakAll
    } else if b == 2 {
        WordBreak::KeepAll
    } else if b == 3 {
        WordBreak::BreakWord
    } else {
        WordBreak::Normal
    }
}

pub open spec fn overflow_of(b: u8) -> TextOverflow {
    if b == 1 {
        TextOverflow::Ellipsis
    } else if b == 2 {
        TextOverflow::Wrap
    } else {
        TextOverflow::Clip
    }
}

pub open spec fn white_space_of(b: u8) -> WhiteSpace {
    if b == 1 {
        WhiteSpace::NoWrap
    } else if b == 2 {
        WhiteSpace::Pre
    } else if b == 3 {
        WhiteSpace::PreWrap
    } else {
        WhiteSpace::Normal
    }
}

/// An optional 32-bit field at `o`, present when `present`; with the
/// offset after it, `None` when it does not fit.
pub open spec fn spec_opt_u32(p: Seq<u8>, o: int, present: bool) -> Option<(Option<u32>, int)> {
    if !present {
        Some((None, o))
    } else if o + 4 > p.len() {
        None
    } else {
        Some((Some(f32_at(p, o)), o + 4))
    }
}

/// The layout block of a text command at `o`, with the offset after it.
pub open spec fn spec_layout(p: Seq<u8>, o: int) -> Option<(TextLayout, int)> {
    if o + 1 > p.len() {
        None
    } else {
        let flags = p[o];
        match spec_opt_u32(p, o + 1, bit_set(flags, 0)) {
            None => None,
            Some((max_width, o1)) => match spec_opt_u32(p, o1, bit_set(flags, 1)) {
                None => None,
                Some((max_height, o2)) => match spec_opt_u32(p, o2, bit_set(flags, 2)) {
                    None => None,
                    Some((max_lines, o3)) => if o3 + 17 > p.len() {
                        None
                    } else {
                        Some(
                            (
                                TextLayout {
                                    max_width_bits: max_width,
                                    max_height_bits: max_height,
                                    max_lines,
                                    line_height_bits: f32_at(p, o3),
                                    letter_spacing_bits: f32_at(p, o3 + 4),
                                    word_spacing_bits: f32_at(p, o3 + 8),
                                    alignment: align_of(p[o3 + 12]),
                                    vertical_align: valign_of(p[o3 + 13]),
                                    word_break: word_break_of(p[o3 + 14]),
                                    overflow: overflow_of(p[o3 + 15]),
                                    white_space: white_space_of(p[o3 + 16]),
                                },
                                o3 + 17,
                            ),
                        )
                    },
                },
            },
        }
    }
}

/// A text command whose fields start at `o`.
pub open spec fn spec_draw_text(p: Seq<u8>, o: int) -> OpStep {
    if o + 12 > p.len() {
        OpStep::Failed(RenderDecodeError::Malformed)
    } else {
        let text_len = le32(p, o + 8);
        let o1 = o + 12;
        if o1 + text_len > p.len() {
            OpStep::Failed(RenderDecodeError::Malformed)
        } else {
            match text_in(p, o1, o1 + text_len) {
                None => OpStep::Failed(RenderDecodeError::Malformed),
                Some(text) => {
                    let o2 = o1 + text_len;
                    if o2 + 5 > p.len() {
                        OpStep::Failed(RenderDecodeError::Malformed)
                    } else {
                        let source_type = p[o2];
                        let name_len = le32(p, o2 + 1);
                        let o3 = o2 + 5;
                        if o3 + name_len > p.len() {
                            OpStep::Failed(RenderDecodeError::Malformed)
                        } else {
                            match text_in(p, o3, o3 + name_len) {
                                None => OpStep::Failed(RenderDecodeError::Malformed),
                                Some(name) => {
                                    let o4 = o3 + name_len;
                                    if o4 + 11 > p.len() {
                                        OpStep::Failed(RenderDecodeError::Malformed)
                                    } else {
                                        let font = FontSpecView {
                                            source: if source_type == 1 {
                                                FontSourceView::Bundled(name)
                                            } else {
                                                FontSourceView::System(name)
                                            },
                                            weight: le16(p, o4) as u16,
                                            style: if p[o4 + 2] == 1 {
                                                FontStyle::Italic
                                            } else {
                                                FontStyle::Normal
                                            },
                                            size_bits: f32_at(p, o4 + 3),
                                        };
                                        let color = f32_at(p, o4 + 7);
                                        match spec_layout(p, o4 + 11) {
                                            None => OpStep::Failed(RenderDecodeError::Malformed),
                                            Some((layout, o5)) => OpStep::Decoded(
                                                RenderOpView::DrawText {
                                                    x_bits: f32_at(p, o),
                                                    y_bits: f32_at(p, o + 4),
                                                    text,
                                                    font,
                                                    color,
                                                    layout,
                                                },
                                                o5,
                                            ),
                                        }
                                    }
                                },
                            }
                        }
                    }
                },
            }
        }
    }
}

/// An image command whose fields start at `o`.
pub open spec fn spec_draw_image(p: Seq<u8>, o: int) -> OpStep {
    if o + 21 > p.len() {
        OpStep::Failed(RenderDecodeError::Malformed)
    } else {
        let flags = p[o + 20];
        let o1 = o + 21;
        if bit_set(flags, 0) && o1 + 16 > p.len() {
            OpStep::Failed(RenderDecodeError::Malformed)
        } else {
            let source_rect = if bit_set(flags, 0) {
                Some(quad_at(p, o1))
            } else {
                None
            };
            let o2 = if bit_set(flags, 0) {
                o1 + 16
            } else {
                o1
            };
            if o2 + 16 > p.len() {
                OpStep::Failed(RenderDecodeError::Malformed)
            } else {
                OpStep::Decoded(
                    RenderOpView::DrawImage {
                        x_bits: f32_at(p, o),
                        y_bits: f32_at(p, o + 4),
                        width_bits: f32_at(p, o + 8),
                        height_bits: f32_at(p, o + 12),
                        texture_id: f32_at(p, o + 16),
                        source_rect,
                        corner_radii: quad_at(p, o2),
                    },
                    o2 + 16,
                )
            }
        }
    }
}

/// A scroll-view command whose fields start at `o`.
pub open spec fn spec_scroll_view(p: Seq<u8>, o: int) -> OpStep {
    if o + 25 > p.len() {
        OpStep::Failed(RenderDecodeError::Malformed)
    } else {
        let flags = p[o + 24];
        match spec_opt_u32(p, o + 25, bit_set(flags, 0)) {
            None => OpStep::Failed(RenderDecodeError::Malformed),
            Some((content_width_bits, o1)) => match spec_opt_u32(p, o1, bit_set(flags, 1)) {
                None => OpStep::Failed(RenderDecodeError::Malformed),
                Some((content_height_bits, o2)) => OpStep::Decoded(
                    RenderOpView::BeginScrollView {
                        x_bits: f32_at(p, o),
                        y_bits: f32_at(p, o + 4),
                        width_bits: f32_at(p, o + 8),
                        height_bits: f32_at(p, o + 12),
                        scroll_x_bits: f32_at(p, o + 16),
                        scroll_y_bits: f32_at(p, o + 20),
                        content_width_bits,
                        content_height_bits,
                    },
                    o2,
                ),
            },
        }
    }
}

/// The command of type `t` whose fields start at `o`.
pub open spec fn spec_op_at(p: Seq<u8>, o: int, t: u8) -> OpStep {
    if t == 0 {
        if o + 4 > p.len() {
            OpStep::Failed(RenderDecodeError::Malformed)
        } else {
            OpStep::Decoded(RenderOpView::Clear { r: p[o], g: p[o + 1], b: p[o + 2], a: p[o + 3] }, o + 4)
        }
    } else if t == 1 {
        spec_draw_rect(p, o)
    } else if t == 2 {
        spec_draw_text(p, o)
    } else if t == 3 {
        spec_draw_image(p, o)
    } else if t == 4 {
        if o + 48 > p.len() {
            OpStep::Failed(RenderDecodeError::Malformed)
        } else {
            OpStep::Decoded(
                RenderOpView::DrawShadow {
                    x_bits: f32_at(p, o),
                    y_bits: f32_at(p, o + 4),
                    width_bits: f32_at(p, o + 8),
                    height_bits: f32_at(p, o + 12),
                    blur_bits: f32_at(p, o + 16),
                    color: f32_at(p, o + 20),
                    offset_x_bits: f32_at(p, o + 24),
                    offset_y_bits: f32_at(p, o + 28),
                    corner_radii: quad_at(p, o + 32),
                },
                o + 48,
            )
        }
    } else if t == 5 {
        if o + 16 > p.len() {
            OpStep::Failed(RenderDecodeError::Malformed)
        } else {
            OpStep::Decoded(
                RenderOpView::PushClip {
                    x_bits: f32_at(p, o),
                    y_bits: f32_at(p, o + 4),
                    width_bits: f32_at(p, o + 8),
                    height_bits: f32_at(p, o + 12),
                },
                o + 16,
            )
        }
    } else if t == 6 {
        OpStep::Decoded(RenderOpView::PopClip, o)
    } else if t == 7 {
        spec_scroll_view(p, o)
    } else if t == 8 {
        OpStep::Decoded(RenderOpView::EndScrollView, o)
    } else if t == 9 {
        if o + 4 > p.len() {
            OpStep::Failed(RenderDecodeError::Malformed)
        } else {
            OpStep::Decoded(RenderOpView::SetOpacity { opacity_bits: f32_at(p, o) }, o + 4)
        }
    } else {
        OpStep::Failed(RenderDecodeError::UnknownCommand(t))
    }
}

/// The `remaining` commands from `off` on.
pub open spec fn spec_ops(p: Seq<u8>, off: int, remaining: nat) -> Result<
    Seq<RenderOpView>,
    RenderDecodeError,
>
    decreases remaining,
{
    if remaining == 0 {
        Ok(Seq::empty())
    } else if off < 0 || off >= p.len() {
        Err(RenderDecodeError::UnexpectedEnd)
    } else {
        match spec_op_at(p, off + 1, p[off]) {
            OpStep::Failed(e) => Err(e),
            OpStep::Decoded(op, next) => match spec_ops(p, next, (remaining - 1) as nat) {
                Err(e) => Err(e),
                Ok(rest) => Ok(seq![op] + rest),
            },
        }
    }
}

/// The commands of a `RenderFrame` payload: a 32-bit count, then each
/// command as a type byte followed by its fields.
pub open spec fn spec_decode_render_frame(p: Seq<u8>) -> Result<Seq<RenderOpView>, RenderDecodeError> {
    if p.len() < 4 {
        Err(RenderDecodeError::Malformed)
    } else {
        spec_ops(p, 4, le32(p, 0) as nat)
    }
}


proof fn lemma_ops_count(p: Seq<u8>, off: int, remaining: nat)
    ensures
        spec_ops(p, off, remaining) matches Ok(ops) ==> ops.len() == remaining,
    decreases remaining,
{
    if remaining > 0 && 0 <= off < p.len() {
        match spec_op_at(p, off + 1, p[off]) {
            OpStep::Decoded(op, next) => lemma_ops_count(p, next, (remaining - 1) as nat),
            OpStep::Failed(_) => {},
        }
    }
}

/// A render frame that decodes holds exactly as many commands as its
/// header announces.
pub proof fn lemma_frame_holds_announced_count(p: Seq<u8>)
    ensures
        spec_decode_render_frame(p) matches Ok(ops) ==> ops.len() == le32(p, 0),
{
    if p.len() >= 4 {
        lemma_ops_count(p, 4, le32(p, 0) as nat);
    }
}

/// Each 32-bit field read back from a run of written numbers is the
/// number written there.
proof fn lemma_fields_read_back(pre: Seq<u8>, f: Seq<u32>, post: Seq<u8>)
    ensures
        (pre + u32s_bytes(f) + post).len() == pre.len() + 4 * f.len() + post.len(),
        forall|k: int|
            0 <= k < f.len() ==> f32_at(pre + u32s_bytes(f) + post, pre.len() + 4 * k) == #[trigger] f[k],
{
    lemma_u32s_bytes_len(f);
    assert forall|k: int| 0 <= k < f.len() implies f32_at(pre + u32s_bytes(f) + post, pre.len() + 4 * k)
        == #[trigger] f[k] by {
        lemma_le32_of_written_run(pre, f, post, k);
    }
}

/// A shadow command whose twelve fields were written, in order, as
/// little-endian 32-bit numbers decodes to those fields: position, size,
/// blur, colour, then the offset along x (the seventh field) and along y
/// (the eighth), then the four corner radii; the next command starts
/// right after them.
pub proof fn lemma_shadow_fields_read_back(pre: Seq<u8>, f: Seq<u32>, post: Seq<u8>)
    requires
        f.len() == 12,
    ensures
        spec_op_at(pre + u32s_bytes(f) + post, pre.len() as int, 4) == OpStep::Decoded(
            RenderOpView::DrawShadow {
                x_bits: f[0],
                y_bits: f[1],
                width_bits: f[2],
                height_bits: f[3],
                blur_bits: f[4],
                color: f[5],
                offset_x_bits: f[6],
                offset_y_bits: f[7],
                corner_radii: (f[8], f[9], f[10], f[11]),
            },
            pre.len() + 48int,
        ),
{
    lemma_fields_read_back(pre, f, post);
}

/// A clip command whose four fields (position and size) were written in
/// order decodes to a clip to that rectangle.
pub proof fn lemma_clip_fields_read_back(pre: Seq<u8>, f: Seq<u32>, post: Seq<u8>)
    requires
        f.len() == 4,
    ensures
        spec_op_at(pre + u32s_bytes(f) + post, pre.len() as int, 5) == OpStep::Decoded(
            RenderOpView::PushClip { x_bits: f[0], y_bits: f[1], width_bits: f[2], height_bits: f[3] },
            pre.len() + 16int,
        ),
{
    lemma_fields_read_back(pre, f, post);
}

/// An opacity command decodes to the opacity written after its type byte.
pub proof fn lemma_opacity_read_back(pre: Seq<u8>, f: Seq<u32>, post: Seq<u8>)
    requires
        f.len() == 1,
    ensures
        spec_op_at(pre + u32s_bytes(f) + post, pre.len() as int, 9) == OpStep::Decoded(
            RenderOpView::SetOpacity { opacity_bits: f[0] },
            pre.len() + 4int,
        ),
{
    lemma_fields_read_back(pre, f, post);
}

/// A clear command decodes to the red, green, blue and alpha bytes written
/// after its type byte, in that order.
pub proof fn lemma_clear_read_back(pre: Seq<u8>, r: u8, g: u8, b: u8, a: u8, post: Seq<u8>)
    ensures
        spec_op_at(pre + seq![r, g, b, a] + post, pre.len() as int, 0) == OpStep::Decoded(
            RenderOpView::Clear { r, g, b, a },
            pre.len() + 4int,
        ),
{
    let p = pre + seq![r, g, b, a] + post;
    let o = pre.len() as int;
    assert(p[o] == r && p[o + 1] == g && p[o + 2] == b && p[o + 3] == a);
}

/// A rectangle command without border or gradient (flags 0) whose ten
/// fields were written in order decodes to them: position, size, colour,
/// the four corner radii, then the rotation.
pub proof fn lemma_rect_fields_read_back(pre: Seq<u8>, f: Seq<u32>, post: Seq<u8>)
    requires
        f.len() == 10,
    ensures
        spec_op_at(pre + u32s_bytes(f) + seq![0u8] + post, pre.len() as int, 1) == OpStep::Decoded(
            RenderOpView::DrawRect {
                x_bits: f[0],
                y_bits: f[1],
                width_bits: f[2],
                height_bits: f[3],
                color: f[4],
                corner_radii: (f[5], f[6], f[7], f[8]),
                rotation_bits: f[9],
                border: None,
                gradient: None,
            },
            pre.len() + 41int,
        ),
{
    let p = pre + u32s_bytes(f) + seq![0u8] + post;
    lemma_fields_read_back(pre, f, seq![0u8] + post);
    assert(p =~= pre + u32s_bytes(f) + (seq![0u8] + post));
    assert(p[pre.len() + 40int] == 0u8);
}

/// Each 32-bit field of a run of numbers found written at `o` reads back
/// as the number written there.
proof fn lemma_run_at(p: Seq<u8>, o: int, f: Seq<u32>)
    requires
        0 <= o,
        p.len() >= o + 4 * f.len(),
        p.subrange(o, o + 4 * f.len()) == u32s_bytes(f),
    ensures
        forall|k: int| 0 <= k < f.len() ==> f32_at(p, o + 4 * k) == #[trigger] f[k],
{
    let b = u32s_bytes(f);
    let e = Seq::<u8>::empty();
    lemma_u32s_bytes_len(f);
    assert(e + b + e =~= b);
    assert forall|k: int| 0 <= k < f.len() implies f32_at(p, o + 4 * k) == #[trigger] f[k] by {
        lemma_le32_of_written_run(e, f, e, k);
        assert(p.subrange(o, o + 4 * f.len())[4 * k] == p[o + 4 * k]);
        assert(p.subrange(o, o + 4 * f.len())[4 * k + 1] == p[o + 4 * k + 1]);
        assert(p.subrange(o, o + 4 * f.len())[4 * k + 2] == p[o + 4 * k + 2]);
        assert(p.subrange(o, o + 4 * f.len())[4 * k + 3] == p[o + 4 * k + 3]);
    }
}

/// A rectangle command with a border (flags 1) written at `o` decodes to
/// its ten fields, then the border's width and colour and its style byte,
/// in that order; it has no gradient.
pub proof fn lemma_rect_border_read_back(p: Seq<u8>, o: int, f: Seq<u32>, border: Seq<u32>, style: u8)
    requires
        0 <= o,
        f.len() == 10,
        border.len() == 2,
        p.len() >= o + 50,
        p.subrange(o, o + 40) == u32s_bytes(f),
        p[o + 40] == 1u8,
        p.subrange(o + 41, o + 49) == u32s_bytes(border),
        p[o + 49] == style,
    ensures
        spec_op_at(p, o, 1) == OpStep::Decoded(
            RenderOpView::DrawRect {
                x_bits: f[0],
                y_bits: f[1],
                width_bits: f[2],
                height_bits: f[3],
                color: f[4],
                corner_radii: (f[5], f[6], f[7], f[8]),
                rotation_bits: f[9],
                border: Some(
                    Border { width_bits: border[0], color: border[1], style: border_style_of(style) },
                ),
                gradient: None,
            },
            o + 50,
        ),
{
    lemma_run_at(p, o, f);
    lemma_run_at(p, o + 41, border);
}

/// The stops written as position and colour pairs.
pub open spec fn written_stops(stops: Seq<u32>) -> Seq<GradientStop> {
    Seq::new(
        stops.len() / 2,
        |i: int| GradientStop { position_bits: stops[2 * i], color: stops[2 * i + 1] },
    )
}

/// A rectangle command with a linear gradient (flags 2) written at `o`
/// decodes to its ten fields and a gradient with the written angle and,
/// in order, one stop per written position and colour pair.
#[verifier::spinoff_prover]
pub proof fn lemma_rect_gradient_read_back(p: Seq<u8>, o: int, f: Seq<u32>, angle: u32, stops: Seq<u32>)
    requires
        0 <= o,
        f.len() == 10,
        stops.len() % 2 == 0,
        stops.len() / 2 <= 255,
        p.len() >= o + 47 + 4 * stops.len(),
        p.subrange(o, o + 40) == u32s_bytes(f),
        p[o + 40] == 2u8,
        p[o + 41] == 0u8,
        p.subrange(o + 42, o + 46) == u32_bytes(angle),
        p[o + 46] == stops.len() / 2,
        p.subrange(o + 47, o + 47 + 4 * stops.len()) == u32s_bytes(stops),
    ensures
        spec_op_at(p, o, 1) == OpStep::Decoded(
            RenderOpView::DrawRect {
                x_bits: f[0],
                y_bits: f[1],
                width_bits: f[2],
                height_bits: f[3],
                color: f[4],
                corner_radii: (f[5], f[6], f[7], f[8]),
                rotation_bits: f[9],
                border: None,
                gradient: Some(GradientView::Linear { angle_bits: angle, stops: written_stops(stops) }),
            },
            o + 47 + 4 * stops.len(),
        ),
{
    let n = stops.len() / 2;
    lemma_run_at(p, o, f);
    assert(u32s_bytes(seq![angle]) =~= u32_bytes(angle)) by {
        assert(seq![angle].drop_last() =~= Seq::<u32>::empty());
        assert(u32s_bytes(Seq::<u32>::empty()) == Seq::<u8>::empty());
    }
    lemma_run_at(p, o + 42, seq![angle]);
    assert(seq![angle][0] == angle);
    lemma_run_at(p, o + 47, stops);
    assert(spec_stops(p, o + 47, n as int) =~= written_stops(stops)) by {
        assert forall|i: int| 0 <= i < n implies #[trigger] spec_stops(p, o + 47, n as int)[i]
            == written_stops(stops)[i] by {
            assert(stops[2 * i] == f32_at(p, o + 47 + 4 * (2 * i)));
            assert(stops[2 * i + 1] == f32_at(p, o + 47 + 4 * (2 * i + 1)));
        }
    }
}

/// An image command with a source rectangle (flags 1) written at `o`
/// decodes to its five leading fields (position, size, texture id), the
/// source rectangle written after the flags byte, then the four corner
/// radii.
pub proof fn lemma_image_source_read_back(
    p: Seq<u8>,
    o: int,
    f: Seq<u32>,
    source: Seq<u32>,
    radii: Seq<u32>,
)
    requires
        0 <= o,
        f.len() == 5,
        source.len() == 4,
        radii.len() == 4,
        p.len() >= o + 53,
        p.subrange(o, o + 20) == u32s_bytes(f),
        p[o + 20] == 1u8,
        p.subrange(o + 21, o + 37) == u32s_bytes(source),
        p.subrange(o + 37, o + 53) == u32s_bytes(radii),
    ensures
        spec_op_at(p, o, 3) == OpStep::Decoded(
            RenderOpView::DrawImage {
                x_bits: f[0],
                y_bits: f[1],
                width_bits: f[2],
                height_bits: f[3],
                texture_id: f[4],
                source_rect: Some((source[0], source[1], source[2], source[3])),
                corner_radii: (radii[0], radii[1], radii[2], radii[3]),
            },
            o + 53,
        ),
{
    lemma_run_at(p, o, f);
    lemma_run_at(p, o + 21, source);
    lemma_run_at(p, o + 37, radii);
}

/// A scroll-view command with both content sizes (flags 3) written at `o`
/// decodes to its six fields, then the content width and the content
/// height, in that order.
pub proof fn lemma_scroll_content_read_back(p: Seq<u8>, o: int, f: Seq<u32>, content: Seq<u32>)
    requires
        0 <= o,
        f.len() == 6,
        content.len() == 2,
        p.len() >= o + 33,
        p.subrange(o, o + 24) == u32s_bytes(f),
        p[o + 24] == 3u8,
        p.subrange(o + 25, o + 33) == u32s_bytes(content),
    ensures
        spec_op_at(p, o, 7) == OpStep::Decoded(
            RenderOpView::BeginScrollView {
                x_bits: f[0],
                y_bits: f[1],
                width_bits: f[2],
                height_bits: f[3],
                scroll_x_bits: f[4],
                scroll_y_bits: f[5],
                content_width_bits: Some(content[0]),
                content_height_bits: Some(content[1]),
            },
            o + 33,
        ),
{
    lemma_run_at(p, o, f);
    lemma_run_at(p, o + 25, content);
}

/// An image command without a source rectangle (flags 0) decodes to its
/// five leading fields (position, size, texture id) and the four corner
/// radii written after the flags byte.
pub proof fn lemma_image_fields_read_back(pre: Seq<u8>, f: Seq<u32>, radii: Seq<u32>, post: Seq<u8>)
    requires
        f.len() == 5,
        radii.len() == 4,
    ensures
        spec_op_at(pre + u32s_bytes(f) + seq![0u8] + u32s_bytes(radii) + post, pre.len() as int, 3)
            == OpStep::Decoded(
            RenderOpView::DrawImage {
                x_bits: f[0],
                y_bits: f[1],
                width_bits: f[2],
                height_bits: f[3],
                texture_id: f[4],
                source_rect: None,
                corner_radii: (radii[0], radii[1], radii[2], radii[3]),
            },
            pre.len() + 37int,
        ),
{
    let head = pre + u32s_bytes(f) + seq![0u8];
    let p = head + u32s_bytes(radii) + post;
    lemma_fields_read_back(pre, f, seq![0u8] + u32s_bytes(radii) + post);
    lemma_fields_read_back(head, radii, post);
    assert(p =~= pre + u32s_bytes(f) + (seq![0u8] + u32s_bytes(radii) + post));
    assert(p[pre.len() + 20int] == 0u8);
}

/// A scroll-view command without content sizes (flags 0) decodes to its
/// six fields in order: position, size, then the scroll offset along x
/// and along y.
pub proof fn lemma_scroll_fields_read_back(pre: Seq<u8>, f: Seq<u32>, post: Seq<u8>)
    requires
        f.len() == 6,
    ensures
        spec_op_at(pre + u32s_bytes(f) + seq![0u8] + post, pre.len() as int, 7) == OpStep::Decoded(
            RenderOpView::BeginScrollView {
                x_bits: f[0],
                y_bits: f[1],
                width_bits: f[2],
                height_bits: f[3],
                scroll_x_bits: f[4],
                scroll_y_bits: f[5],
                content_width_bits: None,
                content_height_bits: None,
            },
            pre.len() + 25int,
        ),
{
    let p = pre + u32s_bytes(f) + seq![0u8] + post;
    lemma_fields_read_back(pre, f, seq![0u8] + post);
    assert(p =~= pre + u32s_bytes(f) + (seq![0u8] + post));
    assert(p[pre.len() + 24int] == 0u8);
}

/// The font and layout fields that end a text command without size
/// limits.
pub open spec fn text_op_tail(
    weight: u16,
    style: u8,
    size_color: Seq<u32>,
    spacing: Seq<u32>,
    styles: Seq<u8>,
) -> Seq<u8> {
    u16_bytes(weight) + seq![style] + u32s_bytes(size_color) + seq![0u8] + u32s_bytes(spacing) + styles
}

/// The fields of the tail of a text command read back.
proof fn lemma_text_op_tail_fields(
    weight: u16,
    style: u8,
    size_color: Seq<u32>,
    spacing: Seq<u32>,
    styles: Seq<u8>,
)
    requires
        size_color.len() == 2,
        spacing.len() == 3,
        styles.len() == 5,
    ensures
        ({
            let t = text_op_tail(weight, style, size_color, spacing, styles);
            &&& t.len() == 29
            &&& le16(t, 0) == weight
            &&& t[2] == style
            &&& f32_at(t, 3) == size_color[0]
            &&& f32_at(t, 7) == size_color[1]
            &&& t[11] == 0u8
            &&& f32_at(t, 12) == spacing[0]
            &&& f32_at(t, 16) == spacing[1]
            &&& f32_at(t, 20) == spacing[2]
            &&& t.subrange(24, 29) == styles
        }),
{
    let e = u16_bytes(weight);
    let f = seq![style];
    let g = u32s_bytes(size_color);
    let h = seq![0u8];
    let k = u32s_bytes(spacing);
    let t = text_op_tail(weight, style, size_color, spacing, styles);
    lemma_u32s_bytes_len(size_color);
    lemma_u32s_bytes_len(spacing);
    lemma_le16_of_written(Seq::<u8>::empty(), weight, f + g + h + k + styles);
    assert(t =~= Seq::<u8>::empty() + e + (f + g + h + k + styles));
    lemma_fields_read_back(e + f, size_color, h + k + styles);
    assert(t =~= (e + f) + g + (h + k + styles));
    lemma_fields_read_back(e + f + g + h, spacing, styles);
    assert(t =~= (e + f + g + h) + k + styles);
    assert(t.subrange(24, 29) =~= styles);
}

/// The fields of a text command whose parts were written from `o` on read
/// back at their offsets.
proof fn lemma_text_op_fields(
    p: Seq<u8>,
    o: int,
    pos: Seq<u32>,
    text: Seq<u8>,
    source_type: u8,
    name: Seq<u8>,
    tail: Seq<u8>,
)
    requires
        0 <= o,
        pos.len() == 2,
        text.len() <= u32::MAX,
        name.len() <= u32::MAX,
        p.len() >= o + 12 + text.len() + 5 + name.len() + tail.len(),
        p.subrange(o, o + 12) == u32s_bytes(pos.push(text.len() as u32)),
        p.subrange(o + 12, o + 12 + text.len()) == text,
        p.subrange(o + 12 + text.len(), o + 17 + text.len()) == seq![source_type] + u32_bytes(
            name.len() as u32,
        ),
        p.subrange(o + 17 + text.len(), o + 17 + text.len() + name.len()) == name,
        p.subrange(o + 17 + text.len() + name.len(), o + 17 + text.len() + name.len() + tail.len())
            == tail,
    ensures
        f32_at(p, o) == pos[0],
        f32_at(p, o + 4) == pos[1],
        le32(p, o + 8) == text.len(),
        p[o + 12 + text.len()] == source_type,
        le32(p, o + 13 + text.len()) == name.len(),
        forall|i: int| 0 <= i < tail.len() ==> p[o + 17 + text.len() + name.len() + i] == #[trigger] tail[i],
        forall|i: int, j: int|
            #![trigger le32(p, j), le32(tail, i)]
            0 <= i < tail.len() - 3 && j == o + 17 + text.len() + name.len() + i ==> le32(p, j) == le32(
                tail,
                i,
            ),
{
    let head_nums = pos.push(text.len() as u32);
    let a = u32s_bytes(head_nums);
    let c = seq![source_type] + u32_bytes(name.len() as u32);
    let tl = text.len() as int;
    let o2 = o + 12 + tl;
    let o4 = o2 + 5 + name.len();
    lemma_u32s_bytes_len(head_nums);
    lemma_fields_read_back(Seq::<u8>::empty(), head_nums, Seq::<u8>::empty());
    assert(a =~= Seq::<u8>::empty() + a + Seq::<u8>::empty());
    assert(head_nums[0] == pos[0] && head_nums[1] == pos[1] && head_nums[2] == text.len() as u32);
    lemma_le32_of_written(seq![source_type], name.len() as u32, Seq::<u8>::empty());
    assert(c =~= seq![source_type] + u32_bytes(name.len() as u32) + Seq::<u8>::empty());
    assert forall|i: int| 0 <= i < 12 implies p[o + i] == #[trigger] a[i] by {
        assert(p.subrange(o, o + 12)[i] == p[o + i]);
    }
    assert forall|i: int| 0 <= i < 5 implies p[o2 + i] == #[trigger] c[i] by {
        assert(p.subrange(o2, o2 + 5)[i] == p[o2 + i]);
    }
    assert forall|i: int| 0 <= i < tail.len() implies p[o4 + i] == #[trigger] tail[i] by {
        assert(p.subrange(o4, o4 + tail.len())[i] == p[o4 + i]);
    }
    assert(a[0] == p[o] && a[1] == p[o + 1] && a[2] == p[o + 2] && a[3] == p[o + 3]);
    assert(a[4] == p[o + 4] && a[5] == p[o + 5] && a[6] == p[o + 6] && a[7] == p[o + 7]);
    assert(a[8] == p[o + 8] && a[9] == p[o + 9] && a[10] == p[o + 10] && a[11] == p[o + 11]);
    assert(c[0] == p[o2] && c[1] == p[o2 + 1] && c[2] == p[o2 + 2] && c[3] == p[o2 + 3] && c[4] == p[o2
        + 4]);
    assert forall|i: int, j: int|
        #![trigger le32(p, j), le32(tail, i)]
        0 <= i < tail.len() - 3 && j == o4 + i implies le32(p, j) == le32(tail, i) by {
        assert(tail[i] == p[o4 + i] && tail[i + 1] == p[o4 + i + 1] && tail[i + 2] == p[o4 + i + 2]
            && tail[i + 3] == p[o4 + i + 3]);
    }
}

/// A text command without size limits (layout flags 0) written at `o`
/// decodes to what was written: its position, its text, a font whose
/// source is bundled when the source byte is 1 (else a system font) with
/// the written name, weight, style (italic when the style byte is 1),
/// size and colour, and a layout with the written spacings and alignment
/// bytes; the next command starts right after it.
#[verifier::spinoff_prover]
#[verifier::rlimit(40)]
pub proof fn lemma_text_fields_read_back(
    p: Seq<u8>,
    o: int,
    pos: Seq<u32>,
    text: Seq<u8>,
    source_type: u8,
    name: Seq<u8>,
    weight: u16,
    style: u8,
    size_color: Seq<u32>,
    spacing: Seq<u32>,
    styles: Seq<u8>,
)
    requires
        0 <= o,
        pos.len() == 2,
        size_color.len() == 2,
        spacing.len() == 3,
        styles.len() == 5,
        text.len() <= u32::MAX,
        name.len() <= u32::MAX,
        valid_utf8(text),
        valid_utf8(name),
        p.len() >= o + 12 + text.len() + 5 + name.len() + 29,
        p.subrange(o, o + 12) == u32s_bytes(pos.push(text.len() as u32)),
        p.subrange(o + 12, o + 12 + text.len()) == text,
        p.subrange(o + 12 + text.len(), o + 17 + text.len()) == seq![source_type] + u32_bytes(
            name.len() as u32,
        ),
        p.subrange(o + 17 + text.len(), o + 17 + text.len() + name.len()) == name,
        p.subrange(o + 17 + text.len() + name.len(), o + 17 + text.len() + name.len() + 29)
            == text_op_tail(weight, style, size_color, spacing, styles),
    ensures
        spec_op_at(p, o, 2) == OpStep::Decoded(
            RenderOpView::DrawText {
                x_bits: pos[0],
                y_bits: pos[1],
                text: decode_utf8(text),
                font: FontSpecView {
                    source: if source_type == 1 {
                        FontSourceView::Bundled(decode_utf8(name))
                    } else {
                        FontSourceView::System(decode_utf8(name))
                    },
                    weight,
                    style: if style == 1 {
                        FontStyle::Italic
                    } else {
                        FontStyle::Normal
                    },
                    size_bits: size_color[0],
                },
                color: size_color[1],
                layout: TextLayout {
                    max_width_bits: None,
                    max_height_bits: None,
                    max_lines: None,
                    line_height_bits: spacing[0],
                    letter_spacing_bits: spacing[1],
                    word_spacing_bits: spacing[2],
                    alignment: align_of(styles[0]),
                    vertical_align: valign_of(styles[1]),
                    word_break: word_break_of(styles[2]),
                    overflow: overflow_of(styles[3]),
                    white_space: white_space_of(styles[4]),
                },
            },
            o + 17 + text.len() + name.len() + 29,
        ),
{
    let tail = text_op_tail(weight, style, size_color, spacing, styles);
    let o4 = o + 17 + text.len() + name.len();
    lemma_text_op_tail_fields(weight, style, size_color, spacing, styles);
    lemma_text_op_fields(p, o, pos, text, source_type, name, tail);
    assert(le32(p, o4 + 3) == le32(tail, 3));
    assert(le32(p, o4 + 7) == le32(tail, 7));
    assert(le32(p, o4 + 12) == le32(tail, 12));
    assert(le32(p, o4 + 16) == le32(tail, 16));
    assert(le32(p, o4 + 20) == le32(tail, 20));
    assert(p[o4] == tail[0] && p[o4 + 1] == tail[1] && p[o4 + 2] == tail[2] && p[o4 + 11] == tail[11]);
    assert(tail.subrange(24, 29)[0] == tail[24] && tail.subrange(24, 29)[1] == tail[25]);
    assert(tail.subrange(24, 29)[2] == tail[26] && tail.subrange(24, 29)[3] == tail[27]);
    assert(tail.subrange(24, 29)[4] == tail[28]);
    assert(p[o4 + 24] == tail[24] && p[o4 + 25] == tail[25] && p[o4 + 26] == tail[26]);
    assert(p[o4 + 27] == tail[27] && p[o4 + 28] == tail[28]);
}

/// The count and the type byte of the first command read back from a
/// frame that starts with them.
proof fn lemma_frame_head(count: u32, t: u8, fields: Seq<u32>)
    ensures
        (u32_bytes(count) + seq![t] + u32s_bytes(fields)).len() == 5 + 4 * fields.len(),
        le32(u32_bytes(count) + seq![t] + u32s_bytes(fields), 0) == count,
        (u32_bytes(count) + seq![t] + u32s_bytes(fields))[4] == t,
        u32_bytes(count) + seq![t] + u32s_bytes(fields) == u32_bytes(count) + seq![t] + u32s_bytes(
            fields,
        ) + Seq::<u8>::empty(),
{
    let p = u32_bytes(count) + seq![t] + u32s_bytes(fields);
    lemma_u32s_bytes_len(fields);
    lemma_le32_of_written(Seq::<u8>::empty(), count, seq![t] + u32s_bytes(fields));
    assert(p =~= Seq::<u8>::empty() + u32_bytes(count) + (seq![t] + u32s_bytes(fields)));
    assert(p =~= p + Seq::<u8>::empty());
}

/// A frame that announces one command, whose first command decodes, holds
/// that command alone.
proof fn lemma_frame_of_one(p: Seq<u8>, op: RenderOpView, next: int)
    requires
        p.len() >= 5,
        le32(p, 0) == 1,
        spec_op_at(p, 5, p[4]) == OpStep::Decoded(op, next),
    ensures
        spec_decode_render_frame(p) == Ok::<Seq<RenderOpView>, RenderDecodeError>(seq![op]),
{
    assert(spec_ops(p, next, 0) == Ok::<Seq<RenderOpView>, RenderDecodeError>(Seq::empty()));
    assert(seq![op] + Seq::<RenderOpView>::empty() =~= seq![op]);
}

/// A render frame announcing one command, a shadow (type 4) whose twelve
/// fields follow in order, decodes to exactly that shadow.
pub proof fn lemma_shadow_frame_read_back(f: Seq<u32>)
    requires
        f.len() == 12,
    ensures
        spec_decode_render_frame(u32_bytes(1) + seq![4u8] + u32s_bytes(f)) == Ok::<
            Seq<RenderOpView>,
            RenderDecodeError,
        >(
            seq![
                RenderOpView::DrawShadow {
                    x_bits: f[0],
                    y_bits: f[1],
                    width_bits: f[2],
                    height_bits: f[3],
                    blur_bits: f[4],
                    color: f[5],
                    offset_x_bits: f[6],
                    offset_y_bits: f[7],
                    corner_radii: (f[8], f[9], f[10], f[11]),
                },
            ],
        ),
{
    let p = u32_bytes(1) + seq![4u8] + u32s_bytes(f);
    let shadow = RenderOpView::DrawShadow {
        x_bits: f[0],
        y_bits: f[1],
        width_bits: f[2],
        height_bits: f[3],
        blur_bits: f[4],
        color: f[5],
        offset_x_bits: f[6],
        offset_y_bits: f[7],
        corner_radii: (f[8], f[9], f[10], f[11]),
    };
    lemma_frame_head(1, 4, f);
    lemma_shadow_fields_read_back(u32_bytes(1) + seq![4u8], f, Seq::<u8>::empty());
    lemma_frame_of_one(p, shadow, 53);
}

/// The view of each decoded command.
pub open spec fn ops_view(ops: Seq<RenderOp>) -> Seq<RenderOpView> {
    ops.map_values(|op: RenderOp| op@)
}

fn bit(flags: u8, k: u8) -> (r: bool)
    requires
        k <= 2,
    ensures
        r == bit_set(flags, k as int),
{
    if k == 0 {
        flags % 2 == 1
    } else if k == 1 {
        (flags / 2) % 2 == 1
    } else {
        (flags / 4) % 2 == 1
    }
}

fn decode_border(p: &[u8], o: usize, flags: u8) -> (r: Option<(Option<Border>, usize)>)
    requires
        o <= p@.len(),
    ensures
        match r {
            None => spec_border(p@, o as int, flags) is None,
            Some((b, o2)) => spec_border(p@, o as int, flags) == Some((b, o2 as int)) && o2
                <= p@.len(),
        },
{
    if !bit(flags, 0) {
        return Some((None, o));
    }
    if p.len() - o < 9 {
        return None;
    }
    let width_bits = read_u32(p, o);
    let color = read_u32(p, o + 4);
    let style = if p[o + 8] == 1 {
        BorderStyle::Dashed
    } else if p[o + 8] == 2 {
        BorderStyle::Dotted
    } else {
        BorderStyle::Solid
    };
    Some((Some(Border { width_bits, color, style }), o + 9))
}

fn decode_stops(p: &[u8], o: usize, count: usize) -> (r: Vec<GradientStop>)
    requires
        o + count * 8 <= p@.len(),
    ensures
        r@ == spec_stops(p@, o as int, count as int),
{
    let n = p.len();
    let mut stops: Vec<GradientStop> = Vec::new();
    let mut k: usize = 0;
    while k < count
        invariant
            n == p@.len(),
            k <= count,
            o + count * 8 <= p@.len(),
            stops@ =~= spec_stops(p@, o as int, k as int),
        decreases count - k,
    {
        let at = o + 8 * k;
        let position_bits = read_u32(p, at);
        let color = read_u32(p, at + 4);
        stops.push(GradientStop { position_bits, color });
        k = k + 1;
    }
    stops
}

pub open spec fn opt_gradient_view(g: Option<Gradient>) -> Option<GradientView> {
    match g {
        Some(g) => Some(g@),
        None => None,
    }
}

fn decode_gradient(p: &[u8], o: usize, flags: u8) -> (r: Option<(Option<Gradient>, usize)>)
    requires
        o <= p@.len(),
    ensures
        match r {
            None => spec_gradient(p@, o as int, flags) is None,
            Some((g, o2)) => spec_gradient(p@, o as int, flags) == Some(
                (opt_gradient_view(g), o2 as int),
            ) && o2 <= p@.len(),
        },
{
    if !bit(flags, 1) {
        return Some((None, o));
    }
    if p.len() - o < 1 {
        return None;
    }
    let kind = p[o];
    let o1 = o + 1;
    if kind == 0 {
        if p.len() - o1 < 5 {
            return None;
        }
        let angle_bits = read_u32(p, o1);
        let count = p[o1 + 4] as usize;
        let o2 = o1 + 5;
        if p.len() - o2 < count * 8 {
            return None;
        }
        let stops = decode_stops(p, o2, count);
        Some((Some(Gradient::Linear { angle_bits, stops }), o2 + count * 8))
    } else if kind == 1 {
        if p.len() - o1 < 9 {
            return None;
        }
        let center_x_bits = read_u32(p, o1);
        let center_y_bits = read_u32(p, o1 + 4);
        let count = p[o1 + 8] as usize;
        let o2 = o1 + 9;
        if p.len() - o2 < count * 8 {
            return None;
        }
        let stops = decode_stops(p, o2, count);
        Some((Some(Gradient::Radial { center_x_bits, center_y_bits, stops }), o2 + count * 8))
    } else {
        Some((None, o1))
    }
}

fn read_quad(p: &[u8], o: usize) -> (r: (u32, u32, u32, u32))
    requires
        o + 16 <= p@.len(),
    ensures
        r == quad_at(p@, o as int),
{
    let n = p.len();
    assert(o + 12 < n);
    (read_u32(p, o), read_u32(p, o + 4), read_u32(p, o + 8), read_u32(p, o + 12))
}

fn decode_draw_rect(p: &[u8], o: usize) -> (r: Result<(RenderOp, usize), RenderDecodeError>)
    requires
        o <= p@.len(),
    ensures
        match r {
            Ok((op, next)) => spec_draw_rect(p@, o as int) == OpStep::Decoded(op@, next as int) && next
                <= p@.len(),
            Err(e) => spec_draw_rect(p@, o as int) == OpStep::Failed(e),
        },
{
    if p.len() - o < 41 {
        return Err(RenderDecodeError::Malformed);
    }
    let flags = p[o + 40];
    let (border, o2) = match decode_border(p, o + 41, flags) {
        None => return Err(RenderDecodeError::Malformed),
        Some(x) => x,
    };
    let (gradient, o3) = match decode_gradient(p, o2, flags) {
        None => return Err(RenderDecodeError::Malformed),
        Some(x) => x,
    };
    let op = RenderOp::DrawRect {
        x_bits: read_u32(p, o),
        y_bits: read_u32(p, o + 4),
        width_bits: read_u32(p, o + 8),
        height_bits: read_u32(p, o + 12),
        color: read_u32(p, o + 16),
        corner_radii: read_quad(p, o + 20),
        rotation_bits: read_u32(p, o + 36),
        border,
        gradient,
    };
    Ok((op, o3))
}

fn decode_opt_u32(p: &[u8], o: usize, present: bool) -> (r: Option<(Option<u32>, usize)>)
    requires
        o <= p@.len(),
    ensures
        match r {
            None => spec_opt_u32(p@, o as int, present) is None,
            Some((v, o2)) => spec_opt_u32(p@, o as int, present) == Some((v, o2 as int)) && o2
                <= p@.len(),
        },
{
    if !present {
        return Some((None, o));
    }
    if p.len() - o < 4 {
        return None;
    }
    Some((Some(read_u32(p, o)), o + 4))
}

pub(crate) fn align_from(b: u8) -> (r: TextAlign)
    ensures
        r == align_of(b),
{
    if b == 1 {
        TextAlign::Center
    } else if b == 2 {
        TextAlign::Right
    } else if b == 3 {
        TextAlign::Justify
    } else {
        TextAlign::Left
    }
}

pub(crate) fn valign_from(b: u8) -> (r: VerticalAlign)
    ensures
        r == valign_of(b),
{
    if b == 1 {
        VerticalAlign::Middle
    } else if b == 2 {
        VerticalAlign::Bottom
    } else if b == 3 {
        VerticalAlign::Baseline
    } else {
        VerticalAlign::Top
    }
}

pub(crate) fn word_break_from(b: u8) -> (r: WordBreak)
    ensures
        r == word_break_of(b),
{
    if b == 1 {
        WordBreak::BreakAll
    } else if b == 2 {
        WordBreak::KeepAll
    } else if b == 3 {
        WordBreak::BreakWord
    } else {
        WordBreak::Normal
    }
}

pub(crate) fn overflow_from(b: u8) -> (r: TextOverflow)
    ensures
        r == overflow_of(b),
{
    if b == 1 {
        TextOverflow::Ellipsis
    } else if b == 2 {
        TextOverflow::Wrap
    } else {
        TextOverflow::Clip
    }
}

pub(crate) fn white_space_from(b: u8) -> (r: WhiteSpace)
    ensures
        r == white_space_of(b),
{
    if b == 1 {
        WhiteSpace::NoWrap
    } else if b == 2 {
        WhiteSpace::Pre
    } else if b == 3 {
        WhiteSpace::PreWrap
    } else {
        WhiteSpace::Normal
    }
}

fn decode_layout(p: &[u8], o: usize) -> (r: Option<(TextLayout, usize)>)
    requires
        o <= p@.len(),
    ensures
        match r {
            None => spec_layout(p@, o as int) is None,
            Some((l, o2)) => spec_layout(p@, o as int) == Some((l, o2 as int)) && o2 <= p@.len(),
        },
{
    if p.len() - o < 1 {
        return None;
    }
    let flags = p[o];
    let (max_width_bits, o1) = match decode_opt_u32(p, o + 1, bit(flags, 0)) {
        None => return None,
        Some(x) => x,
    };
    let (max_height_bits, o2) = match decode_opt_u32(p, o1, bit(flags, 1)) {
        None => return None,
        Some(x) => x,
    };
    let (max_lines, o3) = match decode_opt_u32(p, o2, bit(flags, 2)) {
        None => return None,
        Some(x) => x,
    };
    if p.len() - o3 < 17 {
        return None;
    }
    let alignment = align_from(p[o3 + 12]);
    let vertical_align = valign_from(p[o3 + 13]);
    let word_break = word_break_from(p[o3 + 14]);
    let overflow = overflow_from(p[o3 + 15]);
    let white_space = white_space_from(p[o3 + 16]);
    let layout = TextLayout {
        max_width_bits,
        max_height_bits,
        max_lines,
        line_height_bits: read_u32(p, o3),
        letter_spacing_bits: read_u32(p, o3 + 4),
        word_spacing_bits: read_u32(p, o3 + 8),
        alignment,
        vertical_align,
        word_break,
        overflow,
        white_space,
    };
    Some((layout, o3 + 17))
}

fn decode_draw_text(p: &[u8], o: usize) -> (r: Result<(RenderOp, usize), RenderDecodeError>)
    requires
        o <= p@.len(),
    ensures
        match r {
            Ok((op, next)) => spec_draw_text(p@, o as int) == OpStep::Decoded(op@, next as int) && next
                <= p@.len(),
            Err(e) => spec_draw_text(p@, o as int) == OpStep::Failed(e),
        },
{
    if p.len() - o < 12 {
        return Err(RenderDecodeError::Malformed);
    }
    let text_len = read_u32(p, o + 8) as usize;
    let o1 = o + 12;
    if text_len > p.len() - o1 {
        return Err(RenderDecodeError::Malformed);
    }
    let text = match read_text(p, o1, o1 + text_len) {
        None => return Err(RenderDecodeError::Malformed),
        Some(t) => t,
    };
    let o2 = o1 + text_len;
    if p.len() - o2 < 5 {
        return Err(RenderDecodeError::Malformed);
    }
    let source_type = p[o2];
    let name_len = read_u32(p, o2 + 1) as usize;
    let o3 = o2 + 5;
    if name_len > p.len() - o3 {
        return Err(RenderDecodeError::Malformed);
    }
    let name = match read_text(p, o3, o3 + name_len) {
        None => return Err(RenderDecodeError::Malformed),
        Some(t) => t,
    };
    let o4 = o3 + name_len;
    if p.len() - o4 < 11 {
        return Err(RenderDecodeError::Malformed);
    }
    let source = if source_type == 1 {
        FontSource::Bundled(name)
    } else {
        FontSource::System(name)
    };
    let style = if p[o4 + 2] == 1 {
        FontStyle::Italic
    } else {
        FontStyle::Normal
    };
    let font = FontSpec { source, weight: read_u16(p, o4), style, size_bits: read_u32(p, o4 + 3) };
    let color = read_u32(p, o4 + 7);
    let (layout, o5) = match decode_layout(p, o4 + 11) {
        None => return Err(RenderDecodeError::Malformed),
        Some(x) => x,
    };
    let op = RenderOp::DrawText {
        x_bits: read_u32(p, o),
        y_bits: read_u32(p, o + 4),
        text,
        font,
        color,
        layout,
    };
    Ok((op, o5))
}

fn decode_draw_image(p: &[u8], o: usize) -> (r: Result<(RenderOp, usize), RenderDecodeError>)
    requires
        o <= p@.len(),
    ensures
        match r {
            Ok((op, next)) => spec_draw_image(p@, o as int) == OpStep::Decoded(op@, next as int) && next
                <= p@.len(),
            Err(e) => spec_draw_image(p@, o as int) == OpStep::Failed(e),
        },
{
    if p.len() - o < 21 {
        return Err(RenderDecodeError::Malformed);
    }
    let flags = p[o + 20];
    let o1 = o + 21;
    let has_source = bit(flags, 0);
    if has_source && p.len() - o1 < 16 {
        return Err(RenderDecodeError::Malformed);
    }
    let source_rect = if has_source {
        Some(read_quad(p, o1))
    } else {
        None
    };
    let o2 = if has_source {
        o1 + 16
    } else {
        o1
    };
    if p.len() - o2 < 16 {
        return Err(RenderDecodeError::Malformed);
    }
    let op = RenderOp::DrawImage {
        x_bits: read_u32(p, o),
        y_bits: read_u32(p, o + 4),
        width_bits: read_u32(p, o + 8),
        height_bits: read_u32(p, o + 12),
        texture_id: read_u32(p, o + 16),
        source_rect,
        corner_radii: read_quad(p, o2),
    };
    Ok((op, o2 + 16))
}

fn decode_scroll_view(p: &[u8], o: usize) -> (r: Result<(RenderOp, usize), RenderDecodeError>)
    requires
        o <= p@.len(),
    ensures
        match r {
            Ok((op, next)) => spec_scroll_view(p@, o as int) == OpStep::Decoded(op@, next as int)
                && next <= p@.len(),
            Err(e) => spec_scroll_view(p@, o as int) == OpStep::Failed(e),
        },
{
    if p.len() - o < 25 {
        return Err(RenderDecodeError::Malformed);
    }
    let flags = p[o + 24];
    let (content_width_bits, o1) = match decode_opt_u32(p, o + 25, bit(flags, 0)) {
        None => return Err(RenderDecodeError::Malformed),
        Some(x) => x,
    };
    let (content_height_bits, o2) = match decode_opt_u32(p, o1, bit(flags, 1)) {
        None => return Err(RenderDecodeError::Malformed),
        Some(x) => x,
    };
    let op = RenderOp::BeginScrollView {
        x_bits: read_u32(p, o),
        y_bits: read_u32(p, o + 4),
        width_bits: read_u32(p, o + 8),
        height_bits: read_u32(p, o + 12),
        scroll_x_bits: read_u32(p, o + 16),
        scroll_y_bits: read_u32(p, o + 20),
        content_width_bits,
        content_height_bits,
    };
    Ok((op, o2))
}

/// Decodes the command of type `t` whose fields start at `o`.
pub fn decode_op(p: &[u8], o: usize, t: u8) -> (r: Result<(RenderOp, usize), RenderDecodeError>)
    requires
        o <= p@.len(),
    ensures
        match r {
            Ok((op, next)) => spec_op_at(p@, o as int, t) == OpStep::Decoded(op@, next as int) && next
                <= p@.len(),
            Err(e) => spec_op_at(p@, o as int, t) == OpStep::Failed(e),
        },
{
    let n = p.len();
    if t == 0 {
        if n - o < 4 {
            return Err(RenderDecodeError::Malformed);
        }
        Ok((RenderOp::Clear { r: p[o], g: p[o + 1], b: p[o + 2], a: p[o + 3] }, o + 4))
    } else if t == 1 {
        decode_draw_rect(p, o)
    } else if t == 2 {
        decode_draw_text(p, o)
    } else if t == 3 {
        decode_draw_image(p, o)
    } else if t == 4 {
        if n - o < 48 {
            return Err(RenderDecodeError::Malformed);
        }
        let op = RenderOp::DrawShadow {
            x_bits: read_u32(p, o),
            y_bits: read_u32(p, o + 4),
            width_bits: read_u32(p, o + 8),
            height_bits: read_u32(p, o + 12),
            blur_bits: read_u32(p, o + 16),
            color: read_u32(p, o + 20),
            offset_x_bits: read_u32(p, o + 24),
            offset_y_bits: read_u32(p, o + 28),
            corner_radii: read_quad(p, o + 32),
        };
        Ok((op, o + 48))
    } else if t == 5 {
        if n - o < 16 {
            return Err(RenderDecodeError::Malformed);
        }
        let op = RenderOp::PushClip {
            x_bits: read_u32(p, o),
            y_bits: read_u32(p, o + 4),
            width_bits: read_u32(p, o + 8),
            height_bits: read_u32(p, o + 12),
        };
        Ok((op, o + 16))
    } else if t == 6 {
        Ok((RenderOp::PopClip, o))
    } else if t == 7 {
        decode_scroll_view(p, o)
    } else if t == 8 {
        Ok((RenderOp::EndScrollView, o))
    } else if t == 9 {
        if n - o < 4 {
            return Err(RenderDecodeError::Malformed);
        }
        Ok((RenderOp::SetOpacity { opacity_bits: read_u32(p, o) }, o + 4))
    } else {
        Err(RenderDecodeError::UnknownCommand(t))
    }
}

/// Joins decoded commands with the outcome of decoding the rest.
pub open spec fn prepend_ops(
    done: Seq<RenderOpView>,
    rest: Result<Seq<RenderOpView>, RenderDecodeError>,
) -> Result<Seq<RenderOpView>, RenderDecodeError> {
    match rest {
        Ok(r) => Ok(done + r),
        Err(e) => Err(e),
    }
}

/// Decodes a `RenderFrame` payload into its render commands.
pub fn decode_render_frame(p: &[u8]) -> (r: Result<Vec<RenderOp>, RenderDecodeError>)
    ensures
        match r {
            Ok(ops) => spec_decode_render_frame(p@) == Ok::<Seq<RenderOpView>, RenderDecodeError>(
                ops_view(ops@),
            ),
            Err(e) => spec_decode_render_frame(p@) == Err::<Seq<RenderOpView>, RenderDecodeError>(
                e,
            ),
        },
{
    let n = p.len();
    if n < 4 {
        return Err(RenderDecodeError::Malformed);
    }
    let count = read_u32(p, 0);
    let mut off: usize = 4;
    let mut i: u32 = 0;
    let mut ops: Vec<RenderOp> = Vec::new();
    while i < count
        invariant
            n == p@.len(),
            off <= n,
            i <= count,
            count == le32(p@, 0),
            spec_decode_render_frame(p@) == prepend_ops(
                ops_view(ops@),
                spec_ops(p@, off as int, (count - i) as nat),
            ),
        decreases count - i,
    {
        if off >= n {
            return Err(RenderDecodeError::UnexpectedEnd);
        }
        let t = p[off];
        match decode_op(p, off + 1, t) {
            Err(e) => {
                return Err(e);
            },
            Ok((op, next)) => {
                let ghost before = ops_view(ops@);
                ops.push(op);
                proof {
                    let rest = spec_ops(p@, next as int, (count - i - 1) as nat);
                    assert(ops_view(ops@) =~= before.push(op@));
                    match rest {
                        Ok(r) => {
                            assert(before + (seq![op@] + r) =~= before.push(op@) + r);
                        },
                        Err(_) => {},
                    }
                }
                off = next;
                i = i + 1;
            },
        }
    }
    proof {
        assert(ops_view(ops@) + Seq::<RenderOpView>::empty() =~= ops_view(ops@));
    }
    Ok(ops)
}

/// The ASCII bytes of "unexpected end of payload".
pub open spec fn unexpected_end_text() -> Seq<u8> {
    seq![
        117u8, 110, 101, 120, 112, 101, 99, 116, 101, 100, 32, 101, 110, 100, 32, 111, 102, 32,
        112, 97, 121, 108, 111, 97, 100,
    ]
}

/// The ASCII bytes of "unknown render command type: ".
pub open spec fn unknown_command_text() -> Seq<u8> {
    seq![
        117u8, 110, 107, 110, 111, 119, 110, 32, 114, 101, 110, 100, 101, 114, 32, 99, 111, 109,
        109, 97, 110, 100, 32, 116, 121, 112, 101, 58, 32,
    ]
}

/// The decimal digits (ASCII) of `n`, without leading zeros.
pub open spec fn decimal_u8(n: u8) -> Seq<u8> {
    if n >= 100 {
        seq![(48 + n / 100) as u8, (48 + (n / 10) % 10) as u8, (48 + n % 10) as u8]
    } else if n >= 10 {
        seq![(48 + n / 10) as u8, (48 + n % 10) as u8]
    } else {
        seq![(48 + n) as u8]
    }
}

/// The text sent back with an Error response for a refused render payload.
pub open spec fn render_error_text(e: RenderDecodeError) -> Seq<u8> {
    match e {
        RenderDecodeError::Malformed => Seq::empty(),
        RenderDecodeError::UnexpectedEnd => unexpected_end_text(),
        RenderDecodeError::UnknownCommand(t) => unknown_command_text() + decimal_u8(t),
    }
}

impl RenderDecodeError {
    /// The bytes that the Error response for this refusal carries.
    pub fn message(&self) -> (r: Vec<u8>)
        ensures
            r@ == render_error_text(*self),
    {
        match *self {
            RenderDecodeError::Malformed => Vec::new(),
            RenderDecodeError::UnexpectedEnd => {
                let v = vec![
                    117u8, 110, 101, 120, 112, 101, 99, 116, 101, 100, 32, 101, 110, 100, 32, 111,
                    102, 32, 112, 97, 121, 108, 111, 97, 100,
                ];
                assert(v@ =~= unexpected_end_text());
                v
            },
            RenderDecodeError::UnknownCommand(t) => {
                let mut v = vec![
                    117u8, 110, 107, 110, 111, 119, 110, 32, 114, 101, 110, 100, 101, 114, 32, 99,
                    111, 109, 109, 97, 110, 100, 32, 116, 121, 112, 101, 58, 32,
                ];
                assert(v@ =~= unknown_command_text());
                if t >= 100 {
                    v.push(48 + t / 100);
                    v.push(48 + (t / 10) % 10);
                    v.push(48 + t % 10);
                } else if t >= 10 {
                    v.push(48 + t / 10);
                    v.push(48 + t % 10);
                } else {
                    v.push(48 + t);
                }
                assert(v@ =~= unknown_command_text() + decimal_u8(t));
                v
            },
        }
    }
}


} // verus!
