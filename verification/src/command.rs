//! Commands of the batched binary protocol: their wire codes and the
//! decoding of each command's payload into a typed command.

use vstd::prelude::*;
use vstd::utf8::*;
use crate::wire::{
    le32, le64, read_u32, read_u64, read_text, u32_bytes, u32s_bytes, u64_bytes,
    lemma_u32s_bytes_len, lemma_le32_of_written, lemma_le32_of_written_run,
    lemma_le64_of_written, lemma_u32_bytes_roundtrip,
};
use crate::render::{
    RenderOp, RenderOpView, RenderDecodeError, decode_render_frame, spec_decode_render_frame,
    ops_view, render_error_text, text_in, f32_at,
};

verus! {

/// How a command's payload is laid out.
#[derive(Clone, Copy, Debug, PartialEq, Eq, Structural)]
pub enum PayloadShape {
    /// No payload is read.
    Plain,
    /// A 32-bit object id.
    WithId,
    /// A 32-bit length, then that many bytes of UTF-8 text.
    Text,
    /// An id, a 32-bit length, then a UTF-8 path or URL without NUL bytes.
    Source,
    /// An id and a 64-bit timestamp in milliseconds.
    Seek,
    /// An id and an `f32` volume.
    Volume,
    /// An id and a one-byte flag.
    Flag,
    /// A layout of its own.
    Special,
    /// Known to the protocol but not executed by the engine.
    Unsupported,
}

/// Command types of the binary protocol (the wire code of each is given by
/// [`command_type_code`]).
#[derive(Clone, Copy, Debug, PartialEq, Eq, Structural)]
pub enum BatchCommandType {
    MeasureText,
    MeasureTextBatch,
    MeasureTextToCursor,
    MeasureTextWithFont,
    LoadImage,
    LoadImageFile,
    UnloadImage,
    GetTextureSize,
    RenderFrame,
    GetScaleFactor,
    GetDarkMode,
    AudioCreate,
    AudioDestroy,
    AudioLoadURL,
    AudioLoadFile,
    AudioPlay,
    AudioPause,
    AudioStop,
    AudioSeek,
    AudioSetVolume,
    AudioSetLooping,
    AudioGetState,
    AudioGetTime,
    AudioGetInfo,
    AudioGetVolume,
    AudioIsLooping,
    AudioUpdate,
    AudioInputCreate,
    AudioInputDestroy,
    AudioInputRequestPermission,
    AudioInputHasPermission,
    AudioInputListDevices,
    AudioInputOpen,
    AudioInputStart,
    AudioInputStop,
    AudioInputClose,
    AudioInputGetLevel,
    AudioInputGetState,
    VideoCreate,
    VideoDestroy,
    VideoLoadURL,
    VideoLoadFile,
    VideoInitStream,
    VideoPushFrame,
    VideoPlay,
    VideoPause,
    VideoSeek,
    VideoSetLooping,
    VideoSetMuted,
    VideoSetVolume,
    VideoGetState,
    VideoGetTime,
    VideoGetInfo,
    VideoUpdate,
    VideoGetTextureID,
    VideoInputCreate,
    VideoInputDestroy,
    VideoInputRequestPermission,
    VideoInputHasPermission,
    VideoInputListDevices,
    VideoInputOpen,
    VideoInputStart,
    VideoInputStop,
    VideoInputClose,
    VideoInputGetState,
    VideoInputGetDimensions,
    VideoInputGetFrameTexture,
    ClipboardGet,
    ClipboardSet,
    RequestRedraw,
    RequestExit,
}

/// The 16-bit wire code of each command type.
pub open spec fn command_type_code(t: BatchCommandType) -> u16 {
    match t {
        BatchCommandType::MeasureText => 0x0000,
        BatchCommandType::MeasureTextBatch => 0x0001,
        BatchCommandType::MeasureTextToCursor => 0x0002,
        BatchCommandType::MeasureTextWithFont => 0x0003,
        BatchCommandType::LoadImage => 0x0100,
        BatchCommandType::LoadImageFile => 0x0101,
        BatchCommandType::UnloadImage => 0x0102,
        BatchCommandType::GetTextureSize => 0x0103,
        BatchCommandType::RenderFrame => 0x0200,
        BatchCommandType::GetScaleFactor => 0x0300,
        BatchCommandType::GetDarkMode => 0x0301,
        BatchCommandType::AudioCreate => 0x0400,
        BatchCommandType::AudioDestroy => 0x0401,
        BatchCommandType::AudioLoadURL => 0x0402,
        BatchCommandType::AudioLoadFile => 0x0403,
        BatchCommandType::AudioPlay => 0x0404,
        BatchCommandType::AudioPause => 0x0405,
        BatchCommandType::AudioStop => 0x0406,
        BatchCommandType::AudioSeek => 0x0407,
        BatchCommandType::AudioSetVolume => 0x0408,
        BatchCommandType::AudioSetLooping => 0x0409,
        BatchCommandType::AudioGetState => 0x040A,
        BatchCommandType::AudioGetTime => 0x040B,
        BatchCommandType::AudioGetInfo => 0x040C,
        BatchCommandType::AudioGetVolume => 0x040D,
        BatchCommandType::AudioIsLooping => 0x040E,
        BatchCommandType::AudioUpdate => 0x040F,
        BatchCommandType::AudioInputCreate => 0x0500,
        BatchCommandType::AudioInputDestroy => 0x0501,
        BatchCommandType::AudioInputRequestPermission => 0x0502,
        BatchCommandType::AudioInputHasPermission => 0x0503,
        BatchCommandType::AudioInputListDevices => 0x0504,
        BatchCommandType::AudioInputOpen => 0x0505,
        BatchCommandType::AudioInputStart => 0x0506,
        BatchCommandType::AudioInputStop => 0x0507,
        BatchCommandType::AudioInputClose => 0x0508,
        BatchCommandType::AudioInputGetLevel => 0x0509,
        BatchCommandType::AudioInputGetState => 0x050A,
        BatchCommandType::VideoCreate => 0x0600,
        BatchCommandType::VideoDestroy => 0x0601,
        BatchCommandType::VideoLoadURL => 0x0602,
        BatchCommandType::VideoLoadFile => 0x0603,
        BatchCommandType::VideoInitStream => 0x0604,
        BatchCommandType::VideoPushFrame => 0x0605,
        BatchCommandType::VideoPlay => 0x0606,
        BatchCommandType::VideoPause => 0x0607,
        BatchCommandType::VideoSeek => 0x0608,
        BatchCommandType::VideoSetLooping => 0x0609,
        BatchCommandType::VideoSetMuted => 0x060A,
        BatchCommandType::VideoSetVolume => 0x060B,
        BatchCommandType::VideoGetState => 0x060C,
        BatchCommandType::VideoGetTime => 0x060D,
        BatchCommandType::VideoGetInfo => 0x060E,
        BatchCommandType::VideoUpdate => 0x060F,
        BatchCommandType::VideoGetTextureID => 0x0610,
        BatchCommandType::VideoInputCreate => 0x0700,
        BatchCommandType::VideoInputDestroy => 0x0701,
        BatchCommandType::VideoInputRequestPermission => 0x0702,
        BatchCommandType::VideoInputHasPermission => 0x0703,
        BatchCommandType::VideoInputListDevices => 0x0704,
        BatchCommandType::VideoInputOpen => 0x0705,
        BatchCommandType::VideoInputStart => 0x0706,
        BatchCommandType::VideoInputStop => 0x0707,
        BatchCommandType::VideoInputClose => 0x0708,
        BatchCommandType::VideoInputGetState => 0x0709,
        BatchCommandType::VideoInputGetDimensions => 0x070A,
        BatchCommandType::VideoInputGetFrameTexture => 0x070B,
        BatchCommandType::ClipboardGet => 0x0800,
        BatchCommandType::ClipboardSet => 0x0801,
        BatchCommandType::RequestRedraw => 0xFF00,
        BatchCommandType::RequestExit => 0xFF01,
    }
}

/// The command type that a wire code stands for, if any.
pub open spec fn command_type_of(code: u16) -> Option<BatchCommandType> {
    match code {
        0x0000 => Some(BatchCommandType::MeasureText),
        0x0001 => Some(BatchCommandType::MeasureTextBatch),
        0x0002 => Some(BatchCommandType::MeasureTextToCursor),
        0x0003 => Some(BatchCommandType::MeasureTextWithFont),
        0x0100 => Some(BatchCommandType::LoadImage),
        0x0101 => Some(BatchCommandType::LoadImageFile),
        0x0102 => Some(BatchCommandType::UnloadImage),
        0x0103 => Some(BatchCommandType::GetTextureSize),
        0x0200 => Some(BatchCommandType::RenderFrame),
        0x0300 => Some(BatchCommandType::GetScaleFactor),
        0x0301 => Some(BatchCommandType::GetDarkMode),
        0x0400 => Some(BatchCommandType::AudioCreate),
        0x0401 => Some(BatchCommandType::AudioDestroy),
        0x0402 => Some(BatchCommandType::AudioLoadURL),
        0x0403 => Some(BatchCommandType::AudioLoadFile),
        0x0404 => Some(BatchCommandType::AudioPlay),
        0x0405 => Some(BatchCommandType::AudioPause),
        0x0406 => Some(BatchCommandType::AudioStop),
        0x0407 => Some(BatchCommandType::AudioSeek),
        0x0408 => Some(BatchCommandType::AudioSetVolume),
        0x0409 => Some(BatchCommandType::AudioSetLooping),
        0x040A => Some(BatchCommandType::AudioGetState),
        0x040B => Some(BatchCommandType::AudioGetTime),
        0x040C => Some(BatchCommandType::AudioGetInfo),
        0x040D => Some(BatchCommandType::AudioGetVolume),
        0x040E => Some(BatchCommandType::AudioIsLooping),
        0x040F => Some(BatchCommandType::AudioUpdate),
        0x0500 => Some(BatchCommandType::AudioInputCreate),
        0x0501 => Some(BatchCommandType::AudioInputDestroy),
        0x0502 => Some(BatchCommandType::AudioInputRequestPermission),
        0x0503 => Some(BatchCommandType::AudioInputHasPermission),
        0x0504 => Some(BatchCommandType::AudioInputListDevices),
        0x0505 => Some(BatchCommandType::AudioInputOpen),
        0x0506 => Some(BatchCommandType::AudioInputStart),
        0x0507 => Some(BatchCommandType::AudioInputStop),
        0x0508 => Some(BatchCommandType::AudioInputClose),
        0x0509 => Some(BatchCommandType::AudioInputGetLevel),
        0x050A => Some(BatchCommandType::AudioInputGetState),
        0x0600 => Some(BatchCommandType::VideoCreate),
        0x0601 => Some(BatchCommandType::VideoDestroy),
        0x0602 => Some(BatchCommandType::VideoLoadURL),
        0x0603 => Some(BatchCommandType::VideoLoadFile),
        0x0604 => Some(BatchCommandType::VideoInitStream),
        0x0605 => Some(BatchCommandType::VideoPushFrame),
        0x0606 => Some(BatchCommandType::VideoPlay),
        0x0607 => Some(BatchCommandType::VideoPause),
        0x0608 => Some(BatchCommandType::VideoSeek),
        0x0609 => Some(BatchCommandType::VideoSetLooping),
        0x060A => Some(BatchCommandType::VideoSetMuted),
        0x060B => Some(BatchCommandType::VideoSetVolume),
        0x060C => Some(BatchCommandType::VideoGetState),
        0x060D => Some(BatchCommandType::VideoGetTime),
        0x060E => Some(BatchCommandType::VideoGetInfo),
        0x060F => Some(BatchCommandType::VideoUpdate),
        0x0610 => Some(BatchCommandType::VideoGetTextureID),
        0x0700 => Some(BatchCommandType::VideoInputCreate),
        0x0701 => Some(BatchCommandType::VideoInputDestroy),
        0x0702 => Some(BatchCommandType::VideoInputRequestPermission),
        0x0703 => Some(BatchCommandType::VideoInputHasPermission),
        0x0704 => Some(BatchCommandType::VideoInputListDevices),
        0x0705 => Some(BatchCommandType::VideoInputOpen),
        0x0706 => Some(BatchCommandType::VideoInputStart),
        0x0707 => Some(BatchCommandType::VideoInputStop),
        0x0708 => Some(BatchCommandType::VideoInputClose),
        0x0709 => Some(BatchCommandType::VideoInputGetState),
        0x070A => Some(BatchCommandType::VideoInputGetDimensions),
        0x070B => Some(BatchCommandType::VideoInputGetFrameTexture),
        0x0800 => Some(BatchCommandType::ClipboardGet),
        0x0801 => Some(BatchCommandType::ClipboardSet),
        0xFF00 => Some(BatchCommandType::RequestRedraw),
        0xFF01 => Some(BatchCommandType::RequestExit),
        _ => None,
    }
}

/// Each command type is found again from its wire code, so no two command
/// types share a code.
pub proof fn lemma_command_codes_identify_types(t: BatchCommandType)
    ensures
        command_type_of(command_type_code(t)) == Some(t),
{
}

/// A code found in the table is the code of the type it stands for.
pub proof fn lemma_command_type_of_code(code: u16)
    ensures
        command_type_of(code) matches Some(t) ==> command_type_code(t) == code,
{
}

/// How the payload of each command type is laid out.
pub open spec fn command_shape(t: BatchCommandType) -> PayloadShape {
    match t {
        BatchCommandType::MeasureText => PayloadShape::Special,
        BatchCommandType::MeasureTextBatch => PayloadShape::Special,
        BatchCommandType::MeasureTextToCursor => PayloadShape::Unsupported,
        BatchCommandType::MeasureTextWithFont => PayloadShape::Unsupported,
        BatchCommandType::LoadImage => PayloadShape::Special,
        BatchCommandType::LoadImageFile => PayloadShape::Text,
        BatchCommandType::UnloadImage => PayloadShape::WithId,
        BatchCommandType::GetTextureSize => PayloadShape::WithId,
        BatchCommandType::RenderFrame => PayloadShape::Special,
        BatchCommandType::GetScaleFactor => PayloadShape::Plain,
        BatchCommandType::GetDarkMode => PayloadShape::Plain,
        BatchCommandType::AudioCreate => PayloadShape::Plain,
        BatchCommandType::AudioDestroy => PayloadShape::WithId,
        BatchCommandType::AudioLoadURL => PayloadShape::Source,
        BatchCommandType::AudioLoadFile => PayloadShape::Source,
        BatchCommandType::AudioPlay => PayloadShape::WithId,
        BatchCommandType::AudioPause => PayloadShape::WithId,
        BatchCommandType::AudioStop => PayloadShape::WithId,
        BatchCommandType::AudioSeek => PayloadShape::Seek,
        BatchCommandType::AudioSetVolume => PayloadShape::Volume,
        BatchCommandType::AudioSetLooping => PayloadShape::Flag,
        BatchCommandType::AudioGetState => PayloadShape::WithId,
        BatchCommandType::AudioGetTime => PayloadShape::WithId,
        BatchCommandType::AudioGetInfo => PayloadShape::WithId,
        BatchCommandType::AudioGetVolume => PayloadShape::WithId,
        BatchCommandType::AudioIsLooping => PayloadShape::WithId,
        BatchCommandType::AudioUpdate => PayloadShape::WithId,
        BatchCommandType::AudioInputCreate => PayloadShape::Plain,
        BatchCommandType::AudioInputDestroy => PayloadShape::WithId,
        BatchCommandType::AudioInputRequestPermission => PayloadShape::WithId,
        BatchCommandType::AudioInputHasPermission => PayloadShape::WithId,
        BatchCommandType::AudioInputListDevices => PayloadShape::WithId,
        BatchCommandType::AudioInputOpen => PayloadShape::Special,
        BatchCommandType::AudioInputStart => PayloadShape::WithId,
        BatchCommandType::AudioInputStop => PayloadShape::WithId,
        BatchCommandType::AudioInputClose => PayloadShape::WithId,
        BatchCommandType::AudioInputGetLevel => PayloadShape::WithId,
        BatchCommandType::AudioInputGetState => PayloadShape::WithId,
        BatchCommandType::VideoCreate => PayloadShape::Plain,
        BatchCommandType::VideoDestroy => PayloadShape::WithId,
        BatchCommandType::VideoLoadURL => PayloadShape::Source,
        BatchCommandType::VideoLoadFile => PayloadShape::Source,
        BatchCommandType::VideoInitStream => PayloadShape::Special,
        BatchCommandType::VideoPushFrame => PayloadShape::Special,
        BatchCommandType::VideoPlay => PayloadShape::WithId,
        BatchCommandType::VideoPause => PayloadShape::WithId,
        BatchCommandType::VideoSeek => PayloadShape::Seek,
        BatchCommandType::VideoSetLooping => PayloadShape::Flag,
        BatchCommandType::VideoSetMuted => PayloadShape::Flag,
        BatchCommandType::VideoSetVolume => PayloadShape::Volume,
        BatchCommandType::VideoGetState => PayloadShape::WithId,
        BatchCommandType::VideoGetTime => PayloadShape::WithId,
        BatchCommandType::VideoGetInfo => PayloadShape::WithId,
        BatchCommandType::VideoUpdate => PayloadShape::WithId,
        BatchCommandType::VideoGetTextureID => PayloadShape::WithId,
        BatchCommandType::VideoInputCreate => PayloadShape::Plain,
        BatchCommandType::VideoInputDestroy => PayloadShape::WithId,
        BatchCommandType::VideoInputRequestPermission => PayloadShape::WithId,
        BatchCommandType::VideoInputHasPermission => PayloadShape::WithId,
        BatchCommandType::VideoInputListDevices => PayloadShape::WithId,
        BatchCommandType::VideoInputOpen => PayloadShape::Special,
        BatchCommandType::VideoInputStart => PayloadShape::WithId,
        BatchCommandType::VideoInputStop => PayloadShape::WithId,
        BatchCommandType::VideoInputClose => PayloadShape::WithId,
        BatchCommandType::VideoInputGetState => PayloadShape::WithId,
        BatchCommandType::VideoInputGetDimensions => PayloadShape::WithId,
        BatchCommandType::VideoInputGetFrameTexture => PayloadShape::Special,
        BatchCommandType::ClipboardGet => PayloadShape::Plain,
        BatchCommandType::ClipboardSet => PayloadShape::Text,
        BatchCommandType::RequestRedraw => PayloadShape::Plain,
        BatchCommandType::RequestExit => PayloadShape::Plain,
    }
}

impl BatchCommandType {
    /// The wire code of this command type.
    pub fn code(self) -> (r: u16)
        ensures
            r == command_type_code(self),
    {
        match self {
            BatchCommandType::MeasureText => 0x0000,
            BatchCommandType::MeasureTextBatch => 0x0001,
            BatchCommandType::MeasureTextToCursor => 0x0002,
            BatchCommandType::MeasureTextWithFont => 0x0003,
            BatchCommandType::LoadImage => 0x0100,
            BatchCommandType::LoadImageFile => 0x0101,
            BatchCommandType::UnloadImage => 0x0102,
            BatchCommandType::GetTextureSize => 0x0103,
            BatchCommandType::RenderFrame => 0x0200,
            BatchCommandType::GetScaleFactor => 0x0300,
            BatchCommandType::GetDarkMode => 0x0301,
            BatchCommandType::AudioCreate => 0x0400,
            BatchCommandType::AudioDestroy => 0x0401,
            BatchCommandType::AudioLoadURL => 0x0402,
            BatchCommandType::AudioLoadFile => 0x0403,
            BatchCommandType::AudioPlay => 0x0404,
            BatchCommandType::AudioPause => 0x0405,
            BatchCommandType::AudioStop => 0x0406,
            BatchCommandType::AudioSeek => 0x0407,
            BatchCommandType::AudioSetVolume => 0x0408,
            BatchCommandType::AudioSetLooping => 0x0409,
            BatchCommandType::AudioGetState => 0x040A,
            BatchCommandType::AudioGetTime => 0x040B,
            BatchCommandType::AudioGetInfo => 0x040C,
            BatchCommandType::AudioGetVolume => 0x040D,
            BatchCommandType::AudioIsLooping => 0x040E,
            BatchCommandType::AudioUpdate => 0x040F,
            BatchCommandType::AudioInputCreate => 0x0500,
            BatchCommandType::AudioInputDestroy => 0x0501,
            BatchCommandType::AudioInputRequestPermission => 0x0502,
            BatchCommandType::AudioInputHasPermission => 0x0503,
            BatchCommandType::AudioInputListDevices => 0x0504,
            BatchCommandType::AudioInputOpen => 0x0505,
            BatchCommandType::AudioInputStart => 0x0506,
            BatchCommandType::AudioInputStop => 0x0507,
            BatchCommandType::AudioInputClose => 0x0508,
            BatchCommandType::AudioInputGetLevel => 0x0509,
            BatchCommandType::AudioInputGetState => 0x050A,
            BatchCommandType::VideoCreate => 0x0600,
            BatchCommandType::VideoDestroy => 0x0601,
            BatchCommandType::VideoLoadURL => 0x0602,
            BatchCommandType::VideoLoadFile => 0x0603,
            BatchCommandType::VideoInitStream => 0x0604,
            BatchCommandType::VideoPushFrame => 0x0605,
            BatchCommandType::VideoPlay => 0x0606,
            BatchCommandType::VideoPause => 0x0607,
            BatchCommandType::VideoSeek => 0x0608,
            BatchCommandType::VideoSetLooping => 0x0609,
            BatchCommandType::VideoSetMuted => 0x060A,
            BatchCommandType::VideoSetVolume => 0x060B,
            BatchCommandType::VideoGetState => 0x060C,
            BatchCommandType::VideoGetTime => 0x060D,
            BatchCommandType::VideoGetInfo => 0x060E,
            BatchCommandType::VideoUpdate => 0x060F,
            BatchCommandType::VideoGetTextureID => 0x0610,
            BatchCommandType::VideoInputCreate => 0x0700,
            BatchCommandType::VideoInputDestroy => 0x0701,
            BatchCommandType::VideoInputRequestPermission => 0x0702,
            BatchCommandType::VideoInputHasPermission => 0x0703,
            BatchCommandType::VideoInputListDevices => 0x0704,
            BatchCommandType::VideoInputOpen => 0x0705,
            BatchCommandType::VideoInputStart => 0x0706,
            BatchCommandType::VideoInputStop => 0x0707,
            BatchCommandType::VideoInputClose => 0x0708,
            BatchCommandType::VideoInputGetState => 0x0709,
            BatchCommandType::VideoInputGetDimensions => 0x070A,
            BatchCommandType::VideoInputGetFrameTexture => 0x070B,
            BatchCommandType::ClipboardGet => 0x0800,
            BatchCommandType::ClipboardSet => 0x0801,
            BatchCommandType::RequestRedraw => 0xFF00,
            BatchCommandType::RequestExit => 0xFF01,
        }
    }

    /// The command type with the given wire code, if any.
    pub fn from_code(code: u16) -> (r: Option<BatchCommandType>)
        ensures
            r == command_type_of(code),
    {
        match code {
            0x0000 => Some(BatchCommandType::MeasureText),
            0x0001 => Some(BatchCommandType::MeasureTextBatch),
            0x0002 => Some(BatchCommandType::MeasureTextToCursor),
            0x0003 => Some(BatchCommandType::MeasureTextWithFont),
            0x0100 => Some(BatchCommandType::LoadImage),
            0x0101 => Some(BatchCommandType::LoadImageFile),
            0x0102 => Some(BatchCommandType::UnloadImage),
            0x0103 => Some(BatchCommandType::GetTextureSize),
            0x0200 => Some(BatchCommandType::RenderFrame),
            0x0300 => Some(BatchCommandType::GetScaleFactor),
            0x0301 => Some(BatchCommandType::GetDarkMode),
            0x0400 => Some(BatchCommandType::AudioCreate),
            0x0401 => Some(BatchCommandType::AudioDestroy),
            0x0402 => Some(BatchCommandType::AudioLoadURL),
            0x0403 => Some(BatchCommandType::AudioLoadFile),
            0x0404 => Some(BatchCommandType::AudioPlay),
            0x0405 => Some(BatchCommandType::AudioPause),
            0x0406 => Some(BatchCommandType::AudioStop),
            0x0407 => Some(BatchCommandType::AudioSeek),
            0x0408 => Some(BatchCommandType::AudioSetVolume),
            0x0409 => Some(BatchCommandType::AudioSetLooping),
            0x040A => Some(BatchCommandType::AudioGetState),
            0x040B => Some(BatchCommandType::AudioGetTime),
            0x040C => Some(BatchCommandType::AudioGetInfo),
            0x040D => Some(BatchCommandType::AudioGetVolume),
            0x040E => Some(BatchCommandType::AudioIsLooping),
            0x040F => Some(BatchCommandType::AudioUpdate),
            0x0500 => Some(BatchCommandType::AudioInputCreate),
            0x0501 => Some(BatchCommandType::AudioInputDestroy),
            0x0502 => Some(BatchCommandType::AudioInputRequestPermission),
            0x0503 => Some(BatchCommandType::AudioInputHasPermission),
            0x0504 => Some(BatchCommandType::AudioInputListDevices),
            0x0505 => Some(BatchCommandType::AudioInputOpen),
            0x0506 => Some(BatchCommandType::AudioInputStart),
            0x0507 => Some(BatchCommandType::AudioInputStop),
            0x0508 => Some(BatchCommandType::AudioInputClose),
            0x0509 => Some(BatchCommandType::AudioInputGetLevel),
            0x050A => Some(BatchCommandType::AudioInputGetState),
            0x0600 => Some(BatchCommandType::VideoCreate),
            0x0601 => Some(BatchCommandType::VideoDestroy),
            0x0602 => Some(BatchCommandType::VideoLoadURL),
            0x0603 => Some(BatchCommandType::VideoLoadFile),
            0x0604 => Some(BatchCommandType::VideoInitStream),
            0x0605 => Some(BatchCommandType::VideoPushFrame),
            0x0606 => Some(BatchCommandType::VideoPlay),
            0x0607 => Some(BatchCommandType::VideoPause),
            0x0608 => Some(BatchCommandType::VideoSeek),
            0x0609 => Some(BatchCommandType::VideoSetLooping),
            0x060A => Some(BatchCommandType::VideoSetMuted),
            0x060B => Some(BatchCommandType::VideoSetVolume),
            0x060C => Some(BatchCommandType::VideoGetState),
            0x060D => Some(BatchCommandType::VideoGetTime),
            0x060E => Some(BatchCommandType::VideoGetInfo),
            0x060F => Some(BatchCommandType::VideoUpdate),
            0x0610 => Some(BatchCommandType::VideoGetTextureID),
            0x0700 => Some(BatchCommandType::VideoInputCreate),
            0x0701 => Some(BatchCommandType::VideoInputDestroy),
            0x0702 => Some(BatchCommandType::VideoInputRequestPermission),
            0x0703 => Some(BatchCommandType::VideoInputHasPermission),
            0x0704 => Some(BatchCommandType::VideoInputListDevices),
            0x0705 => Some(BatchCommandType::VideoInputOpen),
            0x0706 => Some(BatchCommandType::VideoInputStart),
            0x0707 => Some(BatchCommandType::VideoInputStop),
            0x0708 => Some(BatchCommandType::VideoInputClose),
            0x0709 => Some(BatchCommandType::VideoInputGetState),
            0x070A => Some(BatchCommandType::VideoInputGetDimensions),
            0x070B => Some(BatchCommandType::VideoInputGetFrameTexture),
            0x0800 => Some(BatchCommandType::ClipboardGet),
            0x0801 => Some(BatchCommandType::ClipboardSet),
            0xFF00 => Some(BatchCommandType::RequestRedraw),
            0xFF01 => Some(BatchCommandType::RequestExit),
            _ => None,
        }
    }

    /// How the payload of this command type is laid out.
    pub fn shape(self) -> (r: PayloadShape)
        ensures
            r == command_shape(self),
    {
        match self {
            BatchCommandType::MeasureText => PayloadShape::Special,
            BatchCommandType::MeasureTextBatch => PayloadShape::Special,
            BatchCommandType::MeasureTextToCursor => PayloadShape::Unsupported,
            BatchCommandType::MeasureTextWithFont => PayloadShape::Unsupported,
            BatchCommandType::LoadImage => PayloadShape::Special,
            BatchCommandType::LoadImageFile => PayloadShape::Text,
            BatchCommandType::UnloadImage => PayloadShape::WithId,
            BatchCommandType::GetTextureSize => PayloadShape::WithId,
            BatchCommandType::RenderFrame => PayloadShape::Special,
            BatchCommandType::GetScaleFactor => PayloadShape::Plain,
            BatchCommandType::GetDarkMode => PayloadShape::Plain,
            BatchCommandType::AudioCreate => PayloadShape::Plain,
            BatchCommandType::AudioDestroy => PayloadShape::WithId,
            BatchCommandType::AudioLoadURL => PayloadShape::Source,
            BatchCommandType::AudioLoadFile => PayloadShape::Source,
            BatchCommandType::AudioPlay => PayloadShape::WithId,
            BatchCommandType::AudioPause => PayloadShape::WithId,
            BatchCommandType::AudioStop => PayloadShape::WithId,
            BatchCommandType::AudioSeek => PayloadShape::Seek,
            BatchCommandType::AudioSetVolume => PayloadShape::Volume,
            BatchCommandType::AudioSetLooping => PayloadShape::Flag,
            BatchCommandType::AudioGetState => PayloadShape::WithId,
            BatchCommandType::AudioGetTime => PayloadShape::WithId,
            BatchCommandType::AudioGetInfo => PayloadShape::WithId,
            BatchCommandType::AudioGetVolume => PayloadShape::WithId,
            BatchCommandType::AudioIsLooping => PayloadShape::WithId,
            BatchCommandType::AudioUpdate => PayloadShape::WithId,
            BatchCommandType::AudioInputCreate => PayloadShape::Plain,
            BatchCommandType::AudioInputDestroy => PayloadShape::WithId,
            BatchCommandType::AudioInputRequestPermission => PayloadShape::WithId,
            BatchCommandType::AudioInputHasPermission => PayloadShape::WithId,
            BatchCommandType::AudioInputListDevices => PayloadShape::WithId,
            BatchCommandType::AudioInputOpen => PayloadShape::Special,
            BatchCommandType::AudioInputStart => PayloadShape::WithId,
            BatchCommandType::AudioInputStop => PayloadShape::WithId,
            BatchCommandType::AudioInputClose => PayloadShape::WithId,
            BatchCommandType::AudioInputGetLevel => PayloadShape::WithId,
            BatchCommandType::AudioInputGetState => PayloadShape::WithId,
            BatchCommandType::VideoCreate => PayloadShape::Plain,
            BatchCommandType::VideoDestroy => PayloadShape::WithId,
            BatchCommandType::VideoLoadURL => PayloadShape::Source,
            BatchCommandType::VideoLoadFile => PayloadShape::Source,
            BatchCommandType::VideoInitStream => PayloadShape::Special,
            BatchCommandType::VideoPushFrame => PayloadShape::Special,
            BatchCommandType::VideoPlay => PayloadShape::WithId,
            BatchCommandType::VideoPause => PayloadShape::WithId,
            BatchCommandType::VideoSeek => PayloadShape::Seek,
            BatchCommandType::VideoSetLooping => PayloadShape::Flag,
            BatchCommandType::VideoSetMuted => PayloadShape::Flag,
            BatchCommandType::VideoSetVolume => PayloadShape::Volume,
            BatchCommandType::VideoGetState => PayloadShape::WithId,
            BatchCommandType::VideoGetTime => PayloadShape::WithId,
            BatchCommandType::VideoGetInfo => PayloadShape::WithId,
            BatchCommandType::VideoUpdate => PayloadShape::WithId,
            BatchCommandType::VideoGetTextureID => PayloadShape::WithId,
            BatchCommandType::VideoInputCreate => PayloadShape::Plain,
            BatchCommandType::VideoInputDestroy => PayloadShape::WithId,
            BatchCommandType::VideoInputRequestPermission => PayloadShape::WithId,
            BatchCommandType::VideoInputHasPermission => PayloadShape::WithId,
            BatchCommandType::VideoInputListDevices => PayloadShape::WithId,
            BatchCommandType::VideoInputOpen => PayloadShape::Special,
            BatchCommandType::VideoInputStart => PayloadShape::WithId,
            BatchCommandType::VideoInputStop => PayloadShape::WithId,
            BatchCommandType::VideoInputClose => PayloadShape::WithId,
            BatchCommandType::VideoInputGetState => PayloadShape::WithId,
            BatchCommandType::VideoInputGetDimensions => PayloadShape::WithId,
            BatchCommandType::VideoInputGetFrameTexture => PayloadShape::Special,
            BatchCommandType::ClipboardGet => PayloadShape::Plain,
            BatchCommandType::ClipboardSet => PayloadShape::Text,
            BatchCommandType::RequestRedraw => PayloadShape::Plain,
            BatchCommandType::RequestExit => PayloadShape::Plain,
        }
    }
}

/// Text measurement request: text, font family and `f32` size bits.
pub struct TextMeasureRequest {
    pub text: String,
    pub font: String,
    pub size_bits: u32,
}

pub struct TextMeasureView {
    pub text: Seq<char>,
    pub font: Seq<char>,
    pub size_bits: u32,
}

impl View for TextMeasureRequest {
    type V = TextMeasureView;

    open spec fn view(&self) -> TextMeasureView {
        TextMeasureView { text: self.text@, font: self.font@, size_bits: self.size_bits }
    }
}

pub open spec fn requests_view(rs: Seq<TextMeasureRequest>) -> Seq<TextMeasureView> {
    rs.map_values(|r: TextMeasureRequest| r@)
}

/// A decoded command, ready to be carried out.
pub enum BatchCommand {
    MeasureText(TextMeasureRequest),
    MeasureTextBatch(Vec<TextMeasureRequest>),
    Plain(BatchCommandType),
    WithId(BatchCommandType, u32),
    LoadImage(Vec<u8>),
    Text(BatchCommandType, String),
    Source(BatchCommandType, u32, String),
    Seek(BatchCommandType, u32, u64),
    Volume(BatchCommandType, u32, u32),
    Flag(BatchCommandType, u32, bool),
    AudioInputOpen { input_id: u32, device_id: Option<String>, sample_rate: u32, channels: u32 },
    VideoInitStream { player_id: u32, width: u32, height: u32 },
    VideoPushFrame { player_id: u32, width: u32, height: u32, timestamp_ms: u64, frame: Vec<u8> },
    VideoInputOpen { input_id: u32, device_id: Option<String>, width: u32, height: u32, fps: u32 },
    VideoInputGetFrameTexture { input_id: u32, existing_texture_id: u32 },
    RenderFrame(Vec<RenderOp>),
    /// Refused: answered with an Error response carrying these bytes.
    Invalid(Vec<u8>),
}

pub enum CommandView {
    MeasureText(TextMeasureView),
    MeasureTextBatch(Seq<TextMeasureView>),
    Plain(BatchCommandType),
    WithId(BatchCommandType, u32),
    LoadImage(Seq<u8>),
    Text(BatchCommandType, Seq<char>),
    Source(BatchCommandType, u32, Seq<char>),
    Seek(BatchCommandType, u32, u64),
    Volume(BatchCommandType, u32, u32),
    Flag(BatchCommandType, u32, bool),
    AudioInputOpen {
        input_id: u32,
        device_id: Option<Seq<char>>,
        sample_rate: u32,
        channels: u32,
    },
    VideoInitStream { player_id: u32, width: u32, height: u32 },
    VideoPushFrame { player_id: u32, width: u32, height: u32, timestamp_ms: u64, frame: Seq<u8> },
    VideoInputOpen {
        input_id: u32,
        device_id: Option<Seq<char>>,
        width: u32,
        height: u32,
        fps: u32,
    },
    VideoInputGetFrameTexture { input_id: u32, existing_texture_id: u32 },
    RenderFrame(Seq<RenderOpView>),
    Invalid(Seq<u8>),
}

pub open spec fn opt_text_view(t: Option<String>) -> Option<Seq<char>> {
    match t {
        Some(s) => Some(s@),
        None => None,
    }
}

impl View for BatchCommand {
    type V = CommandView;

    open spec fn view(&self) -> CommandView {
        match self {
            BatchCommand::MeasureText(r) => CommandView::MeasureText(r@),
            BatchCommand::MeasureTextBatch(rs) => CommandView::MeasureTextBatch(requests_view(rs@)),
            BatchCommand::Plain(k) => CommandView::Plain(*k),
            BatchCommand::WithId(k, id) => CommandView::WithId(*k, *id),
            BatchCommand::LoadImage(d) => CommandView::LoadImage(d@),
            BatchCommand::Text(k, t) => CommandView::Text(*k, t@),
            BatchCommand::Source(k, id, t) => CommandView::Source(*k, *id, t@),
            BatchCommand::Seek(k, id, ts) => CommandView::Seek(*k, *id, *ts),
            BatchCommand::Volume(k, id, v) => CommandView::Volume(*k, *id, *v),
            BatchCommand::Flag(k, id, f) => CommandView::Flag(*k, *id, *f),
            BatchCommand::AudioInputOpen { input_id, device_id, sample_rate, channels } =>
                CommandView::AudioInputOpen {
                input_id: *input_id,
                device_id: opt_text_view(*device_id),
                sample_rate: *sample_rate,
                channels: *channels,
            },
            BatchCommand::VideoInitStream { player_id, width, height } =>
                CommandView::VideoInitStream { player_id: *player_id, width: *width, height: *height },
            BatchCommand::VideoPushFrame { player_id, width, height, timestamp_ms, frame } =>
                CommandView::VideoPushFrame {
                player_id: *player_id,
                width: *width,
                height: *height,
                timestamp_ms: *timestamp_ms,
                frame: frame@,
            },
            BatchCommand::VideoInputOpen { input_id, device_id, width, height, fps } =>
                CommandView::VideoInputOpen {
                input_id: *input_id,
                device_id: opt_text_view(*device_id),
                width: *width,
                height: *height,
                fps: *fps,
            },
            BatchCommand::VideoInputGetFrameTexture { input_id, existing_texture_id } =>
                CommandView::VideoInputGetFrameTexture {
                input_id: *input_id,
                existing_texture_id: *existing_texture_id,
            },
            BatchCommand::RenderFrame(ops) => CommandView::RenderFrame(ops_view(ops@)),
            BatchCommand::Invalid(m) => CommandView::Invalid(m@),
        }
    }
}

/// A refused command with an empty Error payload.
pub open spec fn refused() -> CommandView {
    CommandView::Invalid(Seq::empty())
}

/// The text in `p[a..b]` when it is UTF-8 without NUL bytes (what a C
/// string can hold).
pub open spec fn c_text_in(p: Seq<u8>, a: int, b: int) -> Option<Seq<char>> {
    match text_in(p, a, b) {
        Some(t) => if p.subrange(a, b).contains(0u8) {
            None
        } else {
            Some(t)
        },
        None => None,
    }
}

/// `MeasureText`: text length, text, font length, font, `f32` size.
pub open spec fn spec_measure_text(p: Seq<u8>) -> CommandView {
    if p.len() < 4 {
        refused()
    } else {
        let tl = le32(p, 0);
        if 4 + tl + 4 > p.len() {
            refused()
        } else {
            match text_in(p, 4, 4 + tl) {
                None => refused(),
                Some(text) => {
                    let o = 4 + tl;
                    let fl = le32(p, o);
                    if o + 4 + fl + 4 > p.len() {
                        refused()
                    } else {
                        match text_in(p, o + 4, o + 4 + fl) {
                            None => refused(),
                            Some(font) => CommandView::MeasureText(
                                TextMeasureView { text, font, size_bits: f32_at(p, o + 4 + fl) },
                            ),
                        }
                    }
                },
            }
        }
    }
}

/// The `remaining` measurement requests of a `MeasureTextBatch` payload
/// from `off` on; `None` when one of them does not fit or is not UTF-8.
pub open spec fn spec_measure_items(p: Seq<u8>, off: int, remaining: nat) -> Option<
    Seq<TextMeasureView>,
>
    decreases remaining,
{
    if remaining == 0 {
        Some(Seq::empty())
    } else if off < 0 || off + 4 > p.len() {
        None
    } else {
        let tl = le32(p, off);
        let o1 = off + 4;
        if o1 + tl > p.len() {
            None
        } else {
            match text_in(p, o1, o1 + tl) {
                None => None,
                Some(text) => {
                    let o2 = o1 + tl;
                    if o2 + 4 > p.len() {
                        None
                    } else {
                        let fl = le32(p, o2);
                        let o3 = o2 + 4;
                        if o3 + fl > p.len() {
                            None
                        } else {
                            match text_in(p, o3, o3 + fl) {
                                None => None,
                                Some(font) => {
                                    let o4 = o3 + fl;
                                    if o4 + 4 > p.len() {
                                        None
                                    } else {
                                        match spec_measure_items(p, o4 + 4, (remaining - 1) as nat) {
                                            None => None,
                                            Some(rest) => Some(
                                                seq![
                                                    TextMeasureView {
                                                        text,
                                                        font,
                                                        size_bits: f32_at(p, o4),
                                                    },
                                                ] + rest,
                                            ),
                                        }
                                    }
                                },
                            }
                        }
                    }
                },
            }
        }
    }
}

/// `MeasureTextBatch`: a count, then that many `MeasureText` layouts.
pub open spec fn spec_measure_batch(p: Seq<u8>) -> CommandView {
    if p.len() < 4 {
        refused()
    } else {
        match spec_measure_items(p, 4, le32(p, 0) as nat) {
            None => refused(),
            Some(items) => CommandView::MeasureTextBatch(items),
        }
    }
}

/// An optional device name of `len` bytes at `p[8..]`: absent when empty;
/// `None` when it is not UTF-8; absent too when it holds a NUL byte.
pub open spec fn spec_device_name(p: Seq<u8>, len: int) -> Option<Option<Seq<char>>> {
    if len == 0 {
        Some(None)
    } else {
        match text_in(p, 8, 8 + len) {
            None => None,
            Some(t) => Some(c_text_in(p, 8, 8 + len)),
        }
    }
}

pub open spec fn spec_decode_special(k: BatchCommandType, p: Seq<u8>) -> CommandView {
    match k {
        BatchCommandType::MeasureText => spec_measure_text(p),
        BatchCommandType::MeasureTextBatch => spec_measure_batch(p),
        BatchCommandType::LoadImage => CommandView::LoadImage(p),
        BatchCommandType::AudioInputOpen => if p.len() < 16 {
            refused()
        } else {
            let dl = le32(p, 4);
            if 8 + dl + 8 > p.len() {
                refused()
            } else {
                match spec_device_name(p, dl) {
                    None => refused(),
                    Some(device_id) => CommandView::AudioInputOpen {
                        input_id: f32_at(p, 0),
                        device_id,
                        sample_rate: f32_at(p, 8 + dl),
                        channels: f32_at(p, 12 + dl),
                    },
                }
            }
        },
        BatchCommandType::VideoInitStream => if p.len() < 12 {
            refused()
        } else {
            CommandView::VideoInitStream {
                player_id: f32_at(p, 0),
                width: f32_at(p, 4),
                height: f32_at(p, 8),
            }
        },
        BatchCommandType::VideoPushFrame => if p.len() < 20 {
            refused()
        } else {
            CommandView::VideoPushFrame {
                player_id: f32_at(p, 0),
                width: f32_at(p, 4),
                height: f32_at(p, 8),
                timestamp_ms: le64(p, 12) as u64,
                frame: p.subrange(20, p.len() as int),
            }
        },
        BatchCommandType::VideoInputOpen => if p.len() < 20 {
            refused()
        } else {
            let dl = le32(p, 4);
            if 8 + dl + 12 > p.len() {
                refused()
            } else {
                match spec_device_name(p, dl) {
                    None => refused(),
                    Some(device_id) => CommandView::VideoInputOpen {
                        input_id: f32_at(p, 0),
                        device_id,
                        width: f32_at(p, 8 + dl),
                        height: f32_at(p, 12 + dl),
                        fps: f32_at(p, 16 + dl),
                    },
                }
            }
        },
        BatchCommandType::VideoInputGetFrameTexture => if p.len() < 8 {
            refused()
        } else {
            CommandView::VideoInputGetFrameTexture {
                input_id: f32_at(p, 0),
                existing_texture_id: f32_at(p, 4),
            }
        },
        BatchCommandType::RenderFrame => match spec_decode_render_frame(p) {
            Ok(ops) => CommandView::RenderFrame(ops),
            Err(e) => CommandView::Invalid(render_error_text(e)),
        },
        _ => refused(),
    }
}

/// The command of type `k` carried by payload `p`.
pub open spec fn spec_decode_kind(k: BatchCommandType, p: Seq<u8>) -> CommandView {
    match command_shape(k) {
        PayloadShape::Plain => CommandView::Plain(k),
        PayloadShape::WithId => if p.len() < 4 {
            refused()
        } else {
            CommandView::WithId(k, f32_at(p, 0))
        },
        PayloadShape::Text => if p.len() < 4 {
            refused()
        } else {
            let l = le32(p, 0);
            if 4 + l > p.len() {
                refused()
            } else {
                match text_in(p, 4, 4 + l) {
                    None => refused(),
                    Some(t) => CommandView::Text(k, t),
                }
            }
        },
        PayloadShape::Source => if p.len() < 8 {
            refused()
        } else {
            let l = le32(p, 4);
            if 8 + l > p.len() {
                refused()
            } else {
                match c_text_in(p, 8, 8 + l) {
                    None => refused(),
                    Some(t) => CommandView::Source(k, f32_at(p, 0), t),
                }
            }
        },
        PayloadShape::Seek => if p.len() < 12 {
            refused()
        } else {
            CommandView::Seek(k, f32_at(p, 0), le64(p, 4) as u64)
        },
        PayloadShape::Volume => if p.len() < 8 {
            refused()
        } else {
            CommandView::Volume(k, f32_at(p, 0), f32_at(p, 4))
        },
        PayloadShape::Flag => if p.len() < 5 {
            refused()
        } else {
            CommandView::Flag(k, f32_at(p, 0), p[4] != 0)
        },
        PayloadShape::Special => spec_decode_special(k, p),
        PayloadShape::Unsupported => refused(),
    }
}

/// The command that a frame with wire code `code` and payload `p` asks for.
pub open spec fn spec_decode_command(code: u16, p: Seq<u8>) -> CommandView {
    match command_type_of(code) {
        None => refused(),
        Some(k) => spec_decode_kind(k, p),
    }
}

fn refuse() -> (c: BatchCommand)
    ensures
        c@ == refused(),
{
    let c = BatchCommand::Invalid(Vec::new());
    assert(c@ =~= refused());
    c
}

/// Does `p[a..b]` hold a zero byte.
fn has_nul(p: &[u8], a: usize, b: usize) -> (r: bool)
    requires
        a <= b <= p@.len(),
    ensures
        r == p@.subrange(a as int, b as int).contains(0u8),
{
    let mut i = a;
    while i < b
        invariant
            a <= i <= b,
            b <= p@.len(),
            forall|j: int| a <= j < i ==> p@[j] != 0u8,
        decreases b - i,
    {
        if p[i] == 0 {
            assert(p@.subrange(a as int, b as int)[i - a] == 0u8);
            return true;
        }
        i = i + 1;
    }
    proof {
        if p@.subrange(a as int, b as int).contains(0u8) {
            let j = choose|j: int| 0 <= j < b - a && p@.subrange(a as int, b as int)[j] == 0u8;
            assert(p@[a + j] == 0u8);
        }
    }
    false
}

/// Reads UTF-8 text without NUL bytes from `p[a..b]`.
fn read_c_text(p: &[u8], a: usize, b: usize) -> (r: Option<String>)
    requires
        a <= b <= p@.len(),
    ensures
        opt_text_view(r) == c_text_in(p@, a as int, b as int),
{
    match read_text(p, a, b) {
        None => None,
        Some(t) => if has_nul(p, a, b) {
            None
        } else {
            Some(t)
        },
    }
}

fn decode_measure_text(p: &[u8]) -> (c: BatchCommand)
    ensures
        c@ == spec_measure_text(p@),
{
    let n = p.len();
    if n < 4 {
        return refuse();
    }
    let tl = read_u32(p, 0) as usize;
    if n < 8 || tl > n - 8 {
        return refuse();
    }
    let text = match read_text(p, 4, 4 + tl) {
        None => return refuse(),
        Some(t) => t,
    };
    let o = 4 + tl;
    let fl = read_u32(p, o) as usize;
    if n - o < 8 || fl > n - o - 8 {
        return refuse();
    }
    let font = match read_text(p, o + 4, o + 4 + fl) {
        None => return refuse(),
        Some(t) => t,
    };
    let size_bits = read_u32(p, o + 4 + fl);
    BatchCommand::MeasureText(TextMeasureRequest { text, font, size_bits })
}

/// Joins decoded requests with the outcome of decoding the rest.
pub open spec fn prepend_items(done: Seq<TextMeasureView>, rest: Option<Seq<TextMeasureView>>) -> Option<
    Seq<TextMeasureView>,
> {
    match rest {
        Some(r) => Some(done + r),
        None => None,
    }
}

fn decode_measure_batch(p: &[u8]) -> (c: BatchCommand)
    ensures
        c@ == spec_measure_batch(p@),
{
    let n = p.len();
    if n < 4 {
        return refuse();
    }
    let count = read_u32(p, 0);
    let mut off: usize = 4;
    let mut i: u32 = 0;
    let mut items: Vec<TextMeasureRequest> = Vec::new();
    while i < count
        invariant
            n == p@.len(),
            4 <= off <= n,
            i <= count,
            count == le32(p@, 0),
            spec_measure_items(p@, 4, count as nat) == prepend_items(
                requests_view(items@),
                spec_measure_items(p@, off as int, (count - i) as nat),
            ),
        decreases count - i,
    {
        if n - off < 4 {
            return refuse();
        }
        let tl = read_u32(p, off) as usize;
        let o1 = off + 4;
        if tl > n - o1 {
            return refuse();
        }
        let text = match read_text(p, o1, o1 + tl) {
            None => return refuse(),
            Some(t) => t,
        };
        let o2 = o1 + tl;
        if n - o2 < 4 {
            return refuse();
        }
        let fl = read_u32(p, o2) as usize;
        let o3 = o2 + 4;
        if fl > n - o3 {
            return refuse();
        }
        let font = match read_text(p, o3, o3 + fl) {
            None => return refuse(),
            Some(t) => t,
        };
        let o4 = o3 + fl;
        if n - o4 < 4 {
            return refuse();
        }
        let size_bits = read_u32(p, o4);
        let ghost before = requests_view(items@);
        let req = TextMeasureRequest { text, font, size_bits };
        let ghost rv = req@;
        items.push(req);
        proof {
            assert(requests_view(items@) =~= before.push(rv));
            let rest = spec_measure_items(p@, o4 + 4, (count - i - 1) as nat);
            match rest {
                Some(r) => {
                    assert(before + (seq![rv] + r) =~= before.push(rv) + r);
                },
                None => {},
            }
        }
        off = o4 + 4;
        i = i + 1;
    }
    assert(requests_view(items@) + Seq::<TextMeasureView>::empty() =~= requests_view(items@));
    BatchCommand::MeasureTextBatch(items)
}

pub open spec fn opt_opt_text_view(t: Option<Option<String>>) -> Option<Option<Seq<char>>> {
    match t {
        Some(d) => Some(opt_text_view(d)),
        None => None,
    }
}

fn decode_device_name(p: &[u8], len: usize) -> (r: Option<Option<String>>)
    requires
        8 + len <= p@.len(),
    ensures
        opt_opt_text_view(r) == spec_device_name(p@, len as int),
{
    let n = p.len();
    if len == 0 {
        return Some(None);
    }
    match read_text(p, 8, 8 + len) {
        None => None,
        Some(t) => if has_nul(p, 8, 8 + len) {
            Some(None)
        } else {
            Some(Some(t))
        },
    }
}

fn decode_special(k: BatchCommandType, p: &[u8]) -> (c: BatchCommand)
    requires
        command_shape(k) == PayloadShape::Special,
    ensures
        c@ == spec_decode_special(k, p@),
{
    let n = p.len();
    match k {
        BatchCommandType::MeasureText => decode_measure_text(p),
        BatchCommandType::MeasureTextBatch => decode_measure_batch(p),
        BatchCommandType::LoadImage => BatchCommand::LoadImage(vstd::slice::slice_to_vec(p)),
        BatchCommandType::AudioInputOpen => {
            if n < 16 {
                return refuse();
            }
            let dl = read_u32(p, 4) as usize;
            if dl > n - 16 {
                return refuse();
            }
            match decode_device_name(p, dl) {
                None => refuse(),
                Some(device_id) => BatchCommand::AudioInputOpen {
                    input_id: read_u32(p, 0),
                    device_id,
                    sample_rate: read_u32(p, 8 + dl),
                    channels: read_u32(p, 12 + dl),
                },
            }
        },
        BatchCommandType::VideoInitStream => {
            if n < 12 {
                return refuse();
            }
            BatchCommand::VideoInitStream {
                player_id: read_u32(p, 0),
                width: read_u32(p, 4),
                height: read_u32(p, 8),
            }
        },
        BatchCommandType::VideoPushFrame => {
            if n < 20 {
                return refuse();
            }
            BatchCommand::VideoPushFrame {
                player_id: read_u32(p, 0),
                width: read_u32(p, 4),
                height: read_u32(p, 8),
                timestamp_ms: read_u64(p, 12),
                frame: vstd::slice::slice_to_vec(&p[20..n]),
            }
        },
        BatchCommandType::VideoInputOpen => {
            if n < 20 {
                return refuse();
            }
            let dl = read_u32(p, 4) as usize;
            if dl > n - 20 {
                return refuse();
            }
            match decode_device_name(p, dl) {
                None => refuse(),
                Some(device_id) => BatchCommand::VideoInputOpen {
                    input_id: read_u32(p, 0),
                    device_id,
                    width: read_u32(p, 8 + dl),
                    height: read_u32(p, 12 + dl),
                    fps: read_u32(p, 16 + dl),
                },
            }
        },
        BatchCommandType::VideoInputGetFrameTexture => {
            if n < 8 {
                return refuse();
            }
            BatchCommand::VideoInputGetFrameTexture {
                input_id: read_u32(p, 0),
                existing_texture_id: read_u32(p, 4),
            }
        },
        BatchCommandType::RenderFrame => match decode_render_frame(p) {
            Ok(ops) => BatchCommand::RenderFrame(ops),
            Err(e) => BatchCommand::Invalid(e.message()),
        },
        _ => refuse(),
    }
}

/// Decodes the payload of a command of type `k`.
pub fn decode_kind(k: BatchCommandType, p: &[u8]) -> (c: BatchCommand)
    ensures
        c@ == spec_decode_kind(k, p@),
{
    let n = p.len();
    match k.shape() {
        PayloadShape::Plain => BatchCommand::Plain(k),
        PayloadShape::WithId => if n < 4 {
            refuse()
        } else {
            BatchCommand::WithId(k, read_u32(p, 0))
        },
        PayloadShape::Text => {
            if n < 4 {
                return refuse();
            }
            let l = read_u32(p, 0) as usize;
            if l > n - 4 {
                return refuse();
            }
            match read_text(p, 4, 4 + l) {
                None => refuse(),
                Some(t) => BatchCommand::Text(k, t),
            }
        },
        PayloadShape::Source => {
            if n < 8 {
                return refuse();
            }
            let l = read_u32(p, 4) as usize;
            if l > n - 8 {
                return refuse();
            }
            match read_c_text(p, 8, 8 + l) {
                None => refuse(),
                Some(t) => BatchCommand::Source(k, read_u32(p, 0), t),
            }
        },
        PayloadShape::Seek => if n < 12 {
            refuse()
        } else {
            BatchCommand::Seek(k, read_u32(p, 0), read_u64(p, 4))
        },
        PayloadShape::Volume => if n < 8 {
            refuse()
        } else {
            BatchCommand::Volume(k, read_u32(p, 0), read_u32(p, 4))
        },
        PayloadShape::Flag => if n < 5 {
            refuse()
        } else {
            BatchCommand::Flag(k, read_u32(p, 0), p[4] != 0)
        },
        PayloadShape::Special => decode_special(k, p),
        PayloadShape::Unsupported => refuse(),
    }
}

/// Decodes one command frame: wire code and payload.
pub fn decode_command(code: u16, payload: &[u8]) -> (c: BatchCommand)
    ensures
        c@ == spec_decode_command(code, payload@),
{
    match BatchCommandType::from_code(code) {
        None => refuse(),
        Some(k) => decode_kind(k, payload),
    }
}

/// The 32-bit fields of a run of written numbers read back, and its
/// length.
proof fn lemma_fields_read_back(pre: Seq<u8>, f: Seq<u32>, post: Seq<u8>)
    ensures
        (pre + u32s_bytes(f) + post).len() == pre.len() + 4 * f.len() + post.len(),
        forall|k: int|
            0 <= k < f.len() ==> le32(pre + u32s_bytes(f) + post, pre.len() + 4 * k) == #[trigger] f[k],
{
    lemma_u32s_bytes_len(f);
    assert forall|k: int| 0 <= k < f.len() implies le32(pre + u32s_bytes(f) + post, pre.len() + 4 * k)
        == #[trigger] f[k] by {
        lemma_le32_of_written_run(pre, f, post, k);
    }
}

/// The device name field as the host writes it: nothing for the default
/// device, else the UTF-8 bytes of the name.
pub open spec fn written_device(dev: Seq<u8>) -> Option<Seq<char>> {
    if dev.len() == 0 {
        None
    } else {
        Some(decode_utf8(dev))
    }
}

/// A device name the host can write: empty, or UTF-8 without NUL bytes.
pub open spec fn writable_device(dev: Seq<u8>) -> bool {
    dev.len() <= u32::MAX && (dev.len() == 0 || (valid_utf8(dev) && !dev.contains(0u8)))
}

/// The device name read back from the bytes that follow the id and the
/// name's length.
proof fn lemma_device_read_back(p: Seq<u8>, dev: Seq<u8>)
    requires
        writable_device(dev),
        p.len() >= 8 + dev.len(),
        p.subrange(8, 8 + dev.len() as int) == dev,
    ensures
        spec_device_name(p, dev.len() as int) == Some(written_device(dev)),
{
}

/// Opening a camera: the id, the device name and then width, height and
/// frame rate, in that order, read back as written.
#[verifier::spinoff_prover]
#[verifier::rlimit(40)]
pub proof fn lemma_video_input_open_read_back(id: u32, dev: Seq<u8>, f: Seq<u32>)
    requires
        writable_device(dev),
        f.len() == 3,
    ensures
        spec_decode_command(
            0x0705,
            u32s_bytes(seq![id, dev.len() as u32]) + dev + u32s_bytes(f),
        ) == (CommandView::VideoInputOpen {
            input_id: id,
            device_id: written_device(dev),
            width: f[0],
            height: f[1],
            fps: f[2],
        }),
{
    let head = u32s_bytes(seq![id, dev.len() as u32]);
    let p = head + dev + u32s_bytes(f);
    lemma_fields_read_back(Seq::<u8>::empty(), seq![id, dev.len() as u32], dev + u32s_bytes(f));
    assert(p =~= Seq::<u8>::empty() + head + (dev + u32s_bytes(f)));
    lemma_fields_read_back(head + dev, f, Seq::<u8>::empty());
    assert(p =~= head + dev + u32s_bytes(f) + Seq::<u8>::empty());
    assert(p.subrange(8, 8 + dev.len() as int) =~= dev);
    lemma_device_read_back(p, dev);
    assert(seq![id, dev.len() as u32][1] == dev.len() as u32);
    assert(le32(p, 4) == dev.len());
}

/// Opening a microphone: the id, the device name and then sample rate and
/// channel count, in that order, read back as written.
#[verifier::spinoff_prover]
#[verifier::rlimit(40)]
pub proof fn lemma_audio_input_open_read_back(id: u32, dev: Seq<u8>, f: Seq<u32>)
    requires
        writable_device(dev),
        f.len() == 2,
    ensures
        spec_decode_command(
            0x0505,
            u32s_bytes(seq![id, dev.len() as u32]) + dev + u32s_bytes(f),
        ) == (CommandView::AudioInputOpen {
            input_id: id,
            device_id: written_device(dev),
            sample_rate: f[0],
            channels: f[1],
        }),
{
    let head = u32s_bytes(seq![id, dev.len() as u32]);
    let p = head + dev + u32s_bytes(f);
    lemma_fields_read_back(Seq::<u8>::empty(), seq![id, dev.len() as u32], dev + u32s_bytes(f));
    assert(p =~= Seq::<u8>::empty() + head + (dev + u32s_bytes(f)));
    lemma_fields_read_back(head + dev, f, Seq::<u8>::empty());
    assert(p =~= head + dev + u32s_bytes(f) + Seq::<u8>::empty());
    assert(p.subrange(8, 8 + dev.len() as int) =~= dev);
    lemma_device_read_back(p, dev);
    assert(seq![id, dev.len() as u32][1] == dev.len() as u32);
    assert(le32(p, 4) == dev.len());
}

/// One written 32-bit number is the run of that one number.
proof fn lemma_one_field(x: u32)
    ensures
        u32s_bytes(seq![x]) == u32_bytes(x),
{
    let one = seq![x];
    assert(one.drop_last() =~= Seq::<u32>::empty());
    assert(one.last() == x);
    assert(u32s_bytes(one) == u32s_bytes(one.drop_last()) + u32_bytes(one.last()));
    assert(u32s_bytes(Seq::<u32>::empty()) == Seq::<u8>::empty());
    assert(u32s_bytes(one) =~= u32_bytes(x));
}

/// A command that carries an object id reads back the id written first.
pub proof fn lemma_id_read_back(k: BatchCommandType, id: u32, post: Seq<u8>)
    requires
        command_shape(k) == PayloadShape::WithId,
    ensures
        spec_decode_kind(k, u32_bytes(id) + post) == CommandView::WithId(k, id),
{
    lemma_one_field(id);
    lemma_fields_read_back(Seq::<u8>::empty(), seq![id], post);
    assert(u32_bytes(id) + post =~= Seq::<u8>::empty() + u32s_bytes(seq![id]) + post);
}

/// A volume command reads back the id, then the volume's bits.
pub proof fn lemma_volume_read_back(k: BatchCommandType, id: u32, volume_bits: u32, post: Seq<u8>)
    requires
        command_shape(k) == PayloadShape::Volume,
    ensures
        spec_decode_kind(k, u32s_bytes(seq![id, volume_bits]) + post) == CommandView::Volume(
            k,
            id,
            volume_bits,
        ),
{
    lemma_fields_read_back(Seq::<u8>::empty(), seq![id, volume_bits], post);
    assert(u32s_bytes(seq![id, volume_bits]) + post =~= Seq::<u8>::empty() + u32s_bytes(
        seq![id, volume_bits],
    ) + post);
}

/// A flag command reads back the id, then the flag byte (set when it is
/// not 0).
pub proof fn lemma_flag_read_back(k: BatchCommandType, id: u32, flag: u8, post: Seq<u8>)
    requires
        command_shape(k) == PayloadShape::Flag,
    ensures
        spec_decode_kind(k, u32_bytes(id) + seq![flag] + post) == CommandView::Flag(k, id, flag != 0),
{
    lemma_one_field(id);
    lemma_fields_read_back(Seq::<u8>::empty(), seq![id], seq![flag] + post);
    let p = u32_bytes(id) + seq![flag] + post;
    assert(p =~= Seq::<u8>::empty() + u32s_bytes(seq![id]) + (seq![flag] + post));
    assert(p[4] == flag);
}

/// A seek reads back the id, then the 64-bit position in milliseconds.
pub proof fn lemma_seek_read_back(k: BatchCommandType, id: u32, ms: u64, post: Seq<u8>)
    requires
        command_shape(k) == PayloadShape::Seek,
    ensures
        spec_decode_kind(k, u32_bytes(id) + u64_bytes(ms) + post) == CommandView::Seek(k, id, ms),
{
    let p = u32_bytes(id) + u64_bytes(ms) + post;
    lemma_one_field(id);
    lemma_fields_read_back(Seq::<u8>::empty(), seq![id], u64_bytes(ms) + post);
    assert(p =~= Seq::<u8>::empty() + u32s_bytes(seq![id]) + (u64_bytes(ms) + post));
    lemma_le64_of_written(u32_bytes(id), ms, post);
}

/// A path or URL command reads back the id, then the UTF-8 text of the
/// written length.
pub proof fn lemma_source_read_back(k: BatchCommandType, id: u32, path: Seq<u8>)
    requires
        command_shape(k) == PayloadShape::Source,
        path.len() <= u32::MAX,
        valid_utf8(path),
        !path.contains(0u8),
    ensures
        spec_decode_kind(k, u32s_bytes(seq![id, path.len() as u32]) + path) == CommandView::Source(
            k,
            id,
            decode_utf8(path),
        ),
{
    let head = u32s_bytes(seq![id, path.len() as u32]);
    let p = head + path;
    lemma_fields_read_back(Seq::<u8>::empty(), seq![id, path.len() as u32], path);
    assert(p =~= Seq::<u8>::empty() + head + path);
    assert(p.subrange(8, 8 + path.len() as int) =~= path);
    assert(seq![id, path.len() as u32][1] == path.len() as u32);
    assert(le32(p, 4) == path.len());
}

/// A text command reads back the UTF-8 text of the written length.
pub proof fn lemma_text_read_back(k: BatchCommandType, text: Seq<u8>)
    requires
        command_shape(k) == PayloadShape::Text,
        text.len() <= u32::MAX,
        valid_utf8(text),
    ensures
        spec_decode_kind(k, u32_bytes(text.len() as u32) + text) == CommandView::Text(
            k,
            decode_utf8(text),
        ),
{
    let p = u32_bytes(text.len() as u32) + text;
    lemma_one_field(text.len() as u32);
    lemma_fields_read_back(Seq::<u8>::empty(), seq![text.len() as u32], text);
    assert(p =~= Seq::<u8>::empty() + u32s_bytes(seq![text.len() as u32]) + text);
    assert(p.subrange(4, 4 + text.len() as int) =~= text);
    assert(seq![text.len() as u32][0] == text.len() as u32);
}

/// Starting a video stream reads back the player id, width and height in
/// that order.
pub proof fn lemma_video_init_stream_read_back(f: Seq<u32>, post: Seq<u8>)
    requires
        f.len() == 3,
    ensures
        spec_decode_command(0x0604, u32s_bytes(f) + post) == (CommandView::VideoInitStream {
            player_id: f[0],
            width: f[1],
            height: f[2],
        }),
{
    lemma_fields_read_back(Seq::<u8>::empty(), f, post);
    assert(u32s_bytes(f) + post =~= Seq::<u8>::empty() + u32s_bytes(f) + post);
}

/// A pushed video frame reads back the player id, width and height, the
/// 64-bit timestamp, then every remaining byte as the frame.
pub proof fn lemma_video_push_frame_read_back(f: Seq<u32>, ms: u64, frame: Seq<u8>)
    requires
        f.len() == 3,
    ensures
        spec_decode_command(0x0605, u32s_bytes(f) + u64_bytes(ms) + frame)
            == (CommandView::VideoPushFrame {
            player_id: f[0],
            width: f[1],
            height: f[2],
            timestamp_ms: ms,
            frame,
        }),
{
    let p = u32s_bytes(f) + u64_bytes(ms) + frame;
    lemma_fields_read_back(Seq::<u8>::empty(), f, u64_bytes(ms) + frame);
    assert(p =~= Seq::<u8>::empty() + u32s_bytes(f) + (u64_bytes(ms) + frame));
    lemma_le64_of_written(u32s_bytes(f), ms, frame);
    assert(p.subrange(20, p.len() as int) =~= frame);
}

/// Fetching a camera frame's texture reads back the camera id, then the
/// texture to reuse.
pub proof fn lemma_frame_texture_read_back(f: Seq<u32>, post: Seq<u8>)
    requires
        f.len() == 2,
    ensures
        spec_decode_command(0x070B, u32s_bytes(f) + post) == (CommandView::VideoInputGetFrameTexture {
            input_id: f[0],
            existing_texture_id: f[1],
        }),
{
    lemma_fields_read_back(Seq::<u8>::empty(), f, post);
    assert(u32s_bytes(f) + post =~= Seq::<u8>::empty() + u32s_bytes(f) + post);
}

/// The fields of a text measurement request read back from its bytes.
proof fn lemma_measure_fields(text: Seq<u8>, font: Seq<u8>, size_bits: u32)
    requires
        text.len() <= u32::MAX,
        font.len() <= u32::MAX,
    ensures
        ({
            let p = u32_bytes(text.len() as u32) + text + u32_bytes(font.len() as u32) + font
                + u32_bytes(size_bits);
            &&& p.len() == 12 + text.len() + font.len()
            &&& le32(p, 0) == text.len()
            &&& p.subrange(4, 4 + text.len() as int) == text
            &&& le32(p, 4 + text.len() as int) == font.len()
            &&& p.subrange(8 + text.len() as int, 8 + text.len() + font.len() as int) == font
            &&& le32(p, 8 + text.len() + font.len() as int) == size_bits
        }),
{
    let a = u32_bytes(text.len() as u32);
    let b = u32_bytes(font.len() as u32);
    let c = u32_bytes(size_bits);
    let p = a + text + b + font + c;
    let tl = text.len() as int;
    let fl = font.len() as int;
    lemma_le32_of_written(Seq::<u8>::empty(), text.len() as u32, text + b + font + c);
    assert(p =~= Seq::<u8>::empty() + a + (text + b + font + c));
    lemma_le32_of_written(a + text, font.len() as u32, font + c);
    assert(p =~= a + text + b + (font + c));
    lemma_le32_of_written(a + text + b + font, size_bits, Seq::<u8>::empty());
    assert(p =~= a + text + b + font + c + Seq::<u8>::empty());
    assert(p.subrange(4, 4 + tl) =~= text);
    assert(p.subrange(8 + tl, 8 + tl + fl) =~= font);
}

/// A text measurement request reads back as written: the text after its
/// length, the font family after its length, then the size.
#[verifier::spinoff_prover]
pub proof fn lemma_measure_text_read_back(text: Seq<u8>, font: Seq<u8>, size_bits: u32)
    requires
        text.len() <= u32::MAX,
        font.len() <= u32::MAX,
        valid_utf8(text),
        valid_utf8(font),
    ensures
        spec_decode_command(
            0x0000,
            u32_bytes(text.len() as u32) + text + u32_bytes(font.len() as u32) + font + u32_bytes(
                size_bits,
            ),
        ) == CommandView::MeasureText(
            TextMeasureView { text: decode_utf8(text), font: decode_utf8(font), size_bits },
        ),
{
    lemma_measure_fields(text, font, size_bits);
}

/// Reads a 32-bit number found written at `o`.
proof fn lemma_number_at(p: Seq<u8>, o: int, x: u32)
    requires
        0 <= o,
        p.len() >= o + 4,
        p.subrange(o, o + 4) == u32_bytes(x),
    ensures
        le32(p, o) == x,
{
    assert(p.subrange(o, o + 4)[0] == p[o] && p.subrange(o, o + 4)[1] == p[o + 1]);
    assert(p.subrange(o, o + 4)[2] == p[o + 2] && p.subrange(o, o + 4)[3] == p[o + 3]);
    lemma_u32_bytes_roundtrip(x);
}

/// In a batch of text measurements, a request written at `o` (text after
/// its length, font family after its length, then the size) is read back
/// as the next request, and the requests written after it follow it in
/// order.
pub proof fn lemma_measure_items_step(
    p: Seq<u8>,
    o: int,
    text: Seq<u8>,
    font: Seq<u8>,
    size_bits: u32,
    rest: nat,
)
    requires
        0 <= o,
        text.len() <= u32::MAX,
        font.len() <= u32::MAX,
        valid_utf8(text),
        valid_utf8(font),
        p.len() >= o + 12 + text.len() + font.len(),
        p.subrange(o, o + 4) == u32_bytes(text.len() as u32),
        p.subrange(o + 4, o + 4 + text.len()) == text,
        p.subrange(o + 4 + text.len(), o + 8 + text.len()) == u32_bytes(font.len() as u32),
        p.subrange(o + 8 + text.len(), o + 8 + text.len() + font.len()) == font,
        p.subrange(o + 8 + text.len() + font.len(), o + 12 + text.len() + font.len()) == u32_bytes(
            size_bits,
        ),
    ensures
        spec_measure_items(p, o, rest + 1) == match spec_measure_items(
            p,
            o + 12 + text.len() + font.len(),
            rest,
        ) {
            Some(later) => Some(
                seq![TextMeasureView { text: decode_utf8(text), font: decode_utf8(font), size_bits }]
                    + later,
            ),
            None => None::<Seq<TextMeasureView>>,
        },
{
    lemma_number_at(p, o, text.len() as u32);
    lemma_number_at(p, o + 4 + text.len(), font.len() as u32);
    lemma_number_at(p, o + 8 + text.len() + font.len(), size_bits);
    assert((rest + 1 - 1) as nat == rest);
}

/// A batch of text measurements announcing one request holds exactly that
/// request, read back as written.
pub proof fn lemma_measure_batch_of_one(p: Seq<u8>, text: Seq<u8>, font: Seq<u8>, size_bits: u32)
    requires
        text.len() <= u32::MAX,
        font.len() <= u32::MAX,
        valid_utf8(text),
        valid_utf8(font),
        p.len() >= 16 + text.len() + font.len(),
        p.subrange(0, 4) == u32_bytes(1),
        p.subrange(4, 8) == u32_bytes(text.len() as u32),
        p.subrange(8, 8 + text.len() as int) == text,
        p.subrange(8 + text.len() as int, 12 + text.len() as int) == u32_bytes(font.len() as u32),
        p.subrange(12 + text.len() as int, 12 + text.len() + font.len() as int) == font,
        p.subrange(12 + text.len() + font.len() as int, 16 + text.len() + font.len() as int)
            == u32_bytes(
            size_bits,
        ),
    ensures
        spec_decode_command(0x0001, p) == CommandView::MeasureTextBatch(
            seq![TextMeasureView { text: decode_utf8(text), font: decode_utf8(font), size_bits }],
        ),
{
    lemma_number_at(p, 0, 1);
    lemma_measure_items_step(p, 4, text, font, size_bits, 0);
    assert(seq![TextMeasureView { text: decode_utf8(text), font: decode_utf8(font), size_bits }]
        + Seq::<TextMeasureView>::empty() =~= seq![
        TextMeasureView { text: decode_utf8(text), font: decode_utf8(font), size_bits },
    ]);
}

} // verus!
