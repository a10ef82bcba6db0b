//! Translation of window-system input into the application events sent to
//! the host application: event types, stable key numbers, modifier flags,
//! mouse button numbers, and the event sequences for touches and keys.

use vstd::prelude::*;
use vstd::string::*;

verus! {

/// Event type sent to the host application.
#[derive(Clone, Copy, Debug, PartialEq, Eq, Structural)]
pub enum AppEventType {
    /// Window ready for first render
    Ready,
    /// Window needs redraw
    RedrawRequested,
    /// Window resized (data: width, height in physical pixels)
    Resized,
    /// Window close requested
    CloseRequested,
    /// Mouse moved (data: x, y in logical pixels)
    MouseMoved,
    /// Mouse button pressed (data: button index)
    MousePressed,
    /// Mouse button released (data: button index)
    MouseReleased,
    /// Key pressed (data: keycode)
    KeyPressed,
    /// Key released (data: keycode)
    KeyReleased,
    /// Character input (data: UTF-32 codepoint)
    CharInput,
    /// Mouse wheel scrolled (data: delta_x, delta_y)
    MouseWheel,
    /// App suspended (iOS backgrounded)
    Suspended,
    /// App resumed (iOS foregrounded)
    Resumed,
    /// Keyboard frame changed (data1: height, data2: animation duration)
    KeyboardFrameChanged,
}

/// The byte that stands for each event type on the FFI boundary.
pub open spec fn app_event_code(t: AppEventType) -> u8 {
    match t {
        AppEventType::Ready => 0,
        AppEventType::RedrawRequested => 1,
        AppEventType::Resized => 2,
        AppEventType::CloseRequested => 3,
        AppEventType::MouseMoved => 4,
        AppEventType::MousePressed => 5,
        AppEventType::MouseReleased => 6,
        AppEventType::KeyPressed => 7,
        AppEventType::KeyReleased => 8,
        AppEventType::CharInput => 9,
        AppEventType::MouseWheel => 10,
        AppEventType::Suspended => 11,
        AppEventType::Resumed => 12,
        AppEventType::KeyboardFrameChanged => 13,
    }
}

impl AppEventType {
    /// The FFI byte of this event type.
    pub fn code(self) -> (r: u8)
        ensures
            r == app_event_code(self),
    {
        match self {
            AppEventType::Ready => 0,
            AppEventType::RedrawRequested => 1,
            AppEventType::Resized => 2,
            AppEventType::CloseRequested => 3,
            AppEventType::MouseMoved => 4,
            AppEventType::MousePressed => 5,
            AppEventType::MouseReleased => 6,
            AppEventType::KeyPressed => 7,
            AppEventType::KeyReleased => 8,
            AppEventType::CharInput => 9,
            AppEventType::MouseWheel => 10,
            AppEventType::Suspended => 11,
            AppEventType::Resumed => 12,
            AppEventType::KeyboardFrameChanged => 13,
        }
    }
}

/// Physical key, by its position on a US keyboard.
#[derive(Clone, Copy, Debug, PartialEq, Eq, Structural)]
pub enum KeyCode {
    KeyA,
    KeyB,
    KeyC,
    KeyD,
    KeyE,
    KeyF,
    KeyG,
    KeyH,
    KeyI,
    KeyJ,
    KeyK,
    KeyL,
    KeyM,
    KeyN,
    KeyO,
    KeyP,
    KeyQ,
    KeyR,
    KeyS,
    KeyT,
    KeyU,
    KeyV,
    KeyW,
    KeyX,
    KeyY,
    KeyZ,
    Digit0,
    Digit1,
    Digit2,
    Digit3,
    Digit4,
    Digit5,
    Digit6,
    Digit7,
    Digit8,
    Digit9,
    F1,
    F2,
    F3,
    F4,
    F5,
    F6,
    F7,
    F8,
    F9,
    F10,
    F11,
    F12,
    ArrowUp,
    ArrowDown,
    ArrowLeft,
    ArrowRight,
    Home,
    End,
    PageUp,
    PageDown,
    Backspace,
    Delete,
    Insert,
    Enter,
    Tab,
    Escape,
    Space,
    Minus,
    Equal,
    BracketLeft,
    BracketRight,
    Backslash,
    Semicolon,
    Quote,
    Backquote,
    Comma,
    Period,
    Slash,
    Numpad0,
    Numpad1,
    Numpad2,
    Numpad3,
    Numpad4,
    Numpad5,
    Numpad6,
    Numpad7,
    Numpad8,
    Numpad9,
    NumpadAdd,
    NumpadSubtract,
    NumpadMultiply,
    NumpadDivide,
    NumpadDecimal,
    NumpadEnter,
    ShiftLeft,
    ShiftRight,
    ControlLeft,
    ControlRight,
    AltLeft,
    AltRight,
    SuperLeft,
    SuperRight,
    CapsLock,
    NumLock,
    ScrollLock,
    PrintScreen,
    Pause,
    ContextMenu,
    /// Any key without a stable number.
    Unidentified,
}

/// The stable, cross-platform number of each key (999 for keys without
/// one).
pub open spec fn key_number(k: KeyCode) -> u32 {
    match k {
        KeyCode::KeyA => 0,
        KeyCode::KeyB => 1,
        KeyCode::KeyC => 2,
        KeyCode::KeyD => 3,
        KeyCode::KeyE => 4,
        KeyCode::KeyF => 5,
        KeyCode::KeyG => 6,
        KeyCode::KeyH => 7,
        KeyCode::KeyI => 8,
        KeyCode::KeyJ => 9,
        KeyCode::KeyK => 10,
        KeyCode::KeyL => 11,
        KeyCode::KeyM => 12,
        KeyCode::KeyN => 13,
        KeyCode::KeyO => 14,
        KeyCode::KeyP => 15,
        KeyCode::KeyQ => 16,
        KeyCode::KeyR => 17,
        KeyCode::KeyS => 18,
        KeyCode::KeyT => 19,
        KeyCode::KeyU => 20,
        KeyCode::KeyV => 21,
        KeyCode::KeyW => 22,
        KeyCode::KeyX => 23,
        KeyCode::KeyY => 24,
        KeyCode::KeyZ => 25,
        KeyCode::Digit0 => 26,
        KeyCode::Digit1 => 27,
        KeyCode::Digit2 => 28,
        KeyCode::Digit3 => 29,
        KeyCode::Digit4 => 30,
        KeyCode::Digit5 => 31,
        KeyCode::Digit6 => 32,
        KeyCode::Digit7 => 33,
        KeyCode::Digit8 => 34,
        KeyCode::Digit9 => 35,
        KeyCode::F1 => 36,
        KeyCode::F2 => 37,
        KeyCode::F3 => 38,
        KeyCode::F4 => 39,
        KeyCode::F5 => 40,
        KeyCode::F6 => 41,
        KeyCode::F7 => 42,
        KeyCode::F8 => 43,
        KeyCode::F9 => 44,
        KeyCode::F10 => 45,
        KeyCode::F11 => 46,
        KeyCode::F12 => 47,
        KeyCode::ArrowUp => 48,
        KeyCode::ArrowDown => 49,
        KeyCode::ArrowLeft => 50,
        KeyCode::ArrowRight => 51,
        KeyCode::Home => 52,
        KeyCode::End => 53,
        KeyCode::PageUp => 54,
        KeyCode::PageDown => 55,
        KeyCode::Backspace => 56,
        KeyCode::Delete => 57,
        KeyCode::Insert => 58,
        KeyCode::Enter => 59,
        KeyCode::Tab => 60,
        KeyCode::Escape => 61,
        KeyCode::Space => 62,
        KeyCode::Minus => 63,
        KeyCode::Equal => 64,
        KeyCode::BracketLeft => 65,
        KeyCode::BracketRight => 66,
        KeyCode::Backslash => 67,
        KeyCode::Semicolon => 68,
        KeyCode::Quote => 69,
        KeyCode::Backquote => 70,
        KeyCode::Comma => 71,
        KeyCode::Period => 72,
        KeyCode::Slash => 73,
        KeyCode::Numpad0 => 100,
        KeyCode::Numpad1 => 101,
        KeyCode::Numpad2 => 102,
        KeyCode::Numpad3 => 103,
        KeyCode::Numpad4 => 104,
        KeyCode::Numpad5 => 105,
        KeyCode::Numpad6 => 106,
        KeyCode::Numpad7 => 107,
        KeyCode::Numpad8 => 108,
        KeyCode::Numpad9 => 109,
        KeyCode::NumpadAdd => 110,
        KeyCode::NumpadSubtract => 111,
        KeyCode::NumpadMultiply => 112,
        KeyCode::NumpadDivide => 113,
        KeyCode::NumpadDecimal => 114,
        KeyCode::NumpadEnter => 115,
        KeyCode::ShiftLeft => 200,
        KeyCode::ShiftRight => 201,
        KeyCode::ControlLeft => 202,
        KeyCode::ControlRight => 203,
        KeyCode::AltLeft => 204,
        KeyCode::AltRight => 205,
        KeyCode::SuperLeft => 206,
        KeyCode::SuperRight => 207,
        KeyCode::CapsLock => 300,
        KeyCode::NumLock => 301,
        KeyCode::ScrollLock => 302,
        KeyCode::PrintScreen => 303,
        KeyCode::Pause => 304,
        KeyCode::ContextMenu => 305,
        KeyCode::Unidentified => 999,
    }
}

/// The key with a given stable number.
pub open spec fn key_of_number(n: u32) -> KeyCode {
    match n {
        0 => KeyCode::KeyA,
        1 => KeyCode::KeyB,
        2 => KeyCode::KeyC,
        3 => KeyCode::KeyD,
        4 => KeyCode::KeyE,
        5 => KeyCode::KeyF,
        6 => KeyCode::KeyG,
        7 => KeyCode::KeyH,
        8 => KeyCode::KeyI,
        9 => KeyCode::KeyJ,
        10 => KeyCode::KeyK,
        11 => KeyCode::KeyL,
        12 => KeyCode::KeyM,
        13 => KeyCode::KeyN,
        14 => KeyCode::KeyO,
        15 => KeyCode::KeyP,
        16 => KeyCode::KeyQ,
        17 => KeyCode::KeyR,
        18 => KeyCode::KeyS,
        19 => KeyCode::KeyT,
        20 => KeyCode::KeyU,
        21 => KeyCode::KeyV,
        22 => KeyCode::KeyW,
        23 => KeyCode::KeyX,
        24 => KeyCode::KeyY,
        25 => KeyCode::KeyZ,
        26 => KeyCode::Digit0,
        27 => KeyCode::Digit1,
        28 => KeyCode::Digit2,
        29 => KeyCode::Digit3,
        30 => KeyCode::Digit4,
        31 => KeyCode::Digit5,
        32 => KeyCode::Digit6,
        33 => KeyCode::Digit7,
        34 => KeyCode::Digit8,
        35 => KeyCode::Digit9,
        36 => KeyCode::F1,
        37 => KeyCode::F2,
        38 => KeyCode::F3,
        39 => KeyCode::F4,
        40 => KeyCode::F5,
        41 => KeyCode::F6,
        42 => KeyCode::F7,
        43 => KeyCode::F8,
        44 => KeyCode::F9,
        45 => KeyCode::F10,
        46 => KeyCode::F11,
        47 => KeyCode::F12,
        48 => KeyCode::ArrowUp,
        49 => KeyCode::ArrowDown,
        50 => KeyCode::ArrowLeft,
        51 => KeyCode::ArrowRight,
        52 => KeyCode::Home,
        53 => KeyCode::End,
        54 => KeyCode::PageUp,
        55 => KeyCode::PageDown,
        56 => KeyCode::Backspace,
        57 => KeyCode::Delete,
        58 => KeyCode::Insert,
        59 => KeyCode::Enter,
        60 => KeyCode::Tab,
        61 => KeyCode::Escape,
        62 => KeyCode::Space,
        63 => KeyCode::Minus,
        64 => KeyCode::Equal,
        65 => KeyCode::BracketLeft,
        66 => KeyCode::BracketRight,
        67 => KeyCode::Backslash,
        68 => KeyCode::Semicolon,
        69 => KeyCode::Quote,
        70 => KeyCode::Backquote,
        71 => KeyCode::Comma,
        72 => KeyCode::Period,
        73 => KeyCode::Slash,
        100 => KeyCode::Numpad0,
        101 => KeyCode::Numpad1,
        102 => KeyCode::Numpad2,
        103 => KeyCode::Numpad3,
        104 => KeyCode::Numpad4,
        105 => KeyCode::Numpad5,
        106 => KeyCode::Numpad6,
        107 => KeyCode::Numpad7,
        108 => KeyCode::Numpad8,
        109 => KeyCode::Numpad9,
        110 => KeyCode::NumpadAdd,
        111 => KeyCode::NumpadSubtract,
        112 => KeyCode::NumpadMultiply,
        113 => KeyCode::NumpadDivide,
        114 => KeyCode::NumpadDecimal,
        115 => KeyCode::NumpadEnter,
        200 => KeyCode::ShiftLeft,
        201 => KeyCode::ShiftRight,
        202 => KeyCode::ControlLeft,
        203 => KeyCode::ControlRight,
        204 => KeyCode::AltLeft,
        205 => KeyCode::AltRight,
        206 => KeyCode::SuperLeft,
        207 => KeyCode::SuperRight,
        300 => KeyCode::CapsLock,
        301 => KeyCode::NumLock,
        302 => KeyCode::ScrollLock,
        303 => KeyCode::PrintScreen,
        304 => KeyCode::Pause,
        305 => KeyCode::ContextMenu,
        _ => KeyCode::Unidentified,
    }
}

/// The stable number of a key (999 for keys without one).
pub fn keycode_to_u32(key: KeyCode) -> (r: u32)
    ensures
        r == key_number(key),
{
    match key {
        KeyCode::KeyA => 0,
        KeyCode::KeyB => 1,
        KeyCode::KeyC => 2,
        KeyCode::KeyD => 3,
        KeyCode::KeyE => 4,
        KeyCode::KeyF => 5,
        KeyCode::KeyG => 6,
        KeyCode::KeyH => 7,
        KeyCode::KeyI => 8,
        KeyCode::KeyJ => 9,
        KeyCode::KeyK => 10,
        KeyCode::KeyL => 11,
        KeyCode::KeyM => 12,
        KeyCode::KeyN => 13,
        KeyCode::KeyO => 14,
        KeyCode::KeyP => 15,
        KeyCode::KeyQ => 16,
        KeyCode::KeyR => 17,
        KeyCode::KeyS => 18,
        KeyCode::KeyT => 19,
        KeyCode::KeyU => 20,
        KeyCode::KeyV => 21,
        KeyCode::KeyW => 22,
        KeyCode::KeyX => 23,
        KeyCode::KeyY => 24,
        KeyCode::KeyZ => 25,
        KeyCode::Digit0 => 26,
        KeyCode::Digit1 => 27,
        KeyCode::Digit2 => 28,
        KeyCode::Digit3 => 29,
        KeyCode::Digit4 => 30,
        KeyCode::Digit5 => 31,
        KeyCode::Digit6 => 32,
        KeyCode::Digit7 => 33,
        KeyCode::Digit8 => 34,
        KeyCode::Digit9 => 35,
        KeyCode::F1 => 36,
        KeyCode::F2 => 37,
        KeyCode::F3 => 38,
        KeyCode::F4 => 39,
        KeyCode::F5 => 40,
        KeyCode::F6 => 41,
        KeyCode::F7 => 42,
        KeyCode::F8 => 43,
        KeyCode::F9 => 44,
        KeyCode::F10 => 45,
        KeyCode::F11 => 46,
        KeyCode::F12 => 47,
        KeyCode::ArrowUp => 48,
        KeyCode::ArrowDown => 49,
        KeyCode::ArrowLeft => 50,
        KeyCode::ArrowRight => 51,
        KeyCode::Home => 52,
        KeyCode::End => 53,
        KeyCode::PageUp => 54,
        KeyCode::PageDown => 55,
        KeyCode::Backspace => 56,
        KeyCode::Delete => 57,
        KeyCode::Insert => 58,
        KeyCode::Enter => 59,
        KeyCode::Tab => 60,
        KeyCode::Escape => 61,
        KeyCode::Space => 62,
        KeyCode::Minus => 63,
        KeyCode::Equal => 64,
        KeyCode::BracketLeft => 65,
        KeyCode::BracketRight => 66,
        KeyCode::Backslash => 67,
        KeyCode::Semicolon => 68,
        KeyCode::Quote => 69,
        KeyCode::Backquote => 70,
        KeyCode::Comma => 71,
        KeyCode::Period => 72,
        KeyCode::Slash => 73,
        KeyCode::Numpad0 => 100,
        KeyCode::Numpad1 => 101,
        KeyCode::Numpad2 => 102,
        KeyCode::Numpad3 => 103,
        KeyCode::Numpad4 => 104,
        KeyCode::Numpad5 => 105,
        KeyCode::Numpad6 => 106,
        KeyCode::Numpad7 => 107,
        KeyCode::Numpad8 => 108,
        KeyCode::Numpad9 => 109,
        KeyCode::NumpadAdd => 110,
        KeyCode::NumpadSubtract => 111,
        KeyCode::NumpadMultiply => 112,
        KeyCode::NumpadDivide => 113,
        KeyCode::NumpadDecimal => 114,
        KeyCode::NumpadEnter => 115,
        KeyCode::ShiftLeft => 200,
        KeyCode::ShiftRight => 201,
        KeyCode::ControlLeft => 202,
        KeyCode::ControlRight => 203,
        KeyCode::AltLeft => 204,
        KeyCode::AltRight => 205,
        KeyCode::SuperLeft => 206,
        KeyCode::SuperRight => 207,
        KeyCode::CapsLock => 300,
        KeyCode::NumLock => 301,
        KeyCode::ScrollLock => 302,
        KeyCode::PrintScreen => 303,
        KeyCode::Pause => 304,
        KeyCode::ContextMenu => 305,
        KeyCode::Unidentified => 999,
    }
}

/// Each key's number identifies the key: no two keys share a number, and
/// no identified key uses 999.
pub proof fn lemma_key_numbers_identify_keys(k: KeyCode)
    ensures
        key_of_number(key_number(k)) == k,
        k != KeyCode::Unidentified ==> key_number(k) != 999,
{
}

/// Shift modifier flag.
pub const MOD_SHIFT: u32 = 1;

/// Control modifier flag.
pub const MOD_CTRL: u32 = 2;

/// Alt modifier flag.
pub const MOD_ALT: u32 = 4;

/// Super modifier flag (Cmd on macOS, Win on Windows).
pub const MOD_SUPER: u32 = 8;

/// The modifier flags: the flag of each held modifier, combined.
pub open spec fn modifier_bits(shift: bool, ctrl: bool, alt: bool, super_key: bool) -> u32 {
    ((if shift { MOD_SHIFT } else { 0 }) + (if ctrl { MOD_CTRL } else { 0 }) + (if alt {
        MOD_ALT
    } else {
        0
    }) + (if super_key { MOD_SUPER } else { 0 })) as u32
}

/// The modifier flags sent with key and character events.
pub fn modifier_flags(shift: bool, ctrl: bool, alt: bool, super_key: bool) -> (r: u32)
    ensures
        r == modifier_bits(shift, ctrl, alt, super_key),
{
    let mut mods: u32 = 0;
    if shift {
        mods = mods + MOD_SHIFT;
    }
    if ctrl {
        mods = mods + MOD_CTRL;
    }
    if alt {
        mods = mods + MOD_ALT;
    }
    if super_key {
        mods = mods + MOD_SUPER;
    }
    mods
}

/// Each modifier can be read back from the flags.
pub proof fn lemma_modifier_flags_decode(shift: bool, ctrl: bool, alt: bool, super_key: bool)
    ensures
        modifier_bits(shift, ctrl, alt, super_key) < 16,
        (modifier_bits(shift, ctrl, alt, super_key) % 2 == 1) == shift,
        ((modifier_bits(shift, ctrl, alt, super_key) / 2) % 2 == 1) == ctrl,
        ((modifier_bits(shift, ctrl, alt, super_key) / 4) % 2 == 1) == alt,
        ((modifier_bits(shift, ctrl, alt, super_key) / 8) % 2 == 1) == super_key,
{
}

/// Mouse button as reported by the window system.
#[derive(Clone, Copy, Debug, PartialEq, Eq, Structural)]
pub enum PointerButton {
    Left,
    Right,
    Middle,
    Back,
    Forward,
    Other(u16),
}

/// The number sent for each mouse button.
pub open spec fn button_number(b: PointerButton) -> u16 {
    match b {
        PointerButton::Left => 0,
        PointerButton::Right => 1,
        PointerButton::Middle => 2,
        PointerButton::Back => 3,
        PointerButton::Forward => 4,
        PointerButton::Other(n) => n,
    }
}

/// The number sent with mouse press and release events.
pub fn mouse_button_index(b: PointerButton) -> (r: u16)
    ensures
        r == button_number(b),
{
    match b {
        PointerButton::Left => 0,
        PointerButton::Right => 1,
        PointerButton::Middle => 2,
        PointerButton::Back => 3,
        PointerButton::Forward => 4,
        PointerButton::Other(n) => n,
    }
}

/// Phase of a touch.
#[derive(Clone, Copy, Debug, PartialEq, Eq, Structural)]
pub enum TouchPhase {
    Started,
    Moved,
    Ended,
    Cancelled,
}

/// The events a touch turns into (a touch acts as the left mouse button):
/// a start moves the pointer and presses, a move moves, an end or cancel
/// moves and releases.
pub open spec fn touch_sequence(phase: TouchPhase) -> Seq<AppEventType> {
    match phase {
        TouchPhase::Started => seq![AppEventType::MouseMoved, AppEventType::MousePressed],
        TouchPhase::Moved => seq![AppEventType::MouseMoved],
        TouchPhase::Ended => seq![AppEventType::MouseMoved, AppEventType::MouseReleased],
        TouchPhase::Cancelled => seq![AppEventType::MouseMoved, AppEventType::MouseReleased],
    }
}

/// The events sent for a touch, in order.
pub fn touch_events(phase: TouchPhase) -> (r: Vec<AppEventType>)
    ensures
        r@ == touch_sequence(phase),
{
    let mut v: Vec<AppEventType> = Vec::new();
    v.push(AppEventType::MouseMoved);
    match phase {
        TouchPhase::Started => v.push(AppEventType::MousePressed),
        TouchPhase::Moved => {},
        TouchPhase::Ended => v.push(AppEventType::MouseReleased),
        TouchPhase::Cancelled => v.push(AppEventType::MouseReleased),
    }
    assert(v@ =~= touch_sequence(phase));
    v
}

/// How many times `t` occurs in `s`.
pub open spec fn occurrences(s: Seq<AppEventType>, t: AppEventType) -> nat
    decreases s.len(),
{
    if s.len() == 0 {
        0
    } else {
        occurrences(s.drop_last(), t) + if s.last() == t {
            1nat
        } else {
            0nat
        }
    }
}

/// Every touch event first moves the pointer; only the start of a touch
/// presses the button, once, and only its end or cancellation releases
/// it, once, as the last event sent.
pub proof fn lemma_touch_presses_and_releases(phase: TouchPhase)
    ensures
        touch_sequence(phase).len() >= 1,
        touch_sequence(phase)[0] == AppEventType::MouseMoved,
        occurrences(touch_sequence(phase), AppEventType::MousePressed) == if phase is Started {
            1nat
        } else {
            0nat
        },
        occurrences(touch_sequence(phase), AppEventType::MouseReleased) == if phase is Ended
            || phase is Cancelled {
            1nat
        } else {
            0nat
        },
        (phase is Ended || phase is Cancelled) ==> touch_sequence(phase).last()
            == AppEventType::MouseReleased,
{
    reveal_with_fuel(occurrences, 3);
}

/// The events sent for a run of touch phases, one after the other.
pub open spec fn touch_stream(phases: Seq<TouchPhase>) -> Seq<AppEventType>
    decreases phases.len(),
{
    if phases.len() == 0 {
        Seq::empty()
    } else {
        touch_stream(phases.drop_last()) + touch_sequence(phases.last())
    }
}

/// `n` moves of a touch.
pub open spec fn touch_moves(n: nat) -> Seq<TouchPhase> {
    Seq::new(n, |i: int| TouchPhase::Moved)
}

proof fn lemma_occurrences_concat(a: Seq<AppEventType>, b: Seq<AppEventType>, t: AppEventType)
    ensures
        occurrences(a + b, t) == occurrences(a, t) + occurrences(b, t),
    decreases b.len(),
{
    if b.len() == 0 {
        assert(a + b =~= a);
    } else {
        lemma_occurrences_concat(a, b.drop_last(), t);
        assert((a + b).drop_last() =~= a + b.drop_last());
        assert((a + b).last() == b.last());
    }
}

/// A touch that started and then moved any number of times has pressed
/// the button once and not released it.
proof fn lemma_touch_held(k: nat)
    ensures
        occurrences(touch_stream(seq![TouchPhase::Started] + touch_moves(k)), AppEventType::MousePressed)
            == 1,
        occurrences(touch_stream(seq![TouchPhase::Started] + touch_moves(k)), AppEventType::MouseReleased)
            == 0,
    decreases k,
{
    let s = seq![TouchPhase::Started] + touch_moves(k);
    lemma_touch_presses_and_releases(TouchPhase::Started);
    lemma_touch_presses_and_releases(TouchPhase::Moved);
    if k == 0 {
        assert(s =~= seq![TouchPhase::Started]);
        assert(s.drop_last() =~= Seq::<TouchPhase>::empty());
        assert(s.last() == TouchPhase::Started);
        assert(touch_stream(s) == touch_stream(s.drop_last()) + touch_sequence(s.last()));
        assert(touch_stream(Seq::<TouchPhase>::empty()) == Seq::<AppEventType>::empty());
        assert(touch_stream(s) =~= touch_sequence(TouchPhase::Started));
    } else {
        let prev = seq![TouchPhase::Started] + touch_moves((k - 1) as nat);
        lemma_touch_held((k - 1) as nat);
        assert(s.drop_last() =~= prev);
        assert(s.last() == TouchPhase::Moved);
        lemma_occurrences_concat(touch_stream(prev), touch_sequence(TouchPhase::Moved), AppEventType::MousePressed);
        lemma_occurrences_concat(touch_stream(prev), touch_sequence(TouchPhase::Moved), AppEventType::MouseReleased);
    }
}

/// A whole touch (a start, any number of moves, then an end or a
/// cancellation) presses and releases the button exactly once each, and
/// the last event it sends is the release.
pub proof fn lemma_whole_touch_releases(moves: nat, end: TouchPhase)
    requires
        end is Ended || end is Cancelled,
    ensures
        occurrences(
            touch_stream(seq![TouchPhase::Started] + touch_moves(moves) + seq![end]),
            AppEventType::MousePressed,
        ) == 1,
        occurrences(
            touch_stream(seq![TouchPhase::Started] + touch_moves(moves) + seq![end]),
            AppEventType::MouseReleased,
        ) == 1,
        touch_stream(seq![TouchPhase::Started] + touch_moves(moves) + seq![end]).last()
            == AppEventType::MouseReleased,
{
    let prev = seq![TouchPhase::Started] + touch_moves(moves);
    let s = prev + seq![end];
    lemma_touch_held(moves);
    lemma_touch_presses_and_releases(end);
    assert(s.drop_last() =~= prev);
    assert(s.last() == end);
    lemma_occurrences_concat(touch_stream(prev), touch_sequence(end), AppEventType::MousePressed);
    lemma_occurrences_concat(touch_stream(prev), touch_sequence(end), AppEventType::MouseReleased);
}

/// The events for a key press or release, each with its first datum: the
/// key event with the key number, then, for a press that produced text,
/// one character event per character with its code point.
pub open spec fn key_sequence(pressed: bool, key: u32, text: Option<Seq<char>>) -> Seq<(AppEventType, u32)> {
    let first = if pressed {
        (AppEventType::KeyPressed, key)
    } else {
        (AppEventType::KeyReleased, key)
    };
    match text {
        Some(t) if pressed => seq![first] + t.map_values(
            |c: char| (AppEventType::CharInput, c as u32),
        ),
        _ => seq![first],
    }
}

/// A key press or release first sends the key event with the key number
/// (pressed or released as it happened); only a press that produced text
/// then sends one character event per character of the text, in order,
/// each with its code point; a release sends nothing more.
pub proof fn lemma_key_events_shape(pressed: bool, key: u32, text: Option<Seq<char>>)
    ensures
        key_sequence(pressed, key, text)[0] == if pressed {
            (AppEventType::KeyPressed, key)
        } else {
            (AppEventType::KeyReleased, key)
        },
        !pressed || text is None ==> key_sequence(pressed, key, text).len() == 1,
        pressed && text is Some ==> key_sequence(pressed, key, text).len() == 1 + text->0.len(),
        pressed && text is Some ==> forall|i: int|
            0 <= i < text->0.len() ==> key_sequence(pressed, key, text)[i + 1] == (
                AppEventType::CharInput,
                #[trigger] text->0[i] as u32,
            ),
{
}

/// The events to send for a keyboard event (the modifier flags go with
/// each of them).
pub fn key_events(pressed: bool, key: u32, text: Option<&str>) -> (r: Vec<(AppEventType, u32)>)
    ensures
        r@ == key_sequence(
            pressed,
            key,
            match text {
                Some(t) => Some(t@),
                None => None,
            },
        ),
{
    let mut v: Vec<(AppEventType, u32)> = Vec::new();
    if pressed {
        v.push((AppEventType::KeyPressed, key));
    } else {
        v.push((AppEventType::KeyReleased, key));
    }
    if pressed {
        if let Some(t) = text {
            let n = t.unicode_len();
            let mut i: usize = 0;
            while i < n
                invariant
                    pressed,
                    n == t@.len(),
                    i <= n,
                    v@ == seq![(AppEventType::KeyPressed, key)] + t@.subrange(0, i as int).map_values(
                        |c: char| (AppEventType::CharInput, c as u32),
                    ),
                decreases n - i,
            {
                let c = t.get_char(i);
                v.push((AppEventType::CharInput, c as u32));
                assert(t@.subrange(0, i + 1) =~= t@.subrange(0, i as int).push(c));
                assert(v@ =~= seq![(AppEventType::KeyPressed, key)] + t@.subrange(0, i + 1).map_values(
                    |c: char| (AppEventType::CharInput, c as u32),
                ));
                i = i + 1;
            }
            assert(t@.subrange(0, n as int) =~= t@);
        }
    }
    proof {
        match text {
            Some(t) if pressed => {},
            _ => {
                assert(v@ =~= key_sequence(pressed, key, None));
            },
        }
    }
    v
}

} // verus!
