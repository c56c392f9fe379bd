//! Translation of OS-native virtual key identifiers into the library's
//! canonical key code enumeration.

use vstd::prelude::*;

verus! {

/// A canonical, platform-independent identifier for one physical key.
/// Produced only by [`map_virtual_key`].
#[derive(Debug, Clone, Copy, PartialEq, Eq, Structural)]
pub enum KeyCode {
    Backspace,
    Tab,
    Enter,
    Pause,
    CapsLock,
    Escape,
    Space,
    PageUp,
    PageDown,
    End,
    Home,
    Left,
    Up,
    Right,
    Down,
    PrintScreen,
    Insert,
    Delete,
    Num0,
    Num1,
    Num2,
    Num3,
    Num4,
    Num5,
    Num6,
    Num7,
    Num8,
    Num9,
    A,
    B,
    C,
    D,
    E,
    F,
    G,
    H,
    I,
    J,
    K,
    L,
    M,
    N,
    O,
    P,
    Q,
    R,
    S,
    T,
    U,
    V,
    W,
    X,
    Y,
    Z,
    Pad0,
    Pad1,
    Pad2,
    Pad3,
    Pad4,
    Pad5,
    Pad6,
    Pad7,
    Pad8,
    Pad9,
    PadMultiply,
    PadPlus,
    PadMinus,
    PadDecimal,
    PadDivide,
    F1,
    F2,
    F3,
    F4,
    F5,
    F6,
    F7,
    F8,
    F9,
    F10,
    F11,
    F12,
    NumLock,
    ScrollLock,
    LeftShift,
    RightShift,
    LeftControl,
    RightControl,
    LeftAlt,
    RightAlt,
    Semicolon,
    Equals,
    Comma,
    Minus,
    Period,
    Slash,
    Grave,
    LeftBracket,
    Backslash,
    RightBracket,
    Apostrophe,
}

/// The canonical key, if any, that a native virtual-key code stands for.
/// Codes with no entry map to `None`: such events are dropped by callers.
pub open spec fn virtual_key_map(code: u32) -> Option<KeyCode> {
    match code {
        0x08 => Some(KeyCode::Backspace),
        0x09 => Some(KeyCode::Tab),
        0x0D => Some(KeyCode::Enter),
        0x13 => Some(KeyCode::Pause),
        0x14 => Some(KeyCode::CapsLock),
        0x1B => Some(KeyCode::Escape),
        0x20 => Some(KeyCode::Space),
        0x21 => Some(KeyCode::PageUp),
        0x22 => Some(KeyCode::PageDown),
        0x23 => Some(KeyCode::End),
        0x24 => Some(KeyCode::Home),
        0x25 => Some(KeyCode::Left),
        0x26 => Some(KeyCode::Up),
        0x27 => Some(KeyCode::Right),
        0x28 => Some(KeyCode::Down),
        0x2A => Some(KeyCode::PrintScreen),
        0x2D => Some(KeyCode::Insert),
        0x2E => Some(KeyCode::Delete),
        0x30 => Some(KeyCode::Num0),
        0x31 => Some(KeyCode::Num1),
        0x32 => Some(KeyCode::Num2),
        0x33 => Some(KeyCode::Num3),
        0x34 => Some(KeyCode::Num4),
        0x35 => Some(KeyCode::Num5),
        0x36 => Some(KeyCode::Num6),
        0x37 => Some(KeyCode::Num7),
        0x38 => Some(KeyCode::Num8),
        0x39 => Some(KeyCode::Num9),
        0x41 => Some(KeyCode::A),
        0x42 => Some(KeyCode::B),
        0x43 => Some(KeyCode::C),
        0x44 => Some(KeyCode::D),
        0x45 => Some(KeyCode::E),
        0x46 => Some(KeyCode::F),
        0x47 => Some(KeyCode::G),
        0x48 => Some(KeyCode::H),
        0x49 => Some(KeyCode::I),
        0x4A => Some(KeyCode::J),
        0x4B => Some(KeyCode::K),
        0x4C => Some(KeyCode::L),
        0x4D => Some(KeyCode::M),
        0x4E => Some(KeyCode::N),
        0x4F => Some(KeyCode::O),
        0x50 => Some(KeyCode::P),
        0x51 => Some(KeyCode::Q),
        0x52 => Some(KeyCode::R),
        0x53 => Some(KeyCode::S),
        0x54 => Some(KeyCode::T),
        0x55 => Some(KeyCode::U),
        0x56 => Some(KeyCode::V),
        0x57 => Some(KeyCode::W),
        0x58 => Some(KeyCode::X),
        0x59 => Some(KeyCode::Y),
        0x5A => Some(KeyCode::Z),
        0x60 => Some(KeyCode::Pad0),
        0x61 => Some(KeyCode::Pad1),
        0x62 => Some(KeyCode::Pad2),
        0x63 => Some(KeyCode::Pad3),
        0x64 => Some(KeyCode::Pad4),
        0x65 => Some(KeyCode::Pad5),
        0x66 => Some(KeyCode::Pad6),
        0x67 => Some(KeyCode::Pad7),
        0x68 => Some(KeyCode::Pad8),
        0x69 => Some(KeyCode::Pad9),
        0x6A => Some(KeyCode::PadMultiply),
        0x6B => Some(KeyCode::PadPlus),
        0x6D => Some(KeyCode::PadMinus),
        0x6E => Some(KeyCode::PadDecimal),
        0x6F => Some(KeyCode::PadDivide),
        0x70 => Some(KeyCode::F1),
        0x71 => Some(KeyCode::F2),
        0x72 => Some(KeyCode::F3),
        0x73 => Some(KeyCode::F4),
        0x74 => Some(KeyCode::F5),
        0x75 => Some(KeyCode::F6),
        0x76 => Some(KeyCode::F7),
        0x77 => Some(KeyCode::F8),
        0x78 => Some(KeyCode::F9),
        0x79 => Some(KeyCode::F10),
        0x7A => Some(KeyCode::F11),
        0x7B => Some(KeyCode::F12),
        0x90 => Some(KeyCode::NumLock),
        0x91 => Some(KeyCode::ScrollLock),
        0xA0 => Some(KeyCode::LeftShift),
        0xA1 => Some(KeyCode::RightShift),
        0xA2 => Some(KeyCode::LeftControl),
        0xA3 => Some(KeyCode::RightControl),
        0xA4 => Some(KeyCode::LeftAlt),
        0xA5 => Some(KeyCode::RightAlt),
        0xBA => Some(KeyCode::Semicolon),
        0xBB => Some(KeyCode::Equals),
        0xBC => Some(KeyCode::Comma),
        0xBD => Some(KeyCode::Minus),
        0xBE => Some(KeyCode::Period),
        0xBF => Some(KeyCode::Slash),
        0xC0 => Some(KeyCode::Grave),
        0xDB => Some(KeyCode::LeftBracket),
        0xDC => Some(KeyCode::Backslash),
        0xDD => Some(KeyCode::RightBracket),
        0xDE => Some(KeyCode::Apostrophe),
        _ => None,
    }
}

/// Translates an OS-native virtual-key code into the canonical key code.
/// Total and deterministic; an unknown code yields `None`, a normal
/// outcome rather than an error.
pub fn map_virtual_key(code: u32) -> (r: Option<KeyCode>)
    ensures
        r == virtual_key_map(code),
{
    match code {
        0x08 => Some(KeyCode::Backspace),
        0x09 => Some(KeyCode::Tab),
        0x0D => Some(KeyCode::Enter),
        0x13 => Some(KeyCode::Pause),
        0x14 => Some(KeyCode::CapsLock),
        0x1B => Some(KeyCode::Escape),
        0x20 => Some(KeyCode::Space),
        0x21 => Some(KeyCode::PageUp),
        0x22 => Some(KeyCode::PageDown),
        0x23 => Some(KeyCode::End),
        0x24 => Some(KeyCode::Home),
        0x25 => Some(KeyCode::Left),
        0x26 => Some(KeyCode::Up),
        0x27 => Some(KeyCode::Right),
        0x28 => Some(KeyCode::Down),
        0x2A => Some(KeyCode::PrintScreen),
        0x2D => Some(KeyCode::Insert),
        0x2E => Some(KeyCode::Delete),
        0x30 => Some(KeyCode::Num0),
        0x31 => Some(KeyCode::Num1),
        0x32 => Some(KeyCode::Num2),
        0x33 => Some(KeyCode::Num3),
        0x34 => Some(KeyCode::Num4),
        0x35 => Some(KeyCode::Num5),
        0x36 => Some(KeyCode::Num6),
        0x37 => Some(KeyCode::Num7),
        0x38 => Some(KeyCode::Num8),
        0x39 => Some(KeyCode::Num9),
        0x41 => Some(KeyCode::A),
        0x42 => Some(KeyCode::B),
        0x43 => Some(KeyCode::C),
        0x44 => Some(KeyCode::D),
        0x45 => Some(KeyCode::E),
        0x46 => Some(KeyCode::F),
        0x47 => Some(KeyCode::G),
        0x48 => Some(KeyCode::H),
        0x49 => Some(KeyCode::I),
        0x4A => Some(KeyCode::J),
        0x4B => Some(KeyCode::K),
        0x4C => Some(KeyCode::L),
        0x4D => Some(KeyCode::M),
        0x4E => Some(KeyCode::N),
        0x4F => Some(KeyCode::O),
        0x50 => Some(KeyCode::P),
        0x51 => Some(KeyCode::Q),
        0x52 => Some(KeyCode::R),
        0x53 => Some(KeyCode::S),
        0x54 => Some(KeyCode::T),
        0x55 => Some(KeyCode::U),
        0x56 => Some(KeyCode::V),
        0x57 => Some(KeyCode::W),
        0x58 => Some(KeyCode::X),
        0x59 => Some(KeyCode::Y),
        0x5A => Some(KeyCode::Z),
        0x60 => Some(KeyCode::Pad0),
        0x61 => Some(KeyCode::Pad1),
        0x62 => Some(KeyCode::Pad2),
        0x63 => Some(KeyCode::Pad3),
        0x64 => Some(KeyCode::Pad4),
        0x65 => Some(KeyCode::Pad5),
        0x66 => Some(KeyCode::Pad6),
        0x67 => Some(KeyCode::Pad7),
        0x68 => Some(KeyCode::Pad8),
        0x69 => Some(KeyCode::Pad9),
        0x6A => Some(KeyCode::PadMultiply),
        0x6B => Some(KeyCode::PadPlus),
        0x6D => Some(KeyCode::PadMinus),
        0x6E => Some(KeyCode::PadDecimal),
        0x6F => Some(KeyCode::PadDivide),
        0x70 => Some(KeyCode::F1),
        0x71 => Some(KeyCode::F2),
        0x72 => Some(KeyCode::F3),
        0x73 => Some(KeyCode::F4),
        0x74 => Some(KeyCode::F5),
        0x75 => Some(KeyCode::F6),
        0x76 => Some(KeyCode::F7),
        0x77 => Some(KeyCode::F8),
        0x78 => Some(KeyCode::F9),
        0x79 => Some(KeyCode::F10),
        0x7A => Some(KeyCode::F11),
        0x7B => Some(KeyCode::F12),
        0x90 => Some(KeyCode::NumLock),
        0x91 => Some(KeyCode::ScrollLock),
        0xA0 => Some(KeyCode::LeftShift),
        0xA1 => Some(KeyCode::RightShift),
        0xA2 => Some(KeyCode::LeftControl),
        0xA3 => Some(KeyCode::RightControl),
        0xA4 => Some(KeyCode::LeftAlt),
        0xA5 => Some(KeyCode::RightAlt),
        0xBA => Some(KeyCode::Semicolon),
        0xBB => Some(KeyCode::Equals),
        0xBC => Some(KeyCode::Comma),
        0xBD => Some(KeyCode::Minus),
        0xBE => Some(KeyCode::Period),
        0xBF => Some(KeyCode::Slash),
        0xC0 => Some(KeyCode::Grave),
        0xDB => Some(KeyCode::LeftBracket),
        0xDC => Some(KeyCode::Backslash),
        0xDD => Some(KeyCode::RightBracket),
        0xDE => Some(KeyCode::Apostrophe),
        _ => None,
    }
}

} // verus!
