//! USB HID key codes and physical key positions.

use vstd::prelude::*;

verus! {

/// USB HID usage IDs: printable and control keys in `0x04..=0x65`, the eight
/// modifiers in `0xE0..=0xE7`.
#[derive(Copy, Clone, PartialEq, Eq, Structural, Debug)]
pub enum KeyCode {
    No,
    RollOver,
    PostFail,
    Undefined,
    A,
    B,
    C,
    D,
    E,
    F,
    G,
    H,
    I,
    J,
    K,
    L,
    M,
    N,
    O,
    P,
    Q,
    R,
    S,
    T,
    U,
    V,
    W,
    X,
    Y,
    Z,
    N1,
    N2,
    N3,
    N4,
    N5,
    N6,
    N7,
    N8,
    N9,
    N0,
    Enter,
    Escape,
    BSpace,
    Tab,
    Space,
    Minus,
    Equal,
    LBracket,
    RBracket,
    BSlash,
    NonUSHash,
    SColon,
    Quote,
    Grave,
    Comma,
    Dot,
    Slash,
    Capslock,
    F1,
    F2,
    F3,
    F4,
    F5,
    F6,
    F7,
    F8,
    F9,
    F10,
    F11,
    F12,
    PScreen,
    Scrolllock,
    Pause,
    Insert,
    Home,
    PgUp,
    Delete,
    End,
    PgDown,
    Right,
    Left,
    Down,
    Up,
    Numlock,
    KpSlash,
    KpAsterisk,
    KpMinus,
    KpPlus,
    KpEnter,
    Kp1,
    Kp2,
    Kp3,
    Kp4,
    Kp5,
    Kp6,
    Kp7,
    Kp8,
    Kp9,
    Kp0,
    KpDot,
    NonUSBackslash,
    Application,
    LCtrl,
    LShift,
    LAlt,
    LMeta,
    RCtrl,
    RShift,
    RAlt,
    RMeta,
}

/// The HID usage ID of each key code.
pub open spec fn key_code_value(c: KeyCode) -> u8 {
    match c {
        KeyCode::No => 0,
        KeyCode::RollOver => 1,
        KeyCode::PostFail => 2,
        KeyCode::Undefined => 3,
        KeyCode::A => 4,
        KeyCode::B => 5,
        KeyCode::C => 6,
        KeyCode::D => 7,
        KeyCode::E => 8,
        KeyCode::F => 9,
        KeyCode::G => 10,
        KeyCode::H => 11,
        KeyCode::I => 12,
        KeyCode::J => 13,
        KeyCode::K => 14,
        KeyCode::L => 15,
        KeyCode::M => 16,
        KeyCode::N => 17,
        KeyCode::O => 18,
        KeyCode::P => 19,
        KeyCode::Q => 20,
        KeyCode::R => 21,
        KeyCode::S => 22,
        KeyCode::T => 23,
        KeyCode::U => 24,
        KeyCode::V => 25,
        KeyCode::W => 26,
        KeyCode::X => 27,
        KeyCode::Y => 28,
        KeyCode::Z => 29,
        KeyCode::N1 => 30,
        KeyCode::N2 => 31,
        KeyCode::N3 => 32,
        KeyCode::N4 => 33,
        KeyCode::N5 => 34,
        KeyCode::N6 => 35,
        KeyCode::N7 => 36,
        KeyCode::N8 => 37,
        KeyCode::N9 => 38,
        KeyCode::N0 => 39,
        KeyCode::Enter => 40,
        KeyCode::Escape => 41,
        KeyCode::BSpace => 42,
        KeyCode::Tab => 43,
        KeyCode::Space => 44,
        KeyCode::Minus => 45,
        KeyCode::Equal => 46,
        KeyCode::LBracket => 47,
        KeyCode::RBracket => 48,
        KeyCode::BSlash => 49,
        KeyCode::NonUSHash => 50,
        KeyCode::SColon => 51,
        KeyCode::Quote => 52,
        KeyCode::Grave => 53,
        KeyCode::Comma => 54,
        KeyCode::Dot => 55,
        KeyCode::Slash => 56,
        KeyCode::Capslock => 57,
        KeyCode::F1 => 58,
        KeyCode::F2 => 59,
        KeyCode::F3 => 60,
        KeyCode::F4 => 61,
        KeyCode::F5 => 62,
        KeyCode::F6 => 63,
        KeyCode::F7 => 64,
        KeyCode::F8 => 65,
        KeyCode::F9 => 66,
        KeyCode::F10 => 67,
        KeyCode::F11 => 68,
        KeyCode::F12 => 69,
        KeyCode::PScreen => 70,
        KeyCode::Scrolllock => 71,
        KeyCode::Pause => 72,
        KeyCode::Insert => 73,
        KeyCode::Home => 74,
        KeyCode::PgUp => 75,
        KeyCode::Delete => 76,
        KeyCode::End => 77,
        KeyCode::PgDown => 78,
        KeyCode::Right => 79,
        KeyCode::Left => 80,
        KeyCode::Down => 81,
        KeyCode::Up => 82,
        KeyCode::Numlock => 83,
        KeyCode::KpSlash => 84,
        KeyCode::KpAsterisk => 85,
        KeyCode::KpMinus => 86,
        KeyCode::KpPlus => 87,
        KeyCode::KpEnter => 88,
        KeyCode::Kp1 => 89,
        KeyCode::Kp2 => 90,
        KeyCode::Kp3 => 91,
        KeyCode::Kp4 => 92,
        KeyCode::Kp5 => 93,
        KeyCode::Kp6 => 94,
        KeyCode::Kp7 => 95,
        KeyCode::Kp8 => 96,
        KeyCode::Kp9 => 97,
        KeyCode::Kp0 => 98,
        KeyCode::KpDot => 99,
        KeyCode::NonUSBackslash => 100,
        KeyCode::Application => 101,
        KeyCode::LCtrl => 224,
        KeyCode::LShift => 225,
        KeyCode::LAlt => 226,
        KeyCode::LMeta => 227,
        KeyCode::RCtrl => 228,
        KeyCode::RShift => 229,
        KeyCode::RAlt => 230,
        KeyCode::RMeta => 231,
    }
}

/// Modifier keys occupy `0xE0..=0xE7`.
pub open spec fn spec_is_modifier(c: KeyCode) -> bool {
    0xE0 <= key_code_value(c) <= 0xE7
}

/// Normal (reportable) keys occupy `0x04..=0x65`.
pub open spec fn spec_is_normal_key(c: KeyCode) -> bool {
    0x04 <= key_code_value(c) <= 0x65
}

impl KeyCode {
    /// The HID usage ID carried in reports and on the wire.
    pub fn to_u8(self) -> (r: u8)
        ensures
            r == key_code_value(self),
    {
        match self {
            KeyCode::No => 0,
            KeyCode::RollOver => 1,
            KeyCode::PostFail => 2,
            KeyCode::Undefined => 3,
            KeyCode::A => 4,
            KeyCode::B => 5,
            KeyCode::C => 6,
            KeyCode::D => 7,
            KeyCode::E => 8,
            KeyCode::F => 9,
            KeyCode::G => 10,
            KeyCode::H => 11,
            KeyCode::I => 12,
            KeyCode::J => 13,
            KeyCode::K => 14,
            KeyCode::L => 15,
            KeyCode::M => 16,
            KeyCode::N => 17,
            KeyCode::O => 18,
            KeyCode::P => 19,
            KeyCode::Q => 20,
            KeyCode::R => 21,
            KeyCode::S => 22,
            KeyCode::T => 23,
            KeyCode::U => 24,
            KeyCode::V => 25,
            KeyCode::W => 26,
            KeyCode::X => 27,
            KeyCode::Y => 28,
            KeyCode::Z => 29,
            KeyCode::N1 => 30,
            KeyCode::N2 => 31,
            KeyCode::N3 => 32,
            KeyCode::N4 => 33,
            KeyCode::N5 => 34,
            KeyCode::N6 => 35,
            KeyCode::N7 => 36,
            KeyCode::N8 => 37,
            KeyCode::N9 => 38,
            KeyCode::N0 => 39,
            KeyCode::Enter => 40,
            KeyCode::Escape => 41,
            KeyCode::BSpace => 42,
            KeyCode::Tab => 43,
            KeyCode::Space => 44,
            KeyCode::Minus => 45,
            KeyCode::Equal => 46,
            KeyCode::LBracket => 47,
            KeyCode::RBracket => 48,
            KeyCode::BSlash => 49,
            KeyCode::NonUSHash => 50,
            KeyCode::SColon => 51,
            KeyCode::Quote => 52,
            KeyCode::Grave => 53,
            KeyCode::Comma => 54,
            KeyCode::Dot => 55,
            KeyCode::Slash => 56,
            KeyCode::Capslock => 57,
            KeyCode::F1 => 58,
            KeyCode::F2 => 59,
            KeyCode::F3 => 60,
            KeyCode::F4 => 61,
            KeyCode::F5 => 62,
            KeyCode::F6 => 63,
            KeyCode::F7 => 64,
            KeyCode::F8 => 65,
            KeyCode::F9 => 66,
            KeyCode::F10 => 67,
            KeyCode::F11 => 68,
            KeyCode::F12 => 69,
            KeyCode::PScreen => 70,
            KeyCode::Scrolllock => 71,
            KeyCode::Pause => 72,
            KeyCode::Insert => 73,
            KeyCode::Home => 74,
            KeyCode::PgUp => 75,
            KeyCode::Delete => 76,
            KeyCode::End => 77,
            KeyCode::PgDown => 78,
            KeyCode::Right => 79,
            KeyCode::Left => 80,
            KeyCode::Down => 81,
            KeyCode::Up => 82,
            KeyCode::Numlock => 83,
            KeyCode::KpSlash => 84,
            KeyCode::KpAsterisk => 85,
            KeyCode::KpMinus => 86,
            KeyCode::KpPlus => 87,
            KeyCode::KpEnter => 88,
            KeyCode::Kp1 => 89,
            KeyCode::Kp2 => 90,
            KeyCode::Kp3 => 91,
            KeyCode::Kp4 => 92,
            KeyCode::Kp5 => 93,
            KeyCode::Kp6 => 94,
            KeyCode::Kp7 => 95,
            KeyCode::Kp8 => 96,
            KeyCode::Kp9 => 97,
            KeyCode::Kp0 => 98,
            KeyCode::KpDot => 99,
            KeyCode::NonUSBackslash => 100,
            KeyCode::Application => 101,
            KeyCode::LCtrl => 224,
            KeyCode::LShift => 225,
            KeyCode::LAlt => 226,
            KeyCode::LMeta => 227,
            KeyCode::RCtrl => 228,
            KeyCode::RShift => 229,
            KeyCode::RAlt => 230,
            KeyCode::RMeta => 231,
        }
    }

    pub fn is_modifier(self) -> (r: bool)
        ensures
            r == spec_is_modifier(self),
    {
        let v = self.to_u8();
        0xE0 <= v && v <= 0xE7
    }

    pub fn is_normal_key(self) -> (r: bool)
        ensures
            r == spec_is_normal_key(self),
    {
        let v = self.to_u8();
        0x04 <= v && v <= 0x65
    }
}

/// Position of each physical key in the scan matrix, row-major from the top
/// left: `Escape` is bit 0, `RCtrl` bit 69.  The `No1..No9` names fill matrix
/// cells with no key cap.
#[derive(Copy, Clone, PartialEq, Eq, Structural, Debug)]
pub enum KeyIndex {
    Escape,
    N1,
    N2,
    N3,
    N4,
    N5,
    N6,
    N7,
    N8,
    N9,
    N0,
    Minus,
    Equal,
    BSpace,
    Tab,
    Q,
    W,
    E,
    R,
    T,
    Y,
    U,
    I,
    O,
    P,
    LBracket,
    RBracket,
    BSlash,
    Capslock,
    A,
    S,
    D,
    F,
    G,
    H,
    J,
    K,
    L,
    SColon,
    Quote,
    No1,
    Enter,
    LShift,
    Z,
    X,
    C,
    V,
    B,
    N,
    M,
    Comma,
    Dot,
    Slash,
    No2,
    No3,
    RShift,
    LCtrl,
    LMeta,
    LAlt,
    No4,
    No5,
    Space,
    No6,
    No7,
    No8,
    No9,
    RAlt,
    FN,
    Anne,
    RCtrl,
}

/// The scan-matrix bit position of each physical key.
pub open spec fn key_index_value(k: KeyIndex) -> u8 {
    match k {
        KeyIndex::Escape => 0,
        KeyIndex::N1 => 1,
        KeyIndex::N2 => 2,
        KeyIndex::N3 => 3,
        KeyIndex::N4 => 4,
        KeyIndex::N5 => 5,
        KeyIndex::N6 => 6,
        KeyIndex::N7 => 7,
        KeyIndex::N8 => 8,
        KeyIndex::N9 => 9,
        KeyIndex::N0 => 10,
        KeyIndex::Minus => 11,
        KeyIndex::Equal => 12,
        KeyIndex::BSpace => 13,
        KeyIndex::Tab => 14,
        KeyIndex::Q => 15,
        KeyIndex::W => 16,
        KeyIndex::E => 17,
        KeyIndex::R => 18,
        KeyIndex::T => 19,
        KeyIndex::Y => 20,
        KeyIndex::U => 21,
        KeyIndex::I => 22,
        KeyIndex::O => 23,
        KeyIndex::P => 24,
        KeyIndex::LBracket => 25,
        KeyIndex::RBracket => 26,
        KeyIndex::BSlash => 27,
        KeyIndex::Capslock => 28,
        KeyIndex::A => 29,
        KeyIndex::S => 30,
        KeyIndex::D => 31,
        KeyIndex::F => 32,
        KeyIndex::G => 33,
        KeyIndex::H => 34,
        KeyIndex::J => 35,
        KeyIndex::K => 36,
        KeyIndex::L => 37,
        KeyIndex::SColon => 38,
        KeyIndex::Quote => 39,
        KeyIndex::No1 => 40,
        KeyIndex::Enter => 41,
        KeyIndex::LShift => 42,
        KeyIndex::Z => 43,
        KeyIndex::X => 44,
        KeyIndex::C => 45,
        KeyIndex::V => 46,
        KeyIndex::B => 47,
        KeyIndex::N => 48,
        KeyIndex::M => 49,
        KeyIndex::Comma => 50,
        KeyIndex::Dot => 51,
        KeyIndex::Slash => 52,
        KeyIndex::No2 => 53,
        KeyIndex::No3 => 54,
        KeyIndex::RShift => 55,
        KeyIndex::LCtrl => 56,
        KeyIndex::LMeta => 57,
        KeyIndex::LAlt => 58,
        KeyIndex::No4 => 59,
        KeyIndex::No5 => 60,
        KeyIndex::Space => 61,
        KeyIndex::No6 => 62,
        KeyIndex::No7 => 63,
        KeyIndex::No8 => 64,
        KeyIndex::No9 => 65,
        KeyIndex::RAlt => 66,
        KeyIndex::FN => 67,
        KeyIndex::Anne => 68,
        KeyIndex::RCtrl => 69,
    }
}

impl KeyIndex {
    /// The bit position used in `KeyState` and in per-key LED records.
    pub fn to_u8(self) -> (r: u8)
        ensures
            r == key_index_value(self),
    {
        match self {
            KeyIndex::Escape => 0,
            KeyIndex::N1 => 1,
            KeyIndex::N2 => 2,
            KeyIndex::N3 => 3,
            KeyIndex::N4 => 4,
            KeyIndex::N5 => 5,
            KeyIndex::N6 => 6,
            KeyIndex::N7 => 7,
            KeyIndex::N8 => 8,
            KeyIndex::N9 => 9,
            KeyIndex::N0 => 10,
            KeyIndex::Minus => 11,
            KeyIndex::Equal => 12,
            KeyIndex::BSpace => 13,
            KeyIndex::Tab => 14,
            KeyIndex::Q => 15,
            KeyIndex::W => 16,
            KeyIndex::E => 17,
            KeyIndex::R => 18,
            KeyIndex::T => 19,
            KeyIndex::Y => 20,
            KeyIndex::U => 21,
            KeyIndex::I => 22,
            KeyIndex::O => 23,
            KeyIndex::P => 24,
            KeyIndex::LBracket => 25,
            KeyIndex::RBracket => 26,
            KeyIndex::BSlash => 27,
            KeyIndex::Capslock => 28,
            KeyIndex::A => 29,
            KeyIndex::S => 30,
            KeyIndex::D => 31,
            KeyIndex::F => 32,
            KeyIndex::G => 33,
            KeyIndex::H => 34,
            KeyIndex::J => 35,
            KeyIndex::K => 36,
            KeyIndex::L => 37,
            KeyIndex::SColon => 38,
            KeyIndex::Quote => 39,
            KeyIndex::No1 => 40,
            KeyIndex::Enter => 41,
            KeyIndex::LShift => 42,
            KeyIndex::Z => 43,
            KeyIndex::X => 44,
            KeyIndex::C => 45,
            KeyIndex::V => 46,
            KeyIndex::B => 47,
            KeyIndex::N => 48,
            KeyIndex::M => 49,
            KeyIndex::Comma => 50,
            KeyIndex::Dot => 51,
            KeyIndex::Slash => 52,
            KeyIndex::No2 => 53,
            KeyIndex::No3 => 54,
            KeyIndex::RShift => 55,
            KeyIndex::LCtrl => 56,
            KeyIndex::LMeta => 57,
            KeyIndex::LAlt => 58,
            KeyIndex::No4 => 59,
            KeyIndex::No5 => 60,
            KeyIndex::Space => 61,
            KeyIndex::No6 => 62,
            KeyIndex::No7 => 63,
            KeyIndex::No8 => 64,
            KeyIndex::No9 => 65,
            KeyIndex::RAlt => 66,
            KeyIndex::FN => 67,
            KeyIndex::Anne => 68,
            KeyIndex::RCtrl => 69,
        }
    }
}

} // verus!
