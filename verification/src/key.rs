//! Keys and buttons, and their raw event codes.
//!
//! The raw codes follow the Linux input event code assignment: keyboard keys
//! live below `0x110` and mouse/auxiliary buttons at `0x110` and above, so
//! the two namespaces never collide.  The same codes serve as the wire tags
//! for keys, so `from_raw`/`to_raw` are both the capture-side conversion and
//! the codec's tag table.

use vstd::prelude::*;

verus! {

/// A key state change: `down` is true for a press, false for a release.
#[derive(Clone, Copy, Debug, PartialEq, Eq, Structural)]
pub struct KeyEvent {
    pub key: Key,
    pub down: bool,
}

/// Either a keyboard key or a pointer/auxiliary button.
#[derive(Clone, Copy, Debug, PartialEq, Eq, Structural)]
pub enum Key {
    Key(Keyboard),
    Button(Button),
}

/// A keyboard key.  The set is closed; raw codes identify each member.
#[derive(Clone, Copy, Debug, PartialEq, Eq, Structural)]
pub enum Keyboard {
    Esc,
    N1,
    N2,
    N3,
    N4,
    N5,
    N6,
    N7,
    N8,
    N9,
    N0,
    Minus,
    Equal,
    Backspace,
    Tab,
    Q,
    W,
    E,
    R,
    T,
    Y,
    U,
    I,
    O,
    P,
    LeftBrace,
    RightBrace,
    Enter,
    LeftCtrl,
    A,
    S,
    D,
    F,
    G,
    H,
    J,
    K,
    L,
    Semicolon,
    Apostrophe,
    Grave,
    LeftShift,
    Backslash,
    Z,
    X,
    C,
    V,
    B,
    N,
    M,
    Comma,
    Dot,
    Slash,
    RightShift,
    KpAsterisk,
    LeftAlt,
    Space,
    CapsLock,
    F1,
    F2,
    F3,
    F4,
    F5,
    F6,
    F7,
    F8,
    F9,
    F10,
    NumLock,
    ScrollLock,
    Kp7,
    Kp8,
    Kp9,
    KpMinus,
    Kp4,
    Kp5,
    Kp6,
    KpPlus,
    Kp1,
    Kp2,
    Kp3,
    Kp0,
    KpDot,
    F11,
    F12,
    KpEnter,
    RightCtrl,
    KpSlash,
    SysRq,
    RightAlt,
    Home,
    Up,
    PageUp,
    Left,
    Right,
    End,
    Down,
    PageDown,
    Insert,
    Delete,
    Mute,
    VolumeDown,
    VolumeUp,
    Power,
    Pause,
    LeftMeta,
    RightMeta,
    Compose,
}

/// A pointer or auxiliary button.
#[derive(Clone, Copy, Debug, PartialEq, Eq, Structural)]
pub enum Button {
    Left,
    Right,
    Middle,
    Side,
    Extra,
    Forward,
    Back,
    Task,
}

impl Keyboard {
    /// The raw event code of this key.
    pub open spec fn code(self) -> u16 {
        match self {
            Keyboard::Esc => 1,
            Keyboard::N1 => 2,
            Keyboard::N2 => 3,
            Keyboard::N3 => 4,
            Keyboard::N4 => 5,
            Keyboard::N5 => 6,
            Keyboard::N6 => 7,
            Keyboard::N7 => 8,
            Keyboard::N8 => 9,
            Keyboard::N9 => 10,
            Keyboard::N0 => 11,
            Keyboard::Minus => 12,
            Keyboard::Equal => 13,
            Keyboard::Backspace => 14,
            Keyboard::Tab => 15,
            Keyboard::Q => 16,
            Keyboard::W => 17,
            Keyboard::E => 18,
            Keyboard::R => 19,
            Keyboard::T => 20,
            Keyboard::Y => 21,
            Keyboard::U => 22,
            Keyboard::I => 23,
            Keyboard::O => 24,
            Keyboard::P => 25,
            Keyboard::LeftBrace => 26,
            Keyboard::RightBrace => 27,
            Keyboard::Enter => 28,
            Keyboard::LeftCtrl => 29,
            Keyboard::A => 30,
            Keyboard::S => 31,
            Keyboard::D => 32,
            Keyboard::F => 33,
            Keyboard::G => 34,
            Keyboard::H => 35,
            Keyboard::J => 36,
            Keyboard::K => 37,
            Keyboard::L => 38,
            Keyboard::Semicolon => 39,
            Keyboard::Apostrophe => 40,
            Keyboard::Grave => 41,
            Keyboard::LeftShift => 42,
            Keyboard::Backslash => 43,
            Keyboard::Z => 44,
            Keyboard::X => 45,
            Keyboard::C => 46,
            Keyboard::V => 47,
            Keyboard::B => 48,
            Keyboard::N => 49,
            Keyboard::M => 50,
            Keyboard::Comma => 51,
            Keyboard::Dot => 52,
            Keyboard::Slash => 53,
            Keyboard::RightShift => 54,
            Keyboard::KpAsterisk => 55,
            Keyboard::LeftAlt => 56,
            Keyboard::Space => 57,
            Keyboard::CapsLock => 58,
            Keyboard::F1 => 59,
            Keyboard::F2 => 60,
            Keyboard::F3 => 61,
            Keyboard::F4 => 62,
            Keyboard::F5 => 63,
            Keyboard::F6 => 64,
            Keyboard::F7 => 65,
            Keyboard::F8 => 66,
            Keyboard::F9 => 67,
            Keyboard::F10 => 68,
            Keyboard::NumLock => 69,
            Keyboard::ScrollLock => 70,
            Keyboard::Kp7 => 71,
            Keyboard::Kp8 => 72,
            Keyboard::Kp9 => 73,
            Keyboard::KpMinus => 74,
            Keyboard::Kp4 => 75,
            Keyboard::Kp5 => 76,
            Keyboard::Kp6 => 77,
            Keyboard::KpPlus => 78,
            Keyboard::Kp1 => 79,
            Keyboard::Kp2 => 80,
            Keyboard::Kp3 => 81,
            Keyboard::Kp0 => 82,
            Keyboard::KpDot => 83,
            Keyboard::F11 => 87,
            Keyboard::F12 => 88,
            Keyboard::KpEnter => 96,
            Keyboard::RightCtrl => 97,
            Keyboard::KpSlash => 98,
            Keyboard::SysRq => 99,
            Keyboard::RightAlt => 100,
            Keyboard::Home => 102,
            Keyboard::Up => 103,
            Keyboard::PageUp => 104,
            Keyboard::Left => 105,
            Keyboard::Right => 106,
            Keyboard::End => 107,
            Keyboard::Down => 108,
            Keyboard::PageDown => 109,
            Keyboard::Insert => 110,
            Keyboard::Delete => 111,
            Keyboard::Mute => 113,
            Keyboard::VolumeDown => 114,
            Keyboard::VolumeUp => 115,
            Keyboard::Power => 116,
            Keyboard::Pause => 119,
            Keyboard::LeftMeta => 125,
            Keyboard::RightMeta => 126,
            Keyboard::Compose => 127,
        }
    }

    /// The key a raw event code names, if any.
    pub open spec fn of_code(code: u16) -> Option<Keyboard> {
        match code {
            1u16 => Some(Keyboard::Esc),
            2u16 => Some(Keyboard::N1),
            3u16 => Some(Keyboard::N2),
            4u16 => Some(Keyboard::N3),
            5u16 => Some(Keyboard::N4),
            6u16 => Some(Keyboard::N5),
            7u16 => Some(Keyboard::N6),
            8u16 => Some(Keyboard::N7),
            9u16 => Some(Keyboard::N8),
            10u16 => Some(Keyboard::N9),
            11u16 => Some(Keyboard::N0),
            12u16 => Some(Keyboard::Minus),
            13u16 => Some(Keyboard::Equal),
            14u16 => Some(Keyboard::Backspace),
            15u16 => Some(Keyboard::Tab),
            16u16 => Some(Keyboard::Q),
            17u16 => Some(Keyboard::W),
            18u16 => Some(Keyboard::E),
            19u16 => Some(Keyboard::R),
            20u16 => Some(Keyboard::T),
            21u16 => Some(Keyboard::Y),
            22u16 => Some(Keyboard::U),
            23u16 => Some(Keyboard::I),
            24u16 => Some(Keyboard::O),
            25u16 => Some(Keyboard::P),
            26u16 => Some(Keyboard::LeftBrace),
            27u16 => Some(Keyboard::RightBrace),
            28u16 => Some(Keyboard::Enter),
            29u16 => Some(Keyboard::LeftCtrl),
            30u16 => Some(Keyboard::A),
            31u16 => Some(Keyboard::S),
            32u16 => Some(Keyboard::D),
            33u16 => Some(Keyboard::F),
            34u16 => Some(Keyboard::G),
            35u16 => Some(Keyboard::H),
            36u16 => Some(Keyboard::J),
            37u16 => Some(Keyboard::K),
            38u16 => Some(Keyboard::L),
            39u16 => Some(Keyboard::Semicolon),
            40u16 => Some(Keyboard::Apostrophe),
            41u16 => Some(Keyboard::Grave),
            42u16 => Some(Keyboard::LeftShift),
            43u16 => Some(Keyboard::Backslash),
            44u16 => Some(Keyboard::Z),
            45u16 => Some(Keyboard::X),
            46u16 => Some(Keyboard::C),
            47u16 => Some(Keyboard::V),
            48u16 => Some(Keyboard::B),
            49u16 => Some(Keyboard::N),
            50u16 => Some(Keyboard::M),
            51u16 => Some(Keyboard::Comma),
            52u16 => Some(Keyboard::Dot),
            53u16 => Some(Keyboard::Slash),
            54u16 => Some(Keyboard::RightShift),
            55u16 => Some(Keyboard::KpAsterisk),
            56u16 => Some(Keyboard::LeftAlt),
            57u16 => Some(Keyboard::Space),
            58u16 => Some(Keyboard::CapsLock),
            59u16 => Some(Keyboard::F1),
            60u16 => Some(Keyboard::F2),
            61u16 => Some(Keyboard::F3),
            62u16 => Some(Keyboard::F4),
            63u16 => Some(Keyboard::F5),
            64u16 => Some(Keyboard::F6),
            65u16 => Some(Keyboard::F7),
            66u16 => Some(Keyboard::F8),
            67u16 => Some(Keyboard::F9),
            68u16 => Some(Keyboard::F10),
            69u16 => Some(Keyboard::NumLock),
            70u16 => Some(Keyboard::ScrollLock),
            71u16 => Some(Keyboard::Kp7),
            72u16 => Some(Keyboard::Kp8),
            73u16 => Some(Keyboard::Kp9),
            74u16 => Some(Keyboard::KpMinus),
            75u16 => Some(Keyboard::Kp4),
            76u16 => Some(Keyboard::Kp5),
            77u16 => Some(Keyboard::Kp6),
            78u16 => Some(Keyboard::KpPlus),
            79u16 => Some(Keyboard::Kp1),
            80u16 => Some(Keyboard::Kp2),
            81u16 => Some(Keyboard::Kp3),
            82u16 => Some(Keyboard::Kp0),
            83u16 => Some(Keyboard::KpDot),
            87u16 => Some(Keyboard::F11),
            88u16 => Some(Keyboard::F12),
            96u16 => Some(Keyboard::KpEnter),
            97u16 => Some(Keyboard::RightCtrl),
            98u16 => Some(Keyboard::KpSlash),
            99u16 => Some(Keyboard::SysRq),
            100u16 => Some(Keyboard::RightAlt),
            102u16 => Some(Keyboard::Home),
            103u16 => Some(Keyboard::Up),
            104u16 => Some(Keyboard::PageUp),
            105u16 => Some(Keyboard::Left),
            106u16 => Some(Keyboard::Right),
            107u16 => Some(Keyboard::End),
            108u16 => Some(Keyboard::Down),
            109u16 => Some(Keyboard::PageDown),
            110u16 => Some(Keyboard::Insert),
            111u16 => Some(Keyboard::Delete),
            113u16 => Some(Keyboard::Mute),
            114u16 => Some(Keyboard::VolumeDown),
            115u16 => Some(Keyboard::VolumeUp),
            116u16 => Some(Keyboard::Power),
            119u16 => Some(Keyboard::Pause),
            125u16 => Some(Keyboard::LeftMeta),
            126u16 => Some(Keyboard::RightMeta),
            127u16 => Some(Keyboard::Compose),
            _ => None,
        }
    }

    /// Raw code of this key; total on the closed set.
    pub fn to_raw(&self) -> (r: u16)
        ensures
            r == self.code(),
    {
        match self {
            Keyboard::Esc => 1,
            Keyboard::N1 => 2,
            Keyboard::N2 => 3,
            Keyboard::N3 => 4,
            Keyboard::N4 => 5,
            Keyboard::N5 => 6,
            Keyboard::N6 => 7,
            Keyboard::N7 => 8,
            Keyboard::N8 => 9,
            Keyboard::N9 => 10,
            Keyboard::N0 => 11,
            Keyboard::Minus => 12,
            Keyboard::Equal => 13,
            Keyboard::Backspace => 14,
            Keyboard::Tab => 15,
            Keyboard::Q => 16,
            Keyboard::W => 17,
            Keyboard::E => 18,
            Keyboard::R => 19,
            Keyboard::T => 20,
            Keyboard::Y => 21,
            Keyboard::U => 22,
            Keyboard::I => 23,
            Keyboard::O => 24,
            Keyboard::P => 25,
            Keyboard::LeftBrace => 26,
            Keyboard::RightBrace => 27,
            Keyboard::Enter => 28,
            Keyboard::LeftCtrl => 29,
            Keyboard::A => 30,
            Keyboard::S => 31,
            Keyboard::D => 32,
            Keyboard::F => 33,
            Keyboard::G => 34,
            Keyboard::H => 35,
            Keyboard::J => 36,
            Keyboard::K => 37,
            Keyboard::L => 38,
            Keyboard::Semicolon => 39,
            Keyboard::Apostrophe => 40,
            Keyboard::Grave => 41,
            Keyboard::LeftShift => 42,
            Keyboard::Backslash => 43,
            Keyboard::Z => 44,
            Keyboard::X => 45,
            Keyboard::C => 46,
            Keyboard::V => 47,
            Keyboard::B => 48,
            Keyboard::N => 49,
            Keyboard::M => 50,
            Keyboard::Comma => 51,
            Keyboard::Dot => 52,
            Keyboard::Slash => 53,
            Keyboard::RightShift => 54,
            Keyboard::KpAsterisk => 55,
            Keyboard::LeftAlt => 56,
            Keyboard::Space => 57,
            Keyboard::CapsLock => 58,
            Keyboard::F1 => 59,
            Keyboard::F2 => 60,
            Keyboard::F3 => 61,
            Keyboard::F4 => 62,
            Keyboard::F5 => 63,
            Keyboard::F6 => 64,
            Keyboard::F7 => 65,
            Keyboard::F8 => 66,
            Keyboard::F9 => 67,
            Keyboard::F10 => 68,
            Keyboard::NumLock => 69,
            Keyboard::ScrollLock => 70,
            Keyboard::Kp7 => 71,
            Keyboard::Kp8 => 72,
            Keyboard::Kp9 => 73,
            Keyboard::KpMinus => 74,
            Keyboard::Kp4 => 75,
            Keyboard::Kp5 => 76,
            Keyboard::Kp6 => 77,
            Keyboard::KpPlus => 78,
            Keyboard::Kp1 => 79,
            Keyboard::Kp2 => 80,
            Keyboard::Kp3 => 81,
            Keyboard::Kp0 => 82,
            Keyboard::KpDot => 83,
            Keyboard::F11 => 87,
            Keyboard::F12 => 88,
            Keyboard::KpEnter => 96,
            Keyboard::RightCtrl => 97,
            Keyboard::KpSlash => 98,
            Keyboard::SysRq => 99,
            Keyboard::RightAlt => 100,
            Keyboard::Home => 102,
            Keyboard::Up => 103,
            Keyboard::PageUp => 104,
            Keyboard::Left => 105,
            Keyboard::Right => 106,
            Keyboard::End => 107,
            Keyboard::Down => 108,
            Keyboard::PageDown => 109,
            Keyboard::Insert => 110,
            Keyboard::Delete => 111,
            Keyboard::Mute => 113,
            Keyboard::VolumeDown => 114,
            Keyboard::VolumeUp => 115,
            Keyboard::Power => 116,
            Keyboard::Pause => 119,
            Keyboard::LeftMeta => 125,
            Keyboard::RightMeta => 126,
            Keyboard::Compose => 127,
        }
    }

    /// Key named by a raw code, or `None` for a code outside the closed set.
    pub fn from_raw(code: u16) -> (r: Option<Keyboard>)
        ensures
            r == Keyboard::of_code(code),
    {
        match code {
            1 => Some(Keyboard::Esc),
            2 => Some(Keyboard::N1),
            3 => Some(Keyboard::N2),
            4 => Some(Keyboard::N3),
            5 => Some(Keyboard::N4),
            6 => Some(Keyboard::N5),
            7 => Some(Keyboard::N6),
            8 => Some(Keyboard::N7),
            9 => Some(Keyboard::N8),
            10 => Some(Keyboard::N9),
            11 => Some(Keyboard::N0),
            12 => Some(Keyboard::Minus),
            13 => Some(Keyboard::Equal),
            14 => Some(Keyboard::Backspace),
            15 => Some(Keyboard::Tab),
            16 => Some(Keyboard::Q),
            17 => Some(Keyboard::W),
            18 => Some(Keyboard::E),
            19 => Some(Keyboard::R),
            20 => Some(Keyboard::T),
            21 => Some(Keyboard::Y),
            22 => Some(Keyboard::U),
            23 => Some(Keyboard::I),
            24 => Some(Keyboard::O),
            25 => Some(Keyboard::P),
            26 => Some(Keyboard::LeftBrace),
            27 => Some(Keyboard::RightBrace),
            28 => Some(Keyboard::Enter),
            29 => Some(Keyboard::LeftCtrl),
            30 => Some(Keyboard::A),
            31 => Some(Keyboard::S),
            32 => Some(Keyboard::D),
            33 => Some(Keyboard::F),
            34 => Some(Keyboard::G),
            35 => Some(Keyboard::H),
            36 => Some(Keyboard::J),
            37 => Some(Keyboard::K),
            38 => Some(Keyboard::L),
            39 => Some(Keyboard::Semicolon),
            40 => Some(Keyboard::Apostrophe),
            41 => Some(Keyboard::Grave),
            42 => Some(Keyboard::LeftShift),
            43 => Some(Keyboard::Backslash),
            44 => Some(Keyboard::Z),
            45 => Some(Keyboard::X),
            46 => Some(Keyboard::C),
            47 => Some(Keyboard::V),
            48 => Some(Keyboard::B),
            49 => Some(Keyboard::N),
            50 => Some(Keyboard::M),
            51 => Some(Keyboard::Comma),
            52 => Some(Keyboard::Dot),
            53 => Some(Keyboard::Slash),
            54 => Some(Keyboard::RightShift),
            55 => Some(Keyboard::KpAsterisk),
            56 => Some(Keyboard::LeftAlt),
            57 => Some(Keyboard::Space),
            58 => Some(Keyboard::CapsLock),
            59 => Some(Keyboard::F1),
            60 => Some(Keyboard::F2),
            61 => Some(Keyboard::F3),
            62 => Some(Keyboard::F4),
            63 => Some(Keyboard::F5),
            64 => Some(Keyboard::F6),
            65 => Some(Keyboard::F7),
            66 => Some(Keyboard::F8),
            67 => Some(Keyboard::F9),
            68 => Some(Keyboard::F10),
            69 => Some(Keyboard::NumLock),
            70 => Some(Keyboard::ScrollLock),
            71 => Some(Keyboard::Kp7),
            72 => Some(Keyboard::Kp8),
            73 => Some(Keyboard::Kp9),
            74 => Some(Keyboard::KpMinus),
            75 => Some(Keyboard::Kp4),
            76 => Some(Keyboard::Kp5),
            77 => Some(Keyboard::Kp6),
            78 => Some(Keyboard::KpPlus),
            79 => Some(Keyboard::Kp1),
            80 => Some(Keyboard::Kp2),
            81 => Some(Keyboard::Kp3),
            82 => Some(Keyboard::Kp0),
            83 => Some(Keyboard::KpDot),
            87 => Some(Keyboard::F11),
            88 => Some(Keyboard::F12),
            96 => Some(Keyboard::KpEnter),
            97 => Some(Keyboard::RightCtrl),
            98 => Some(Keyboard::KpSlash),
            99 => Some(Keyboard::SysRq),
            100 => Some(Keyboard::RightAlt),
            102 => Some(Keyboard::Home),
            103 => Some(Keyboard::Up),
            104 => Some(Keyboard::PageUp),
            105 => Some(Keyboard::Left),
            106 => Some(Keyboard::Right),
            107 => Some(Keyboard::End),
            108 => Some(Keyboard::Down),
            109 => Some(Keyboard::PageDown),
            110 => Some(Keyboard::Insert),
            111 => Some(Keyboard::Delete),
            113 => Some(Keyboard::Mute),
            114 => Some(Keyboard::VolumeDown),
            115 => Some(Keyboard::VolumeUp),
            116 => Some(Keyboard::Power),
            119 => Some(Keyboard::Pause),
            125 => Some(Keyboard::LeftMeta),
            126 => Some(Keyboard::RightMeta),
            127 => Some(Keyboard::Compose),
            _ => None,
        }
    }
}

impl Button {
    /// The raw event code of this button.
    pub open spec fn code(self) -> u16 {
        match self {
            Button::Left => 0x110,
            Button::Right => 0x111,
            Button::Middle => 0x112,
            Button::Side => 0x113,
            Button::Extra => 0x114,
            Button::Forward => 0x115,
            Button::Back => 0x116,
            Button::Task => 0x117,
        }
    }

    /// The button a raw event code names, if any.
    pub open spec fn of_code(code: u16) -> Option<Button> {
        match code {
            0x110u16 => Some(Button::Left),
            0x111u16 => Some(Button::Right),
            0x112u16 => Some(Button::Middle),
            0x113u16 => Some(Button::Side),
            0x114u16 => Some(Button::Extra),
            0x115u16 => Some(Button::Forward),
            0x116u16 => Some(Button::Back),
            0x117u16 => Some(Button::Task),
            _ => None,
        }
    }

    /// Raw code of this button; total on the closed set.
    pub fn to_raw(&self) -> (r: u16)
        ensures
            r == self.code(),
    {
        match self {
            Button::Left => 0x110,
            Button::Right => 0x111,
            Button::Middle => 0x112,
            Button::Side => 0x113,
            Button::Extra => 0x114,
            Button::Forward => 0x115,
            Button::Back => 0x116,
            Button::Task => 0x117,
        }
    }

    /// Button named by a raw code, or `None` for a code outside the closed set.
    pub fn from_raw(code: u16) -> (r: Option<Button>)
        ensures
            r == Button::of_code(code),
    {
        match code {
            0x110 => Some(Button::Left),
            0x111 => Some(Button::Right),
            0x112 => Some(Button::Middle),
            0x113 => Some(Button::Side),
            0x114 => Some(Button::Extra),
            0x115 => Some(Button::Forward),
            0x116 => Some(Button::Back),
            0x117 => Some(Button::Task),
            _ => None,
        }
    }
}

impl Key {
    /// The raw event code of this key or button.
    pub open spec fn code(self) -> u16 {
        match self {
            Key::Key(key) => key.code(),
            Key::Button(button) => button.code(),
        }
    }

    /// The key or button a raw event code names, if any.  Keyboard codes and
    /// button codes occupy disjoint ranges, so the order of the two lookups
    /// cannot mask anything.
    pub open spec fn of_code(code: u16) -> Option<Key> {
        match Keyboard::of_code(code) {
            Some(key) => Some(Key::Key(key)),
            None => match Button::of_code(code) {
                Some(button) => Some(Key::Button(button)),
                None => None,
            },
        }
    }

    /// Key named by a raw code, or `None` for a code outside the closed set.
    pub fn from_raw(code: u16) -> (r: Option<Key>)
        ensures
            r == Key::of_code(code),
    {
        if let Some(key) = Keyboard::from_raw(code) {
            return Some(Key::Key(key));
        }

        if let Some(button) = Button::from_raw(code) {
            return Some(Key::Button(button));
        }

        None
    }

    /// Raw code of this key.  The closed set carries a code for every member,
    /// so the result is never `None`.
    pub fn to_raw(&self) -> (r: Option<u16>)
        ensures
            r == Some(self.code()),
    {
        match self {
            Key::Key(key) => Some(key.to_raw()),
            Key::Button(button) => Some(button.to_raw()),
        }
    }
}

/// Every key round-trips through its raw code.
pub proof fn lemma_key_code_round_trip(key: Key)
    ensures
        Key::of_code(key.code()) == Some(key),
{
}

/// A raw code names at most one key: a successful lookup returns a key that
/// carries exactly that code.
pub proof fn lemma_key_code_sound(code: u16)
    ensures
        Key::of_code(code) matches Some(key) ==> key.code() == code,
{
}

} // verus!
