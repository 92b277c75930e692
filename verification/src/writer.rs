//! The replaying writer: turns forwarded events into batched synthetic
//! input records.
//!
//! A writer mirrors one remote device.  It buffers one input record per
//! delivered primitive — key and button changes as scan codes and button
//! flags, motion as pointer deltas, absolute positions scaled onto the
//! virtual desktop — and hands the whole batch out at each synchronization
//! barrier, so the surrounding platform layer can commit it in one call.

use vstd::prelude::*;

use crate::abs::{AbsAxis, AbsEvent, AbsInfo};
use crate::devices::copy_vec;
use crate::event::Event;
use crate::key::{Button, Key, KeyEvent, Keyboard};
use crate::keyset::KeySet;
use crate::rel::{RelAxis, RelEvent};
use crate::normalizer::{spec_normalize, AxisNormalizer};
use crate::wire::i32_bits;

verus! {

broadcast use vstd::seq_lib::lemma_seq_contains_after_push;

/// Flag: a key record carries a scan code.
pub const KEYEVENTF_SCANCODE: u32 = 0x0008;

/// Flag: the key went up.
pub const KEYEVENTF_KEYUP: u32 = 0x0002;

/// Flag: the scan code is from the extended set.
pub const KEYEVENTF_EXTENDEDKEY: u32 = 0x0001;

/// Flag: the pointer moved.
pub const MOUSEEVENTF_MOVE: u32 = 0x0001;

pub const MOUSEEVENTF_LEFTDOWN: u32 = 0x0002;

pub const MOUSEEVENTF_LEFTUP: u32 = 0x0004;

pub const MOUSEEVENTF_RIGHTDOWN: u32 = 0x0008;

pub const MOUSEEVENTF_RIGHTUP: u32 = 0x0010;

pub const MOUSEEVENTF_MIDDLEDOWN: u32 = 0x0020;

pub const MOUSEEVENTF_MIDDLEUP: u32 = 0x0040;

pub const MOUSEEVENTF_XDOWN: u32 = 0x0080;

pub const MOUSEEVENTF_XUP: u32 = 0x0100;

pub const MOUSEEVENTF_WHEEL: u32 = 0x0800;

pub const MOUSEEVENTF_HWHEEL: u32 = 0x1000;

pub const MOUSEEVENTF_VIRTUALDESK: u32 = 0x4000;

pub const MOUSEEVENTF_ABSOLUTE: u32 = 0x8000;

/// One buffered synthetic input record.
#[derive(Clone, Copy, Debug, PartialEq, Eq, Structural)]
pub enum Input {
    Keyboard { scan: u16, flags: u32 },
    Mouse { dx: i32, dy: i32, data: u32, flags: u32 },
}

/// The scan code and extended-set flag of a key, for those keys the
/// synthetic keyboard can produce.
pub open spec fn spec_scancode(key: Keyboard) -> Option<(u16, bool)> {
    match key {
        Keyboard::A => Some((0x1E, false)),
        Keyboard::B => Some((0x30, false)),
        Keyboard::C => Some((0x2E, false)),
        Keyboard::D => Some((0x20, false)),
        Keyboard::E => Some((0x12, false)),
        Keyboard::F => Some((0x21, false)),
        Keyboard::G => Some((0x22, false)),
        Keyboard::H => Some((0x23, false)),
        Keyboard::I => Some((0x17, false)),
        Keyboard::J => Some((0x24, false)),
        Keyboard::K => Some((0x25, false)),
        Keyboard::L => Some((0x26, false)),
        Keyboard::M => Some((0x32, false)),
        Keyboard::N => Some((0x31, false)),
        Keyboard::O => Some((0x18, false)),
        Keyboard::P => Some((0x19, false)),
        Keyboard::Q => Some((0x10, false)),
        Keyboard::R => Some((0x13, false)),
        Keyboard::S => Some((0x1F, false)),
        Keyboard::T => Some((0x14, false)),
        Keyboard::U => Some((0x16, false)),
        Keyboard::V => Some((0x2F, false)),
        Keyboard::W => Some((0x11, false)),
        Keyboard::X => Some((0x2D, false)),
        Keyboard::Y => Some((0x15, false)),
        Keyboard::Z => Some((0x2C, false)),
        Keyboard::N1 => Some((0x02, false)),
        Keyboard::N2 => Some((0x03, false)),
        Keyboard::N3 => Some((0x04, false)),
        Keyboard::N4 => Some((0x05, false)),
        Keyboard::N5 => Some((0x06, false)),
        Keyboard::N6 => Some((0x07, false)),
        Keyboard::N7 => Some((0x08, false)),
        Keyboard::N8 => Some((0x09, false)),
        Keyboard::N9 => Some((0x0A, false)),
        Keyboard::N0 => Some((0x0B, false)),
        Keyboard::Up => Some((0x48, true)),
        Keyboard::Down => Some((0x50, true)),
        Keyboard::Left => Some((0x4B, true)),
        Keyboard::Right => Some((0x4D, true)),
        Keyboard::F1 => Some((0x3B, false)),
        Keyboard::F2 => Some((0x3C, false)),
        Keyboard::F3 => Some((0x3D, false)),
        Keyboard::F4 => Some((0x3E, false)),
        Keyboard::F5 => Some((0x3F, false)),
        Keyboard::F6 => Some((0x40, false)),
        Keyboard::F7 => Some((0x41, false)),
        Keyboard::F8 => Some((0x42, false)),
        Keyboard::F9 => Some((0x43, false)),
        Keyboard::F10 => Some((0x44, false)),
        Keyboard::F11 => Some((0x57, false)),
        Keyboard::F12 => Some((0x58, false)),
        Keyboard::Enter => Some((0x1C, false)),
        Keyboard::Minus => Some((0x0C, false)),
        Keyboard::Equal => Some((0x0D, false)),
        Keyboard::LeftBrace => Some((0x1A, false)),
        Keyboard::RightBrace => Some((0x1B, false)),
        Keyboard::Apostrophe => Some((0x28, false)),
        Keyboard::Slash => Some((0x35, false)),
        Keyboard::Dot => Some((0x34, false)),
        Keyboard::Semicolon => Some((0x27, false)),
        Keyboard::Grave => Some((0x29, false)),
        Keyboard::Comma => Some((0x33, false)),
        Keyboard::Backslash => Some((0x2B, false)),
        Keyboard::Esc => Some((0x01, false)),
        Keyboard::Backspace => Some((0x0E, false)),
        Keyboard::Tab => Some((0x0F, false)),
        Keyboard::Space => Some((0x39, false)),
        Keyboard::CapsLock => Some((0x3A, false)),
        Keyboard::LeftShift => Some((0x2A, false)),
        Keyboard::RightShift => Some((0x36, false)),
        Keyboard::LeftCtrl => Some((0x1D, false)),
        Keyboard::RightCtrl => Some((0x1D, true)),
        Keyboard::LeftAlt => Some((0x38, false)),
        Keyboard::RightAlt => Some((0x38, true)),
        Keyboard::LeftMeta => Some((0x5B, true)),
        Keyboard::RightMeta => Some((0x5C, true)),
        Keyboard::SysRq => Some((0x54, false)),
        Keyboard::ScrollLock => Some((0x46, false)),
        Keyboard::Compose => Some((0x5D, true)),
        Keyboard::Insert => Some((0x52, true)),
        Keyboard::Delete => Some((0x53, true)),
        Keyboard::Home => Some((0x47, true)),
        Keyboard::End => Some((0x4F, true)),
        Keyboard::PageUp => Some((0x49, true)),
        Keyboard::PageDown => Some((0x51, true)),
        Keyboard::NumLock => Some((0x45, false)),
        Keyboard::Kp0 => Some((0x52, false)),
        Keyboard::Kp1 => Some((0x4F, false)),
        Keyboard::Kp2 => Some((0x50, false)),
        Keyboard::Kp3 => Some((0x51, false)),
        Keyboard::Kp4 => Some((0x4B, false)),
        Keyboard::Kp5 => Some((0x4C, false)),
        Keyboard::Kp6 => Some((0x4D, false)),
        Keyboard::Kp7 => Some((0x47, false)),
        Keyboard::Kp8 => Some((0x48, false)),
        Keyboard::Kp9 => Some((0x49, false)),
        Keyboard::KpDot => Some((0x53, false)),
        Keyboard::KpAsterisk => Some((0x37, false)),
        Keyboard::KpEnter => Some((0x1C, true)),
        Keyboard::KpMinus => Some((0x4A, false)),
        Keyboard::KpPlus => Some((0x4E, false)),
        Keyboard::KpSlash => Some((0x35, true)),
        _ => None,
    }
}

/// Scan code of a key; `None` for a key with no synthetic counterpart.
pub fn map_key_to_scancode(key: &Keyboard) -> (r: Option<(u16, bool)>)
    ensures
        r == spec_scancode(*key),
{
    match key {
        Keyboard::A => Some((0x1E, false)),
        Keyboard::B => Some((0x30, false)),
        Keyboard::C => Some((0x2E, false)),
        Keyboard::D => Some((0x20, false)),
        Keyboard::E => Some((0x12, false)),
        Keyboard::F => Some((0x21, false)),
        Keyboard::G => Some((0x22, false)),
        Keyboard::H => Some((0x23, false)),
        Keyboard::I => Some((0x17, false)),
        Keyboard::J => Some((0x24, false)),
        Keyboard::K => Some((0x25, false)),
        Keyboard::L => Some((0x26, false)),
        Keyboard::M => Some((0x32, false)),
        Keyboard::N => Some((0x31, false)),
        Keyboard::O => Some((0x18, false)),
        Keyboard::P => Some((0x19, false)),
        Keyboard::Q => Some((0x10, false)),
        Keyboard::R => Some((0x13, false)),
        Keyboard::S => Some((0x1F, false)),
        Keyboard::T => Some((0x14, false)),
        Keyboard::U => Some((0x16, false)),
        Keyboard::V => Some((0x2F, false)),
        Keyboard::W => Some((0x11, false)),
        Keyboard::X => Some((0x2D, false)),
        Keyboard::Y => Some((0x15, false)),
        Keyboard::Z => Some((0x2C, false)),
        Keyboard::N1 => Some((0x02, false)),
        Keyboard::N2 => Some((0x03, false)),
        Keyboard::N3 => Some((0x04, false)),
        Keyboard::N4 => Some((0x05, false)),
        Keyboard::N5 => Some((0x06, false)),
        Keyboard::N6 => Some((0x07, false)),
        Keyboard::N7 => Some((0x08, false)),
        Keyboard::N8 => Some((0x09, false)),
        Keyboard::N9 => Some((0x0A, false)),
        Keyboard::N0 => Some((0x0B, false)),
        Keyboard::Up => Some((0x48, true)),
        Keyboard::Down => Some((0x50, true)),
        Keyboard::Left => Some((0x4B, true)),
        Keyboard::Right => Some((0x4D, true)),
        Keyboard::F1 => Some((0x3B, false)),
        Keyboard::F2 => Some((0x3C, false)),
        Keyboard::F3 => Some((0x3D, false)),
        Keyboard::F4 => Some((0x3E, false)),
        Keyboard::F5 => Some((0x3F, false)),
        Keyboard::F6 => Some((0x40, false)),
        Keyboard::F7 => Some((0x41, false)),
        Keyboard::F8 => Some((0x42, false)),
        Keyboard::F9 => Some((0x43, false)),
        Keyboard::F10 => Some((0x44, false)),
        Keyboard::F11 => Some((0x57, false)),
        Keyboard::F12 => Some((0x58, false)),
        Keyboard::Enter => Some((0x1C, false)),
        Keyboard::Minus => Some((0x0C, false)),
        Keyboard::Equal => Some((0x0D, false)),
        Keyboard::LeftBrace => Some((0x1A, false)),
        Keyboard::RightBrace => Some((0x1B, false)),
        Keyboard::Apostrophe => Some((0x28, false)),
        Keyboard::Slash => Some((0x35, false)),
        Keyboard::Dot => Some((0x34, false)),
        Keyboard::Semicolon => Some((0x27, false)),
        Keyboard::Grave => Some((0x29, false)),
        Keyboard::Comma => Some((0x33, false)),
        Keyboard::Backslash => Some((0x2B, false)),
        Keyboard::Esc => Some((0x01, false)),
        Keyboard::Backspace => Some((0x0E, false)),
        Keyboard::Tab => Some((0x0F, false)),
        Keyboard::Space => Some((0x39, false)),
        Keyboard::CapsLock => Some((0x3A, false)),
        Keyboard::LeftShift => Some((0x2A, false)),
        Keyboard::RightShift => Some((0x36, false)),
        Keyboard::LeftCtrl => Some((0x1D, false)),
        Keyboard::RightCtrl => Some((0x1D, true)),
        Keyboard::LeftAlt => Some((0x38, false)),
        Keyboard::RightAlt => Some((0x38, true)),
        Keyboard::LeftMeta => Some((0x5B, true)),
        Keyboard::RightMeta => Some((0x5C, true)),
        Keyboard::SysRq => Some((0x54, false)),
        Keyboard::ScrollLock => Some((0x46, false)),
        Keyboard::Compose => Some((0x5D, true)),
        Keyboard::Insert => Some((0x52, true)),
        Keyboard::Delete => Some((0x53, true)),
        Keyboard::Home => Some((0x47, true)),
        Keyboard::End => Some((0x4F, true)),
        Keyboard::PageUp => Some((0x49, true)),
        Keyboard::PageDown => Some((0x51, true)),
        Keyboard::NumLock => Some((0x45, false)),
        Keyboard::Kp0 => Some((0x52, false)),
        Keyboard::Kp1 => Some((0x4F, false)),
        Keyboard::Kp2 => Some((0x50, false)),
        Keyboard::Kp3 => Some((0x51, false)),
        Keyboard::Kp4 => Some((0x4B, false)),
        Keyboard::Kp5 => Some((0x4C, false)),
        Keyboard::Kp6 => Some((0x4D, false)),
        Keyboard::Kp7 => Some((0x47, false)),
        Keyboard::Kp8 => Some((0x48, false)),
        Keyboard::Kp9 => Some((0x49, false)),
        Keyboard::KpDot => Some((0x53, false)),
        Keyboard::KpAsterisk => Some((0x37, false)),
        Keyboard::KpEnter => Some((0x1C, true)),
        Keyboard::KpMinus => Some((0x4A, false)),
        Keyboard::KpPlus => Some((0x4E, false)),
        Keyboard::KpSlash => Some((0x35, true)),
        _ => None,
    }
}

/// The pointer flags and data of a button change, for the buttons the
/// synthetic pointer can produce.
pub open spec fn spec_button_flags(button: Button, down: bool) -> Option<(u32, u32)> {
    match button {
        Button::Left => Some(
            (
                if down {
                    MOUSEEVENTF_LEFTDOWN
                } else {
                    MOUSEEVENTF_LEFTUP
                },
                0,
            ),
        ),
        Button::Right => Some(
            (
                if down {
                    MOUSEEVENTF_RIGHTDOWN
                } else {
                    MOUSEEVENTF_RIGHTUP
                },
                0,
            ),
        ),
        Button::Middle => Some(
            (
                if down {
                    MOUSEEVENTF_MIDDLEDOWN
                } else {
                    MOUSEEVENTF_MIDDLEUP
                },
                0,
            ),
        ),
        Button::Side => Some(
            (
                if down {
                    MOUSEEVENTF_XDOWN
                } else {
                    MOUSEEVENTF_XUP
                },
                1,
            ),
        ),
        Button::Extra => Some(
            (
                if down {
                    MOUSEEVENTF_XDOWN
                } else {
                    MOUSEEVENTF_XUP
                },
                2,
            ),
        ),
        _ => None,
    }
}

/// Flags and data of a button change; `None` for an unsupported button.
pub fn map_button(button: &Button, down: &bool) -> (r: Option<(u32, u32)>)
    ensures
        r == spec_button_flags(*button, *down),
{
    match button {
        Button::Left => Some(
            (
                if *down {
                    MOUSEEVENTF_LEFTDOWN
                } else {
                    MOUSEEVENTF_LEFTUP
                },
                0,
            ),
        ),
        Button::Right => Some(
            (
                if *down {
                    MOUSEEVENTF_RIGHTDOWN
                } else {
                    MOUSEEVENTF_RIGHTUP
                },
                0,
            ),
        ),
        Button::Middle => Some(
            (
                if *down {
                    MOUSEEVENTF_MIDDLEDOWN
                } else {
                    MOUSEEVENTF_MIDDLEUP
                },
                0,
            ),
        ),
        Button::Side => Some(
            (
                if *down {
                    MOUSEEVENTF_XDOWN
                } else {
                    MOUSEEVENTF_XUP
                },
                1,
            ),
        ),
        Button::Extra => Some(
            (
                if *down {
                    MOUSEEVENTF_XDOWN
                } else {
                    MOUSEEVENTF_XUP
                },
                2,
            ),
        ),
        _ => None,
    }
}

/// The key record for one scan code and direction.
pub open spec fn spec_key_input(scan: u16, extended: bool, down: bool) -> Input {
    Input::Keyboard {
        scan,
        flags: KEYEVENTF_SCANCODE | (if down {
            0
        } else {
            KEYEVENTF_KEYUP
        }) | (if extended {
            KEYEVENTF_EXTENDEDKEY
        } else {
            0
        }),
    }
}

/// The pointer record for a move.
pub open spec fn spec_mouse_move(absolute: bool, dx: i32, dy: i32) -> Input {
    Input::Mouse {
        dx,
        dy,
        data: 0,
        flags: MOUSEEVENTF_MOVE | (if absolute {
            MOUSEEVENTF_ABSOLUTE | MOUSEEVENTF_VIRTUALDESK
        } else {
            0
        }),
    }
}

/// The pointer record for a wheel turn.
pub open spec fn spec_wheel(horizontal: bool, delta: i32) -> Input {
    Input::Mouse {
        dx: 0,
        dy: 0,
        data: i32_bits(delta),
        flags: if horizontal {
            MOUSEEVENTF_HWHEEL
        } else {
            MOUSEEVENTF_WHEEL
        },
    }
}

/// The registry entry one announced absolute axis yields.
pub open spec fn norm_entry(p: (AbsAxis, AbsInfo)) -> (AbsAxis, AxisNormalizer) {
    (p.0, (AxisNormalizer { min: p.1.min, max: p.1.max }))
}

/// The normalizer of an axis: the last one recorded for it wins, as the
/// most recent capability announcement should.
pub open spec fn spec_find_norm(
    list: Seq<(AbsAxis, AxisNormalizer)>,
    axis: AbsAxis,
) -> Option<AxisNormalizer>
    decreases list.len(),
{
    if list.len() == 0 {
        None
    } else if list.last().0 == axis {
        Some(list.last().1)
    } else {
        spec_find_norm(list.drop_last(), axis)
    }
}

/// What one delivered event appends to the buffer.
pub open spec fn spec_appended(
    hi_wheel: bool,
    hi_hwheel: bool,
    abs_norm: Seq<(AbsAxis, AxisNormalizer)>,
    ev: Event,
) -> Seq<Input> {
    match ev {
        Event::Key(ke) => match ke.key {
            Key::Key(k) => match spec_scancode(k) {
                Some((scan, extended)) => seq![spec_key_input(scan, extended, ke.down)],
                None => Seq::empty(),
            },
            Key::Button(b) => match spec_button_flags(b, ke.down) {
                Some((flags, data)) => seq![(Input::Mouse { dx: 0, dy: 0, data, flags })],
                None => Seq::empty(),
            },
        },
        Event::Rel(re) => match re.axis {
            RelAxis::X => seq![spec_mouse_move(false, re.value, 0)],
            RelAxis::Y => seq![spec_mouse_move(false, 0, re.value)],
            RelAxis::Wheel => if !hi_wheel {
                seq![spec_wheel(false, (re.value * 120) as i32)]
            } else {
                Seq::empty()
            },
            RelAxis::HWheel => if !hi_hwheel {
                seq![spec_wheel(true, (re.value * 120) as i32)]
            } else {
                Seq::empty()
            },
            RelAxis::WheelHiRes => if hi_wheel {
                seq![spec_wheel(false, re.value)]
            } else {
                Seq::empty()
            },
            RelAxis::HWheelHiRes => if hi_hwheel {
                seq![spec_wheel(true, re.value)]
            } else {
                Seq::empty()
            },
            _ => Seq::empty(),
        },
        Event::Abs(ae) => match ae {
            AbsEvent::Axis { axis, value } => match spec_find_norm(abs_norm, axis) {
                Some(n) => match axis {
                    AbsAxis::X => seq![
                        spec_mouse_move(
                            true,
                            spec_normalize(n.min as int, n.max as int, value as int) as i32,
                            0,
                        ),
                    ],
                    AbsAxis::Y => seq![
                        spec_mouse_move(
                            true,
                            0,
                            spec_normalize(n.min as int, n.max as int, value as int) as i32,
                        ),
                    ],
                    _ => Seq::empty(),
                },
                None => Seq::empty(),
            },
            AbsEvent::MtToolType { .. } => Seq::empty(),
        },
        Event::Sync(_) => Seq::empty(),
    }
}

/// The machine limits a delivered event must respect: a scaled wheel turn
/// and a normalized absolute position must fit their types.
pub open spec fn spec_write_ok(abs_norm: Seq<(AbsAxis, AxisNormalizer)>, ev: Event) -> bool {
    match ev {
        Event::Rel(re) => (re.axis is Wheel || re.axis is HWheel) ==> -17895697 <= re.value
            <= 17895697,
        Event::Abs(ae) => match ae {
            AbsEvent::Axis { axis, value } => match spec_find_norm(abs_norm, axis) {
                Some(n) => {
                    &&& 0 <= n.min <= n.max
                    &&& n.min <= value <= n.max
                    &&& spec_normalize(n.min as int, n.max as int, value as int) <= i32::MAX
                },
                None => true,
            },
            AbsEvent::MtToolType { .. } => true,
        },
        _ => true,
    }
}

/// A writer mirroring one remote device.
pub struct WriterWindows {
    pub buffer: Vec<Input>,
    pub hi_wheel: bool,
    pub hi_hwheel: bool,
    pub abs_norm: Vec<(AbsAxis, AxisNormalizer)>,
}

impl WriterWindows {
    /// A builder for a writer.
    pub fn builder() -> (r: WriterWindowsBuilder)
        ensures
            r.hi_wheel == false,
            r.hi_hwheel == false,
            r.abs_norm@.len() == 0,
    {
        WriterWindowsBuilder::new()
    }

    /// Append one record.
    pub fn push(&mut self, input: Input)
        ensures
            final(self).buffer@ == old(self).buffer@.push(input),
            final(self).hi_wheel == old(self).hi_wheel,
            final(self).hi_hwheel == old(self).hi_hwheel,
            final(self).abs_norm@ == old(self).abs_norm@,
    {
        self.buffer.push(input);
    }

    /// Hand the batch out and clear the buffer.
    pub fn flush(&mut self) -> (r: Vec<Input>)
        ensures
            r@ == old(self).buffer@,
            final(self).buffer@.len() == 0,
            final(self).hi_wheel == old(self).hi_wheel,
            final(self).hi_hwheel == old(self).hi_hwheel,
            final(self).abs_norm@ == old(self).abs_norm@,
    {
        let out = copy_vec(&self.buffer);
        self.buffer = Vec::new();
        out
    }

    /// Buffer one key change.
    pub fn key(&mut self, key: &Keyboard, down: &bool)
        ensures
            final(self).buffer@ == old(self).buffer@ + (match spec_scancode(*key) {
                Some((scan, extended)) => seq![spec_key_input(scan, extended, *down)],
                None => Seq::<Input>::empty(),
            }),
            final(self).hi_wheel == old(self).hi_wheel,
            final(self).hi_hwheel == old(self).hi_hwheel,
            final(self).abs_norm@ == old(self).abs_norm@,
    {
        match map_key_to_scancode(key) {
            Some((scan, extended)) => {
                let flags = KEYEVENTF_SCANCODE | (if *down {
                    0
                } else {
                    KEYEVENTF_KEYUP
                }) | (if extended {
                    KEYEVENTF_EXTENDEDKEY
                } else {
                    0
                });
                self.push(Input::Keyboard { scan, flags });
                proof {
                    assert(self.buffer@
                        =~= old(self).buffer@ + seq![spec_key_input(scan, extended, *down)]);
                }
            },
            None => {
                proof {
                    assert(self.buffer@ =~= old(self).buffer@ + Seq::<Input>::empty());
                }
            },
        }
    }

    /// Buffer one button change.
    pub fn button(&mut self, button: &Button, down: &bool)
        ensures
            final(self).buffer@ == old(self).buffer@ + (match spec_button_flags(*button, *down) {
                Some((flags, data)) => seq![(Input::Mouse { dx: 0, dy: 0, data, flags })],
                None => Seq::<Input>::empty(),
            }),
            final(self).hi_wheel == old(self).hi_wheel,
            final(self).hi_hwheel == old(self).hi_hwheel,
            final(self).abs_norm@ == old(self).abs_norm@,
    {
        match map_button(button, down) {
            Some((flags, data)) => {
                self.push(Input::Mouse { dx: 0, dy: 0, data, flags });
                proof {
                    assert(self.buffer@
                        =~= old(self).buffer@ + seq![(Input::Mouse { dx: 0, dy: 0, data, flags })]);
                }
            },
            None => {
                proof {
                    assert(self.buffer@ =~= old(self).buffer@ + Seq::<Input>::empty());
                }
            },
        }
    }

    /// Buffer one pointer move.
    pub fn mouse_move(&mut self, absolute: bool, dx: i32, dy: i32)
        ensures
            final(self).buffer@ == old(self).buffer@.push(spec_mouse_move(absolute, dx, dy)),
            final(self).hi_wheel == old(self).hi_wheel,
            final(self).hi_hwheel == old(self).hi_hwheel,
            final(self).abs_norm@ == old(self).abs_norm@,
    {
        let flags = MOUSEEVENTF_MOVE | (if absolute {
            MOUSEEVENTF_ABSOLUTE | MOUSEEVENTF_VIRTUALDESK
        } else {
            0
        });
        self.push(Input::Mouse { dx, dy, data: 0, flags });
    }

    /// Buffer one vertical wheel turn.
    pub fn mouse_wheel(&mut self, delta: i32)
        ensures
            final(self).buffer@ == old(self).buffer@.push(spec_wheel(false, delta)),
            final(self).hi_wheel == old(self).hi_wheel,
            final(self).hi_hwheel == old(self).hi_hwheel,
            final(self).abs_norm@ == old(self).abs_norm@,
    {
        let data: u32 = if delta >= 0 {
            delta as u32
        } else {
            ((delta as i64) + 0x100000000) as u32
        };
        self.push(Input::Mouse { dx: 0, dy: 0, data, flags: MOUSEEVENTF_WHEEL });
    }

    /// Buffer one horizontal wheel turn.
    pub fn mouse_hwheel(&mut self, delta: i32)
        ensures
            final(self).buffer@ == old(self).buffer@.push(spec_wheel(true, delta)),
            final(self).hi_wheel == old(self).hi_wheel,
            final(self).hi_hwheel == old(self).hi_hwheel,
            final(self).abs_norm@ == old(self).abs_norm@,
    {
        let data: u32 = if delta >= 0 {
            delta as u32
        } else {
            ((delta as i64) + 0x100000000) as u32
        };
        self.push(Input::Mouse { dx: 0, dy: 0, data, flags: MOUSEEVENTF_HWHEEL });
    }

    /// The last normalizer recorded for an axis.
    pub fn find_norm(&self, axis: AbsAxis) -> (r: Option<AxisNormalizer>)
        ensures
            r == spec_find_norm(self.abs_norm@, axis),
    {
        let mut i: usize = self.abs_norm.len();
        proof {
            assert(self.abs_norm@.take(i as int) =~= self.abs_norm@);
        }
        while i > 0
            invariant
                i <= self.abs_norm@.len(),
                spec_find_norm(self.abs_norm@, axis) == spec_find_norm(
                    self.abs_norm@.take(i as int),
                    axis,
                ),
            decreases i,
        {
            let (a, n) = self.abs_norm[i - 1];
            proof {
                assert(self.abs_norm@.take(i as int).last() == self.abs_norm@[i - 1]);
                assert(self.abs_norm@.take(i as int).drop_last()
                    =~= self.abs_norm@.take(i - 1));
            }
            if a == axis {
                return Some(n);
            }
            i -= 1;
        }
        proof {
            assert(self.abs_norm@.take(0) =~= Seq::<(AbsAxis, AxisNormalizer)>::empty());
        }
        None
    }

    /// Replay one delivered event: buffer its records, and at a
    /// synchronization barrier hand the whole batch out for the platform
    /// layer to commit in one call.
    pub fn write(&mut self, event: &Event) -> (r: Vec<Input>)
        requires
            spec_write_ok(old(self).abs_norm@, *event),
        ensures
            final(self).hi_wheel == old(self).hi_wheel,
            final(self).hi_hwheel == old(self).hi_hwheel,
            final(self).abs_norm@ == old(self).abs_norm@,
            *event is Sync ==> r@ == old(self).buffer@ && final(self).buffer@.len() == 0,
            !(*event is Sync) ==> r@.len() == 0 && final(self).buffer@ == old(self).buffer@
                + spec_appended(
                old(self).hi_wheel,
                old(self).hi_hwheel,
                old(self).abs_norm@,
                *event,
            ),
    {
        let ghost appended = spec_appended(
            old(self).hi_wheel,
            old(self).hi_hwheel,
            old(self).abs_norm@,
            *event,
        );
        match event {
            Event::Key(ke) => {
                match &ke.key {
                    Key::Key(key) => self.key(key, &ke.down),
                    Key::Button(button) => self.button(button, &ke.down),
                }
                Vec::new()
            },
            Event::Rel(re) => {
                match re.axis {
                    RelAxis::X => self.mouse_move(false, re.value, 0),
                    RelAxis::Y => self.mouse_move(false, 0, re.value),
                    RelAxis::Wheel => if !self.hi_wheel {
                        self.mouse_wheel(re.value * 120);
                    },
                    RelAxis::HWheel => if !self.hi_hwheel {
                        self.mouse_hwheel(re.value * 120);
                    },
                    RelAxis::WheelHiRes => if self.hi_wheel {
                        self.mouse_wheel(re.value);
                    },
                    RelAxis::HWheelHiRes => if self.hi_hwheel {
                        self.mouse_hwheel(re.value);
                    },
                    _ => {},
                }
                proof {
                    assert(self.buffer@ =~= old(self).buffer@ + appended);
                }
                Vec::new()
            },
            Event::Abs(ae) => {
                match ae {
                    AbsEvent::Axis { axis, value } => match self.find_norm(*axis) {
                        Some(normalizer) => {
                            let scaled = normalizer.normalize(*value);
                            match axis {
                                AbsAxis::X => self.mouse_move(true, scaled, 0),
                                AbsAxis::Y => self.mouse_move(true, 0, scaled),
                                _ => {},
                            }
                        },
                        None => {},
                    },
                    AbsEvent::MtToolType { .. } => {},
                }
                proof {
                    assert(self.buffer@ =~= old(self).buffer@ + appended);
                }
                Vec::new()
            },
            Event::Sync(_) => self.flush(),
        }
    }
}

/// Builds a writer from a device announcement's capabilities.
pub struct WriterWindowsBuilder {
    pub hi_wheel: bool,
    pub hi_hwheel: bool,
    pub abs_norm: Vec<(AbsAxis, AxisNormalizer)>,
}

impl WriterWindowsBuilder {
    /// A builder with nothing recorded.
    pub fn new() -> (r: WriterWindowsBuilder)
        ensures
            r.hi_wheel == false,
            r.hi_hwheel == false,
            r.abs_norm@.len() == 0,
    {
        WriterWindowsBuilder { hi_wheel: false, hi_hwheel: false, abs_norm: Vec::new() }
    }

    /// Record the relative axes: high-resolution wheels silence the coarse
    /// wheel events.
    pub fn rel(self, items: &Vec<RelAxis>) -> (r: WriterWindowsBuilder)
        ensures
            r.hi_wheel == (self.hi_wheel || items@.contains(RelAxis::WheelHiRes)),
            r.hi_hwheel == (self.hi_hwheel || items@.contains(RelAxis::HWheelHiRes)),
            r.abs_norm@ == self.abs_norm@,
    {
        let mut hi_wheel = self.hi_wheel;
        let mut hi_hwheel = self.hi_hwheel;
        let mut i: usize = 0;
        while i < items.len()
            invariant
                i <= items@.len(),
                hi_wheel == (self.hi_wheel || items@.take(i as int).contains(RelAxis::WheelHiRes)),
                hi_hwheel == (self.hi_hwheel || items@.take(i as int).contains(
                    RelAxis::HWheelHiRes,
                )),
            decreases items.len() - i,
        {
            proof {
                assert(items@.take(i + 1) =~= items@.take(i as int).push(items@[i as int]));
            }
            match items[i] {
                RelAxis::WheelHiRes => {
                    hi_wheel = true;
                },
                RelAxis::HWheelHiRes => {
                    hi_hwheel = true;
                },
                _ => {},
            }
            i += 1;
        }
        proof {
            assert(items@.take(items@.len() as int) =~= items@);
        }
        WriterWindowsBuilder { hi_wheel, hi_hwheel, abs_norm: self.abs_norm }
    }

    /// Record the absolute axes with their ranges: each is appended, so a
    /// repeated axis ends up governed by its last announcement.
    pub fn abs(self, items: &Vec<(AbsAxis, AbsInfo)>) -> (r: WriterWindowsBuilder)
        ensures
            r.hi_wheel == self.hi_wheel,
            r.hi_hwheel == self.hi_hwheel,
            r.abs_norm@.len() == self.abs_norm@.len() + items@.len(),
            forall|j: int|
                0 <= j < self.abs_norm@.len() ==> r.abs_norm@[j] == self.abs_norm@[j],
            forall|j: int|
                0 <= j < items@.len() ==> r.abs_norm@[self.abs_norm@.len() + j] == norm_entry(
                    #[trigger] items@[j],
                ),
    {
        let mut abs_norm = self.abs_norm;
        let mut i: usize = 0;
        while i < items.len()
            invariant
                i <= items@.len(),
                abs_norm@.len() == self.abs_norm@.len() + i,
                forall|j: int|
                    0 <= j < self.abs_norm@.len() ==> abs_norm@[j] == self.abs_norm@[j],
                forall|j: int|
                    0 <= j < i ==> abs_norm@[self.abs_norm@.len() + j] == norm_entry(
                        #[trigger] items@[j],
                    ),
            decreases items.len() - i,
        {
            let (axis, info) = items[i];
            abs_norm.push((axis, AxisNormalizer::new(info.min, info.max)));
            i += 1;
        }
        WriterWindowsBuilder { hi_wheel: self.hi_wheel, hi_hwheel: self.hi_hwheel, abs_norm }
    }

    /// Record the supported keys.  The synthetic devices need no key list,
    /// so this only passes the builder on.
    pub fn key(self, items: &KeySet) -> (r: WriterWindowsBuilder)
        ensures
            r == self,
    {
        let _ = items;
        self
    }

    /// The finished writer, with an empty buffer.
    pub fn build(self) -> (r: WriterWindows)
        ensures
            r.buffer@.len() == 0,
            r.hi_wheel == self.hi_wheel,
            r.hi_hwheel == self.hi_hwheel,
            r.abs_norm@ == self.abs_norm@,
    {
        WriterWindows {
            buffer: Vec::new(),
            hi_wheel: self.hi_wheel,
            hi_hwheel: self.hi_hwheel,
            abs_norm: self.abs_norm,
        }
    }
}

} // verus!
