//! The keys a button can be mapped to, and the names by which a configuration
//! refers to them.
//!
//! A key is either a standard keyboard key or a key of the numeric keypad.
//! Both are `uinput`'s own enumerations, so a mapped key can be handed to a
//! synthetic keyboard as it is. Only the names listed here are accepted in a
//! configuration: standard keys by the bare name of the variant, keypad keys
//! with `KP::` in front.

use crate::text::{chars_of, leading, spells};
use uinput::event::keyboard::{Key, KeyPad};
use uinput::event::{Code, Kind};
use vstd::prelude::*;

verus! {

/// `uinput`'s `Key`, the standard keys. It is an enumeration of plain
/// variants without fields, and is declared with them, so that the functions
/// below can build a key and tell one key from another.
#[verifier::external_type_specification]
pub struct ExKey(Key);

/// `uinput`'s `KeyPad`, the keys of the numeric keypad: an enumeration of
/// plain variants without fields, declared with them for the same reason.
#[verifier::external_type_specification]
pub struct ExKeyPad(KeyPad);

/// The event type under which the kernel reports keys and buttons (`EV_KEY`).
pub const KEY_EVENT: i32 = 1;

/// The event code that `uinput` gives a standard key.
pub uninterp spec fn key_code_of(key: Key) -> i32;

/// The event code that `uinput` gives a keypad key.
pub uninterp spec fn keypad_code_of(key: KeyPad) -> i32;

/// `uinput`'s `Kind::kind` on a `Key`: it answers `EV_KEY`, which is 1, for
/// every variant.
#[verifier::external_body]
fn key_kind(key: &Key) -> (kind: i32)
    ensures
        kind == KEY_EVENT,
{
    key.kind()
}

/// `uinput`'s `Kind::kind` on a `KeyPad`: it answers `EV_KEY`, which is 1, for
/// every variant.
#[verifier::external_body]
fn keypad_kind(key: &KeyPad) -> (kind: i32)
    ensures
        kind == KEY_EVENT,
{
    key.kind()
}

/// `uinput`'s `Code::code` on a `Key`: a table from variant to the kernel's
/// `KEY_*` constant. The table is not restated here; the contract says only
/// that the answer is a function of the variant.
#[verifier::external_body]
fn key_code(key: &Key) -> (code: i32)
    ensures
        code == key_code_of(*key),
{
    key.code()
}

/// `uinput`'s `Code::code` on a `KeyPad`: a table from variant to the kernel's
/// `KEY_KP*` constant. The table is not restated here; the contract says only
/// that the answer is a function of the variant.
#[verifier::external_body]
fn keypad_code(key: &KeyPad) -> (code: i32)
    ensures
        code == keypad_code_of(*key),
{
    key.code()
}

/// The name by which a configuration refers to a standard key.
pub open spec fn key_name(key: Key) -> Seq<char> {
    match key {
        Key::Reserved => "Reserved"@,
        Key::Esc => "Esc"@,
        Key::_1 => "_1"@,
        Key::_2 => "_2"@,
        Key::_3 => "_3"@,
        Key::_4 => "_4"@,
        Key::_5 => "_5"@,
        Key::_6 => "_6"@,
        Key::_7 => "_7"@,
        Key::_8 => "_8"@,
        Key::_9 => "_9"@,
        Key::_0 => "_0"@,
        Key::Minus => "Minus"@,
        Key::Equal => "Equal"@,
        Key::BackSpace => "BackSpace"@,
        Key::Tab => "Tab"@,
        Key::Q => "Q"@,
        Key::W => "W"@,
        Key::E => "E"@,
        Key::R => "R"@,
        Key::T => "T"@,
        Key::Y => "Y"@,
        Key::U => "U"@,
        Key::I => "I"@,
        Key::O => "O"@,
        Key::P => "P"@,
        Key::LeftBrace => "LeftBrace"@,
        Key::RightBrace => "RightBrace"@,
        Key::Enter => "Enter"@,
        Key::LeftControl => "LeftControl"@,
        Key::A => "A"@,
        Key::S => "S"@,
        Key::D => "D"@,
        Key::F => "F"@,
        Key::G => "G"@,
        Key::H => "H"@,
        Key::J => "J"@,
        Key::K => "K"@,
        Key::L => "L"@,
        Key::SemiColon => "SemiColon"@,
        Key::Apostrophe => "Apostrophe"@,
        Key::Grave => "Grave"@,
        Key::LeftShift => "LeftShift"@,
        Key::BackSlash => "BackSlash"@,
        Key::Z => "Z"@,
        Key::X => "X"@,
        Key::C => "C"@,
        Key::V => "V"@,
        Key::B => "B"@,
        Key::N => "N"@,
        Key::M => "M"@,
        Key::Comma => "Comma"@,
        Key::Dot => "Dot"@,
        Key::Slash => "Slash"@,
        Key::RightShift => "RightShift"@,
        Key::LeftAlt => "LeftAlt"@,
        Key::Space => "Space"@,
        Key::CapsLock => "CapsLock"@,
        Key::F1 => "F1"@,
        Key::F2 => "F2"@,
        Key::F3 => "F3"@,
        Key::F4 => "F4"@,
        Key::F5 => "F5"@,
        Key::F6 => "F6"@,
        Key::F7 => "F7"@,
        Key::F8 => "F8"@,
        Key::F9 => "F9"@,
        Key::F10 => "F10"@,
        Key::NumLock => "NumLock"@,
        Key::ScrollLock => "ScrollLock"@,
        Key::F11 => "F11"@,
        Key::F12 => "F12"@,
        Key::RightControl => "RightControl"@,
        Key::SysRq => "SysRq"@,
        Key::RightAlt => "RightAlt"@,
        Key::LineFeed => "LineFeed"@,
        Key::Home => "Home"@,
        Key::Up => "Up"@,
        Key::PageUp => "PageUp"@,
        Key::Left => "Left"@,
        Key::Right => "Right"@,
        Key::End => "End"@,
        Key::Down => "Down"@,
        Key::PageDown => "PageDown"@,
        Key::Insert => "Insert"@,
        Key::Delete => "Delete"@,
        Key::LeftMeta => "LeftMeta"@,
        Key::RightMeta => "RightMeta"@,
        Key::ScrollUp => "ScrollUp"@,
        Key::ScrollDown => "ScrollDown"@,
        Key::F13 => "F13"@,
        Key::F14 => "F14"@,
        Key::F15 => "F15"@,
        Key::F16 => "F16"@,
        Key::F17 => "F17"@,
        Key::F18 => "F18"@,
        Key::F19 => "F19"@,
        Key::F20 => "F20"@,
        Key::F21 => "F21"@,
        Key::F22 => "F22"@,
        Key::F23 => "F23"@,
        Key::F24 => "F24"@,
    }
}

/// The name by which a configuration refers to a keypad key.
pub open spec fn keypad_name(key: KeyPad) -> Seq<char> {
    match key {
        KeyPad::Asterisk => "KP::Asterisk"@,
        KeyPad::_7 => "KP::_7"@,
        KeyPad::_8 => "KP::_8"@,
        KeyPad::_9 => "KP::_9"@,
        KeyPad::Minus => "KP::Minus"@,
        KeyPad::_4 => "KP::_4"@,
        KeyPad::_5 => "KP::_5"@,
        KeyPad::_6 => "KP::_6"@,
        KeyPad::Plus => "KP::Plus"@,
        KeyPad::_1 => "KP::_1"@,
        KeyPad::_2 => "KP::_2"@,
        KeyPad::_3 => "KP::_3"@,
        KeyPad::_0 => "KP::_0"@,
        KeyPad::Dot => "KP::Dot"@,
        KeyPad::AltComma => "KP::AltComma"@,
        KeyPad::Enter => "KP::Enter"@,
        KeyPad::Slash => "KP::Slash"@,
        KeyPad::Equal => "KP::Equal"@,
        KeyPad::PlusMinus => "KP::PlusMinus"@,
        KeyPad::Comma => "KP::Comma"@,
        KeyPad::LeftParen => "KP::LeftParen"@,
        KeyPad::RightParen => "KP::RightParen"@,
    }
}

/// The standard key that `name` refers to, if it is the name of one.
pub open spec fn key_named(name: Seq<char>) -> Option<Key> {
    if name == "Reserved"@ {
        Some(Key::Reserved)
    } else if name == "Esc"@ {
        Some(Key::Esc)
    } else if name == "_1"@ {
        Some(Key::_1)
    } else if name == "_2"@ {
        Some(Key::_2)
    } else if name == "_3"@ {
        Some(Key::_3)
    } else if name == "_4"@ {
        Some(Key::_4)
    } else if name == "_5"@ {
        Some(Key::_5)
    } else if name == "_6"@ {
        Some(Key::_6)
    } else if name == "_7"@ {
        Some(Key::_7)
    } else if name == "_8"@ {
        Some(Key::_8)
    } else if name == "_9"@ {
        Some(Key::_9)
    } else if name == "_0"@ {
        Some(Key::_0)
    } else if name == "Minus"@ {
        Some(Key::Minus)
    } else if name == "Equal"@ {
        Some(Key::Equal)
    } else if name == "BackSpace"@ {
        Some(Key::BackSpace)
    } else if name == "Tab"@ {
        Some(Key::Tab)
    } else if name == "Q"@ {
        Some(Key::Q)
    } else if name == "W"@ {
        Some(Key::W)
    } else if name == "E"@ {
        Some(Key::E)
    } else if name == "R"@ {
        Some(Key::R)
    } else if name == "T"@ {
        Some(Key::T)
    } else if name == "Y"@ {
        Some(Key::Y)
    } else if name == "U"@ {
        Some(Key::U)
    } else if name == "I"@ {
        Some(Key::I)
    } else if name == "O"@ {
        Some(Key::O)
    } else if name == "P"@ {
        Some(Key::P)
    } else if name == "LeftBrace"@ {
        Some(Key::LeftBrace)
    } else if name == "RightBrace"@ {
        Some(Key::RightBrace)
    } else if name == "Enter"@ {
        Some(Key::Enter)
    } else if name == "LeftControl"@ {
        Some(Key::LeftControl)
    } else if name == "A"@ {
        Some(Key::A)
    } else if name == "S"@ {
        Some(Key::S)
    } else if name == "D"@ {
        Some(Key::D)
    } else if name == "F"@ {
        Some(Key::F)
    } else if name == "G"@ {
        Some(Key::G)
    } else if name == "H"@ {
        Some(Key::H)
    } else if name == "J"@ {
        Some(Key::J)
    } else if name == "K"@ {
        Some(Key::K)
    } else if name == "L"@ {
        Some(Key::L)
    } else if name == "SemiColon"@ {
        Some(Key::SemiColon)
    } else if name == "Apostrophe"@ {
        Some(Key::Apostrophe)
    } else if name == "Grave"@ {
        Some(Key::Grave)
    } else if name == "LeftShift"@ {
        Some(Key::LeftShift)
    } else if name == "BackSlash"@ {
        Some(Key::BackSlash)
    } else if name == "Z"@ {
        Some(Key::Z)
    } else if name == "X"@ {
        Some(Key::X)
    } else if name == "C"@ {
        Some(Key::C)
    } else if name == "V"@ {
        Some(Key::V)
    } else if name == "B"@ {
        Some(Key::B)
    } else if name == "N"@ {
        Some(Key::N)
    } else if name == "M"@ {
        Some(Key::M)
    } else if name == "Comma"@ {
        Some(Key::Comma)
    } else if name == "Dot"@ {
        Some(Key::Dot)
    } else if name == "Slash"@ {
        Some(Key::Slash)
    } else if name == "RightShift"@ {
        Some(Key::RightShift)
    } else if name == "LeftAlt"@ {
        Some(Key::LeftAlt)
    } else if name == "Space"@ {
        Some(Key::Space)
    } else if name == "CapsLock"@ {
        Some(Key::CapsLock)
    } else if name == "F1"@ {
        Some(Key::F1)
    } else if name == "F2"@ {
        Some(Key::F2)
    } else if name == "F3"@ {
        Some(Key::F3)
    } else if name == "F4"@ {
        Some(Key::F4)
    } else if name == "F5"@ {
        Some(Key::F5)
    } else if name == "F6"@ {
        Some(Key::F6)
    } else if name == "F7"@ {
        Some(Key::F7)
    } else if name == "F8"@ {
        Some(Key::F8)
    } else if name == "F9"@ {
        Some(Key::F9)
    } else if name == "F10"@ {
        Some(Key::F10)
    } else if name == "NumLock"@ {
        Some(Key::NumLock)
    } else if name == "ScrollLock"@ {
        Some(Key::ScrollLock)
    } else if name == "F11"@ {
        Some(Key::F11)
    } else if name == "F12"@ {
        Some(Key::F12)
    } else if name == "RightControl"@ {
        Some(Key::RightControl)
    } else if name == "SysRq"@ {
        Some(Key::SysRq)
    } else if name == "RightAlt"@ {
        Some(Key::RightAlt)
    } else if name == "LineFeed"@ {
        Some(Key::LineFeed)
    } else if name == "Home"@ {
        Some(Key::Home)
    } else if name == "Up"@ {
        Some(Key::Up)
    } else if name == "PageUp"@ {
        Some(Key::PageUp)
    } else if name == "Left"@ {
        Some(Key::Left)
    } else if name == "Right"@ {
        Some(Key::Right)
    } else if name == "End"@ {
        Some(Key::End)
    } else if name == "Down"@ {
        Some(Key::Down)
    } else if name == "PageDown"@ {
        Some(Key::PageDown)
    } else if name == "Insert"@ {
        Some(Key::Insert)
    } else if name == "Delete"@ {
        Some(Key::Delete)
    } else if name == "LeftMeta"@ {
        Some(Key::LeftMeta)
    } else if name == "RightMeta"@ {
        Some(Key::RightMeta)
    } else if name == "ScrollUp"@ {
        Some(Key::ScrollUp)
    } else if name == "ScrollDown"@ {
        Some(Key::ScrollDown)
    } else if name == "F13"@ {
        Some(Key::F13)
    } else if name == "F14"@ {
        Some(Key::F14)
    } else if name == "F15"@ {
        Some(Key::F15)
    } else if name == "F16"@ {
        Some(Key::F16)
    } else if name == "F17"@ {
        Some(Key::F17)
    } else if name == "F18"@ {
        Some(Key::F18)
    } else if name == "F19"@ {
        Some(Key::F19)
    } else if name == "F20"@ {
        Some(Key::F20)
    } else if name == "F21"@ {
        Some(Key::F21)
    } else if name == "F22"@ {
        Some(Key::F22)
    } else if name == "F23"@ {
        Some(Key::F23)
    } else if name == "F24"@ {
        Some(Key::F24)
    } else {
        None
    }
}

/// The keypad key that `name` refers to, if it is the name of one.
pub open spec fn keypad_named(name: Seq<char>) -> Option<KeyPad> {
    if name == "KP::Asterisk"@ {
        Some(KeyPad::Asterisk)
    } else if name == "KP::_7"@ {
        Some(KeyPad::_7)
    } else if name == "KP::_8"@ {
        Some(KeyPad::_8)
    } else if name == "KP::_9"@ {
        Some(KeyPad::_9)
    } else if name == "KP::Minus"@ {
        Some(KeyPad::Minus)
    } else if name == "KP::_4"@ {
        Some(KeyPad::_4)
    } else if name == "KP::_5"@ {
        Some(KeyPad::_5)
    } else if name == "KP::_6"@ {
        Some(KeyPad::_6)
    } else if name == "KP::Plus"@ {
        Some(KeyPad::Plus)
    } else if name == "KP::_1"@ {
        Some(KeyPad::_1)
    } else if name == "KP::_2"@ {
        Some(KeyPad::_2)
    } else if name == "KP::_3"@ {
        Some(KeyPad::_3)
    } else if name == "KP::_0"@ {
        Some(KeyPad::_0)
    } else if name == "KP::Dot"@ {
        Some(KeyPad::Dot)
    } else if name == "KP::AltComma"@ {
        Some(KeyPad::AltComma)
    } else if name == "KP::Enter"@ {
        Some(KeyPad::Enter)
    } else if name == "KP::Slash"@ {
        Some(KeyPad::Slash)
    } else if name == "KP::Equal"@ {
        Some(KeyPad::Equal)
    } else if name == "KP::PlusMinus"@ {
        Some(KeyPad::PlusMinus)
    } else if name == "KP::Comma"@ {
        Some(KeyPad::Comma)
    } else if name == "KP::LeftParen"@ {
        Some(KeyPad::LeftParen)
    } else if name == "KP::RightParen"@ {
        Some(KeyPad::RightParen)
    } else {
        None
    }
}

/// The key that `name` refers to: a standard key if it is the name of one,
/// else a keypad key if it is the name of one.
pub open spec fn input_named(name: Seq<char>) -> Option<Input> {
    match key_named(name) {
        Some(key) => Some(Input::InputKey(InputKey(key))),
        None => match keypad_named(name) {
            Some(key) => Some(Input::InputKeyPad(InputKeyPad(key))),
            None => None,
        },
    }
}

/// The name by which a configuration refers to `input`.
pub open spec fn input_name(input: Input) -> Seq<char> {
    match input {
        Input::InputKey(key) => key_name(key.0),
        Input::InputKeyPad(key) => keypad_name(key.0),
    }
}

/// The event code that `uinput` gives `input`.
pub open spec fn input_code(input: Input) -> i32 {
    match input {
        Input::InputKey(key) => key_code_of(key.0),
        Input::InputKeyPad(key) => keypad_code_of(key.0),
    }
}

/// A standard keyboard key.
#[derive(Copy, Clone, Debug, PartialEq, Eq)]
pub struct InputKey(pub Key);

/// A key of the numeric keypad.
#[derive(Copy, Clone, Debug, PartialEq, Eq)]
pub struct InputKeyPad(pub KeyPad);

/// A key that a button can be mapped to.
#[derive(Copy, Clone, Debug, PartialEq, Eq)]
pub enum Input {
    InputKey(InputKey),
    InputKeyPad(InputKeyPad),
}

impl core::ops::Deref for InputKey {
    type Target = Key;

    fn deref(&self) -> (key: &Key)
        ensures
            *key == self.0,
    {
        &self.0
    }
}

impl core::ops::Deref for InputKeyPad {
    type Target = KeyPad;

    fn deref(&self) -> (key: &KeyPad)
        ensures
            *key == self.0,
    {
        &self.0
    }
}

impl InputKey {
    /// The standard key that a configuration calls `name`; `None` where
    /// `name` is not the name of a standard key.
    pub fn from_name(name: &str) -> (key: Option<InputKey>)
        ensures
            key == match key_named(name@) {
                Some(k) => Some(InputKey(k)),
                None => None,
            },
    {
        let text = chars_of(name);
        let chars = text.as_slice();

        if spells(chars, "Reserved") {
            Some(InputKey(Key::Reserved))
        } else if spells(chars, "Esc") {
            Some(InputKey(Key::Esc))
        } else if spells(chars, "_1") {
            Some(InputKey(Key::_1))
        } else if spells(chars, "_2") {
            Some(InputKey(Key::_2))
        } else if spells(chars, "_3") {
            Some(InputKey(Key::_3))
        } else if spells(chars, "_4") {
            Some(InputKey(Key::_4))
        } else if spells(chars, "_5") {
            Some(InputKey(Key::_5))
        } else if spells(chars, "_6") {
            Some(InputKey(Key::_6))
        } else if spells(chars, "_7") {
            Some(InputKey(Key::_7))
        } else if spells(chars, "_8") {
            Some(InputKey(Key::_8))
        } else if spells(chars, "_9") {
            Some(InputKey(Key::_9))
        } else if spells(chars, "_0") {
            Some(InputKey(Key::_0))
        } else if spells(chars, "Minus") {
            Some(InputKey(Key::Minus))
        } else if spells(chars, "Equal") {
            Some(InputKey(Key::Equal))
        } else if spells(chars, "BackSpace") {
            Some(InputKey(Key::BackSpace))
        } else if spells(chars, "Tab") {
            Some(InputKey(Key::Tab))
        } else if spells(chars, "Q") {
            Some(InputKey(Key::Q))
        } else if spells(chars, "W") {
            Some(InputKey(Key::W))
        } else if spells(chars, "E") {
            Some(InputKey(Key::E))
        } else if spells(chars, "R") {
            Some(InputKey(Key::R))
        } else if spells(chars, "T") {
            Some(InputKey(Key::T))
        } else if spells(chars, "Y") {
            Some(InputKey(Key::Y))
        } else if spells(chars, "U") {
            Some(InputKey(Key::U))
        } else if spells(chars, "I") {
            Some(InputKey(Key::I))
        } else if spells(chars, "O") {
            Some(InputKey(Key::O))
        } else if spells(chars, "P") {
            Some(InputKey(Key::P))
        } else if spells(chars, "LeftBrace") {
            Some(InputKey(Key::LeftBrace))
        } else if spells(chars, "RightBrace") {
            Some(InputKey(Key::RightBrace))
        } else if spells(chars, "Enter") {
            Some(InputKey(Key::Enter))
        } else if spells(chars, "LeftControl") {
            Some(InputKey(Key::LeftControl))
        } else if spells(chars, "A") {
            Some(InputKey(Key::A))
        } else if spells(chars, "S") {
            Some(InputKey(Key::S))
        } else if spells(chars, "D") {
            Some(InputKey(Key::D))
        } else if spells(chars, "F") {
            Some(InputKey(Key::F))
        } else if spells(chars, "G") {
            Some(InputKey(Key::G))
        } else if spells(chars, "H") {
            Some(InputKey(Key::H))
        } else if spells(chars, "J") {
            Some(InputKey(Key::J))
        } else if spells(chars, "K") {
            Some(InputKey(Key::K))
        } else if spells(chars, "L") {
            Some(InputKey(Key::L))
        } else if spells(chars, "SemiColon") {
            Some(InputKey(Key::SemiColon))
        } else if spells(chars, "Apostrophe") {
            Some(InputKey(Key::Apostrophe))
        } else if spells(chars, "Grave") {
            Some(InputKey(Key::Grave))
        } else if spells(chars, "LeftShift") {
            Some(InputKey(Key::LeftShift))
        } else if spells(chars, "BackSlash") {
            Some(InputKey(Key::BackSlash))
        } else if spells(chars, "Z") {
            Some(InputKey(Key::Z))
        } else if spells(chars, "X") {
            Some(InputKey(Key::X))
        } else if spells(chars, "C") {
            Some(InputKey(Key::C))
        } else if spells(chars, "V") {
            Some(InputKey(Key::V))
        } else if spells(chars, "B") {
            Some(InputKey(Key::B))
        } else if spells(chars, "N") {
            Some(InputKey(Key::N))
        } else if spells(chars, "M") {
            Some(InputKey(Key::M))
        } else if spells(chars, "Comma") {
            Some(InputKey(Key::Comma))
        } else if spells(chars, "Dot") {
            Some(InputKey(Key::Dot))
        } else if spells(chars, "Slash") {
            Some(InputKey(Key::Slash))
        } else if spells(chars, "RightShift") {
            Some(InputKey(Key::RightShift))
        } else if spells(chars, "LeftAlt") {
            Some(InputKey(Key::LeftAlt))
        } else if spells(chars, "Space") {
            Some(InputKey(Key::Space))
        } else if spells(chars, "CapsLock") {
            Some(InputKey(Key::CapsLock))
        } else if spells(chars, "F1") {
            Some(InputKey(Key::F1))
        } else if spells(chars, "F2") {
            Some(InputKey(Key::F2))
        } else if spells(chars, "F3") {
            Some(InputKey(Key::F3))
        } else if spells(chars, "F4") {
            Some(InputKey(Key::F4))
        } else if spells(chars, "F5") {
            Some(InputKey(Key::F5))
        } else if spells(chars, "F6") {
            Some(InputKey(Key::F6))
        } else if spells(chars, "F7") {
            Some(InputKey(Key::F7))
        } else if spells(chars, "F8") {
            Some(InputKey(Key::F8))
        } else if spells(chars, "F9") {
            Some(InputKey(Key::F9))
        } else if spells(chars, "F10") {
            Some(InputKey(Key::F10))
        } else if spells(chars, "NumLock") {
            Some(InputKey(Key::NumLock))
        } else if spells(chars, "ScrollLock") {
            Some(InputKey(Key::ScrollLock))
        } else if spells(chars, "F11") {
            Some(InputKey(Key::F11))
        } else if spells(chars, "F12") {
            Some(InputKey(Key::F12))
        } else if spells(chars, "RightControl") {
            Some(InputKey(Key::RightControl))
        } else if spells(chars, "SysRq") {
            Some(InputKey(Key::SysRq))
        } else if spells(chars, "RightAlt") {
            Some(InputKey(Key::RightAlt))
        } else if spells(chars, "LineFeed") {
            Some(InputKey(Key::LineFeed))
        } else if spells(chars, "Home") {
            Some(InputKey(Key::Home))
        } else if spells(chars, "Up") {
            Some(InputKey(Key::Up))
        } else if spells(chars, "PageUp") {
            Some(InputKey(Key::PageUp))
        } else if spells(chars, "Left") {
            Some(InputKey(Key::Left))
        } else if spells(chars, "Right") {
            Some(InputKey(Key::Right))
        } else if spells(chars, "End") {
            Some(InputKey(Key::End))
        } else if spells(chars, "Down") {
            Some(InputKey(Key::Down))
        } else if spells(chars, "PageDown") {
            Some(InputKey(Key::PageDown))
        } else if spells(chars, "Insert") {
            Some(InputKey(Key::Insert))
        } else if spells(chars, "Delete") {
            Some(InputKey(Key::Delete))
        } else if spells(chars, "LeftMeta") {
            Some(InputKey(Key::LeftMeta))
        } else if spells(chars, "RightMeta") {
            Some(InputKey(Key::RightMeta))
        } else if spells(chars, "ScrollUp") {
            Some(InputKey(Key::ScrollUp))
        } else if spells(chars, "ScrollDown") {
            Some(InputKey(Key::ScrollDown))
        } else if spells(chars, "F13") {
            Some(InputKey(Key::F13))
        } else if spells(chars, "F14") {
            Some(InputKey(Key::F14))
        } else if spells(chars, "F15") {
            Some(InputKey(Key::F15))
        } else if spells(chars, "F16") {
            Some(InputKey(Key::F16))
        } else if spells(chars, "F17") {
            Some(InputKey(Key::F17))
        } else if spells(chars, "F18") {
            Some(InputKey(Key::F18))
        } else if spells(chars, "F19") {
            Some(InputKey(Key::F19))
        } else if spells(chars, "F20") {
            Some(InputKey(Key::F20))
        } else if spells(chars, "F21") {
            Some(InputKey(Key::F21))
        } else if spells(chars, "F22") {
            Some(InputKey(Key::F22))
        } else if spells(chars, "F23") {
            Some(InputKey(Key::F23))
        } else if spells(chars, "F24") {
            Some(InputKey(Key::F24))
        } else {
            None
        }
    }
}

impl InputKeyPad {
    /// The keypad key that a configuration calls `name`; `None` where `name`
    /// is not the name of a keypad key.
    pub fn from_name(name: &str) -> (key: Option<InputKeyPad>)
        ensures
            key == match keypad_named(name@) {
                Some(k) => Some(InputKeyPad(k)),
                None => None,
            },
    {
        let text = chars_of(name);
        let chars = text.as_slice();

        if spells(chars, "KP::Asterisk") {
            Some(InputKeyPad(KeyPad::Asterisk))
        } else if spells(chars, "KP::_7") {
            Some(InputKeyPad(KeyPad::_7))
        } else if spells(chars, "KP::_8") {
            Some(InputKeyPad(KeyPad::_8))
        } else if spells(chars, "KP::_9") {
            Some(InputKeyPad(KeyPad::_9))
        } else if spells(chars, "KP::Minus") {
            Some(InputKeyPad(KeyPad::Minus))
        } else if spells(chars, "KP::_4") {
            Some(InputKeyPad(KeyPad::_4))
        } else if spells(chars, "KP::_5") {
            Some(InputKeyPad(KeyPad::_5))
        } else if spells(chars, "KP::_6") {
            Some(InputKeyPad(KeyPad::_6))
        } else if spells(chars, "KP::Plus") {
            Some(InputKeyPad(KeyPad::Plus))
        } else if spells(chars, "KP::_1") {
            Some(InputKeyPad(KeyPad::_1))
        } else if spells(chars, "KP::_2") {
            Some(InputKeyPad(KeyPad::_2))
        } else if spells(chars, "KP::_3") {
            Some(InputKeyPad(KeyPad::_3))
        } else if spells(chars, "KP::_0") {
            Some(InputKeyPad(KeyPad::_0))
        } else if spells(chars, "KP::Dot") {
            Some(InputKeyPad(KeyPad::Dot))
        } else if spells(chars, "KP::AltComma") {
            Some(InputKeyPad(KeyPad::AltComma))
        } else if spells(chars, "KP::Enter") {
            Some(InputKeyPad(KeyPad::Enter))
        } else if spells(chars, "KP::Slash") {
            Some(InputKeyPad(KeyPad::Slash))
        } else if spells(chars, "KP::Equal") {
            Some(InputKeyPad(KeyPad::Equal))
        } else if spells(chars, "KP::PlusMinus") {
            Some(InputKeyPad(KeyPad::PlusMinus))
        } else if spells(chars, "KP::Comma") {
            Some(InputKeyPad(KeyPad::Comma))
        } else if spells(chars, "KP::LeftParen") {
            Some(InputKeyPad(KeyPad::LeftParen))
        } else if spells(chars, "KP::RightParen") {
            Some(InputKeyPad(KeyPad::RightParen))
        } else {
            None
        }
    }
}

impl Input {
    /// The key that a configuration calls `name`. A name is tried as a
    /// standard key first and as a keypad key second; `None` where it is
    /// neither.
    pub fn from_name(name: &str) -> (input: Option<Input>)
        ensures
            input == input_named(name@),
    {
        match InputKey::from_name(name) {
            Some(key) => Some(Input::InputKey(key)),
            None => match InputKeyPad::from_name(name) {
                Some(key) => Some(Input::InputKeyPad(key)),
                None => None,
            },
        }
    }

    /// The event type under which this key is sent: the same for both
    /// variants.
    pub fn kind(&self) -> (kind: i32)
        ensures
            kind == KEY_EVENT,
    {
        match self {
            Input::InputKey(key) => key_kind(&key.0),
            Input::InputKeyPad(key) => keypad_kind(&key.0),
        }
    }

    /// The event code under which this key is sent.
    pub fn code(&self) -> (code: i32)
        ensures
            code == input_code(*self),
    {
        match self {
            Input::InputKey(key) => key_code(&key.0),
            Input::InputKeyPad(key) => keypad_code(&key.0),
        }
    }
}

impl From<Key> for Input {
    fn from(value: Key) -> (input: Input) {
        Input::InputKey(InputKey(value))
    }
}

impl vstd::std_specs::convert::FromSpecImpl<Key> for Input {
    open spec fn obeys_from_spec() -> bool {
        true
    }

    open spec fn from_spec(value: Key) -> Input {
        Input::InputKey(InputKey(value))
    }
}

impl From<KeyPad> for Input {
    fn from(value: KeyPad) -> (input: Input) {
        Input::InputKeyPad(InputKeyPad(value))
    }
}

impl vstd::std_specs::convert::FromSpecImpl<KeyPad> for Input {
    open spec fn obeys_from_spec() -> bool {
        true
    }

    open spec fn from_spec(value: KeyPad) -> Input {
        Input::InputKeyPad(InputKeyPad(value))
    }
}

/// A name that refers to a standard key is that key's name.
pub proof fn lemma_key_named_gives_name(name: Seq<char>)
    ensures
        key_named(name) matches Some(key) ==> key_name(key) == name,
{
}

/// A name that refers to a keypad key is that key's name.
pub proof fn lemma_keypad_named_gives_name(name: Seq<char>)
    ensures
        keypad_named(name) matches Some(key) ==> keypad_name(key) == name,
{
}

/// Every standard key is found again under its name, so no two standard keys
/// share a name.
pub proof fn lemma_key_found_by_name(key: Key)
    ensures
        key_named(key_name(key)) == Some(key),
{

    reveal_strlit("Reserved");
    reveal_strlit("Esc");
    reveal_strlit("_1");
    reveal_strlit("_2");
    reveal_strlit("_3");
    reveal_strlit("_4");
    reveal_strlit("_5");
    reveal_strlit("_6");
    reveal_strlit("_7");
    reveal_strlit("_8");
    reveal_strlit("_9");
    reveal_strlit("_0");
    reveal_strlit("Minus");
    reveal_strlit("Equal");
    reveal_strlit("BackSpace");
    reveal_strlit("Tab");
    reveal_strlit("Q");
    reveal_strlit("W");
    reveal_strlit("E");
    reveal_strlit("R");
    reveal_strlit("T");
    reveal_strlit("Y");
    reveal_strlit("U");
    reveal_strlit("I");
    reveal_strlit("O");
    reveal_strlit("P");
    reveal_strlit("LeftBrace");
    reveal_strlit("RightBrace");
    reveal_strlit("Enter");
    reveal_strlit("LeftControl");
    reveal_strlit("A");
    reveal_strlit("S");
    reveal_strlit("D");
    reveal_strlit("F");
    reveal_strlit("G");
    reveal_strlit("H");
    reveal_strlit("J");
    reveal_strlit("K");
    reveal_strlit("L");
    reveal_strlit("SemiColon");
    reveal_strlit("Apostrophe");
    reveal_strlit("Grave");
    reveal_strlit("LeftShift");
    reveal_strlit("BackSlash");
    reveal_strlit("Z");
    reveal_strlit("X");
    reveal_strlit("C");
    reveal_strlit("V");
    reveal_strlit("B");
    reveal_strlit("N");
    reveal_strlit("M");
    reveal_strlit("Comma");
    reveal_strlit("Dot");
    reveal_strlit("Slash");
    reveal_strlit("RightShift");
    reveal_strlit("LeftAlt");
    reveal_strlit("Space");
    reveal_strlit("CapsLock");
    reveal_strlit("F1");
    reveal_strlit("F2");
    reveal_strlit("F3");
    reveal_strlit("F4");
    reveal_strlit("F5");
    reveal_strlit("F6");
    reveal_strlit("F7");
    reveal_strlit("F8");
    reveal_strlit("F9");
    reveal_strlit("F10");
    reveal_strlit("NumLock");
    reveal_strlit("ScrollLock");
    reveal_strlit("F11");
    reveal_strlit("F12");
    reveal_strlit("RightControl");
    reveal_strlit("SysRq");
    reveal_strlit("RightAlt");
    reveal_strlit("LineFeed");
    reveal_strlit("Home");
    reveal_strlit("Up");
    reveal_strlit("PageUp");
    reveal_strlit("Left");
    reveal_strlit("Right");
    reveal_strlit("End");
    reveal_strlit("Down");
    reveal_strlit("PageDown");
    reveal_strlit("Insert");
    reveal_strlit("Delete");
    reveal_strlit("LeftMeta");
    reveal_strlit("RightMeta");
    reveal_strlit("ScrollUp");
    reveal_strlit("ScrollDown");
    reveal_strlit("F13");
    reveal_strlit("F14");
    reveal_strlit("F15");
    reveal_strlit("F16");
    reveal_strlit("F17");
    reveal_strlit("F18");
    reveal_strlit("F19");
    reveal_strlit("F20");
    reveal_strlit("F21");
    reveal_strlit("F22");
    reveal_strlit("F23");
    reveal_strlit("F24");
    let name = key_name(key);
    assert(name.len() >= 0 && leading(name).len() == 14);
}

/// Every keypad key is found again under its name, so no two keypad keys
/// share a name.
pub proof fn lemma_keypad_found_by_name(key: KeyPad)
    ensures
        keypad_named(keypad_name(key)) == Some(key),
{

    reveal_strlit("KP::Asterisk");
    reveal_strlit("KP::_7");
    reveal_strlit("KP::_8");
    reveal_strlit("KP::_9");
    reveal_strlit("KP::Minus");
    reveal_strlit("KP::_4");
    reveal_strlit("KP::_5");
    reveal_strlit("KP::_6");
    reveal_strlit("KP::Plus");
    reveal_strlit("KP::_1");
    reveal_strlit("KP::_2");
    reveal_strlit("KP::_3");
    reveal_strlit("KP::_0");
    reveal_strlit("KP::Dot");
    reveal_strlit("KP::AltComma");
    reveal_strlit("KP::Enter");
    reveal_strlit("KP::Slash");
    reveal_strlit("KP::Equal");
    reveal_strlit("KP::PlusMinus");
    reveal_strlit("KP::Comma");
    reveal_strlit("KP::LeftParen");
    reveal_strlit("KP::RightParen");
    let name = keypad_name(key);
    assert(name.len() >= 0 && leading(name).len() == 14);
}

} // verus!
