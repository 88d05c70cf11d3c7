//! Key presses as plain values.
//!
//! These types stand for what a terminal reports of a key: which key, which
//! modifier keys were held, and whether it went down or up. The modifier bits
//! are those that terminals using the kitty keyboard protocol report.

use vstd::prelude::*;

verus! {

/// The bit of the Shift key.
pub const SHIFT: u8 = 0b0000_0001;

/// The bit of the Control key.
pub const CONTROL: u8 = 0b0000_0010;

/// The bit of the Alt key.
pub const ALT: u8 = 0b0000_0100;

/// The bit of the Super key.
pub const SUPER: u8 = 0b0000_1000;

/// The bit of the Hyper key.
pub const HYPER: u8 = 0b0001_0000;

/// The bit of the Meta key.
pub const META: u8 = 0b0010_0000;

/// The key that was pressed. Keys the session does not react to are all
/// `Other`.
#[derive(Clone, Copy, Debug, PartialEq, Eq, Structural)]
pub enum KeyCode {
    Backspace,
    Enter,
    Left,
    Right,
    Up,
    Down,
    Tab,
    Delete,
    Esc,
    Char(char),
    Other,
}

/// The modifier keys held with a key, one bit each.
#[derive(Clone, Copy, Debug, PartialEq, Eq, Structural)]
pub struct KeyModifiers {
    pub bits: u8,
}

/// Whether the key went down, is held, or came up.
#[derive(Clone, Copy, Debug, PartialEq, Eq, Structural)]
pub enum KeyEventKind {
    Press,
    Repeat,
    Release,
}

/// One key event.
#[derive(Clone, Copy, Debug, PartialEq, Eq, Structural)]
pub struct KeyEvent {
    pub code: KeyCode,
    pub modifiers: KeyModifiers,
    pub kind: KeyEventKind,
}

impl KeyModifiers {
    /// Whether every bit of `flags` is set.
    pub open spec fn has(self, flags: u8) -> bool {
        self.bits & flags == flags
    }

    /// No modifier key.
    pub fn none() -> (modifiers: Self)
        ensures
            modifiers.bits == 0,
    {
        KeyModifiers { bits: 0 }
    }

    /// The modifier keys with the given bits.
    pub fn from_bits(bits: u8) -> (modifiers: Self)
        ensures
            modifiers.bits == bits,
    {
        KeyModifiers { bits }
    }

    /// Whether every modifier key of `flags` is held.
    pub fn contains(&self, flags: u8) -> (held: bool)
        ensures
            held == self.has(flags),
    {
        self.bits & flags == flags
    }
}

impl KeyEvent {
    /// The press of `code` with `modifiers` held.
    pub fn new(code: KeyCode, modifiers: KeyModifiers) -> (event: Self)
        ensures
            event.code == code,
            event.modifiers == modifiers,
            event.kind == KeyEventKind::Press,
    {
        KeyEvent { code, modifiers, kind: KeyEventKind::Press }
    }
}

} // verus!
