//! Key presses, as the terminal interface's decision logic reads them.

use vstd::prelude::*;

verus! {

/// The key of a key press.
#[derive(Debug, Clone, Copy, PartialEq, Eq, Structural)]
pub enum KeyCode {
    Char(char),
    Enter,
    Esc,
    Tab,
    BackTab,
    Up,
    Down,
    Left,
    Right,
    Backspace,
    /// Any other key (function keys, Home, ...).
    Other,
}

/// Modifier keys held during a key press.
#[derive(Debug, Clone, Copy, PartialEq, Eq, Structural)]
pub struct KeyModifiers {
    pub control: bool,
    pub shift: bool,
    pub alt: bool,
    /// Super, hyper or meta.
    pub other: bool,
}

/// A key press with its modifiers.
#[derive(Debug, Clone, Copy, PartialEq, Eq, Structural)]
pub struct KeyPress {
    pub code: KeyCode,
    pub modifiers: KeyModifiers,
}

impl KeyModifiers {
    /// No modifier held.
    pub open spec fn is_none(self) -> bool {
        !self.control && !self.shift && !self.alt && !self.other
    }

    /// Exactly Control held.
    pub open spec fn is_control_only(self) -> bool {
        self.control && !self.shift && !self.alt && !self.other
    }

    /// Exactly Shift held.
    pub open spec fn is_shift_only(self) -> bool {
        !self.control && self.shift && !self.alt && !self.other
    }

    /// Whether no modifier is held.
    pub fn none(&self) -> (r: bool)
        ensures
            r == self.is_none(),
    {
        !self.control && !self.shift && !self.alt && !self.other
    }

    /// Whether exactly Control is held.
    pub fn control_only(&self) -> (r: bool)
        ensures
            r == self.is_control_only(),
    {
        self.control && !self.shift && !self.alt && !self.other
    }

    /// Whether exactly Shift is held.
    pub fn shift_only(&self) -> (r: bool)
        ensures
            r == self.is_shift_only(),
    {
        !self.control && self.shift && !self.alt && !self.other
    }
}

} // verus!
