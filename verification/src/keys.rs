//! Keyboard input as the editing logic sees it: the key pressed and the
//! modifiers held.

use vstd::prelude::*;

verus! {

/// A key, as reported by the terminal.
#[derive(Clone, Copy, Debug, PartialEq, Eq, Structural)]
pub enum KeyCode {
    Char(char),
    Enter,
    Backspace,
    Delete,
    Left,
    Right,
    Up,
    Down,
    Home,
    End,
    PageUp,
    PageDown,
    Tab,
    BackTab,
    Esc,
    /// A function key `F1`..`F24`.
    F(u8),
    /// Any key the editor does not distinguish.
    Other,
}

/// Modifier keys held with a key press.
#[derive(Clone, Copy, Debug, PartialEq, Eq, Structural)]
pub struct KeyModifiers {
    pub shift: bool,
    pub control: bool,
    pub alt: bool,
    /// Super, Hyper or Meta.
    pub other: bool,
}

impl KeyModifiers {
    /// No modifier held.
    pub fn none() -> (m: KeyModifiers)
        ensures
            !m.shift && !m.control && !m.alt && !m.other,
    {
        KeyModifiers { shift: false, control: false, alt: false, other: false }
    }

    /// No modifier at all is held.
    pub open spec fn is_none(self) -> bool {
        !self.shift && !self.control && !self.alt && !self.other
    }
}

} // verus!
