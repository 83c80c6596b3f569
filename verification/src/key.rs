//! Key presses as plain values.

use vstd::prelude::*;

verus! {

/// Which key was pressed.
#[derive(Debug, Clone, Copy, PartialEq, Eq, Hash, Structural)]
pub enum KeyCode {
    Backspace,
    Enter,
    Left,
    Right,
    Up,
    Down,
    Home,
    End,
    PageUp,
    PageDown,
    Tab,
    BackTab,
    Delete,
    Insert,
    F(u8),
    Char(char),
    Null,
    Esc,
    /// Any key that the screens never ask for.
    Other,
}

/// The modifier keys held down with a key.
#[derive(Debug, Clone, Copy, PartialEq, Eq, Hash, Structural)]
pub struct KeyModifiers {
    pub shift: bool,
    pub control: bool,
    pub alt: bool,
}

/// One key press.
#[derive(Debug, Clone, Copy, PartialEq, Eq, Hash, Structural)]
pub struct KeyEvent {
    pub code: KeyCode,
    pub modifiers: KeyModifiers,
}

impl KeyModifiers {
    /// No modifier held.
    pub fn none() -> (m: Self)
        ensures
            m == (KeyModifiers { shift: false, control: false, alt: false }),
    {
        KeyModifiers { shift: false, control: false, alt: false }
    }
}

impl KeyEvent {
    /// The key `code` with no modifier held.
    pub open spec fn spec_plain(code: KeyCode) -> KeyEvent {
        KeyEvent { code, modifiers: KeyModifiers { shift: false, control: false, alt: false } }
    }

    /// The key `code` with the given modifiers.
    pub fn new(code: KeyCode, modifiers: KeyModifiers) -> (key: Self)
        ensures
            key == (KeyEvent { code, modifiers }),
    {
        KeyEvent { code, modifiers }
    }

    /// The key `code` with no modifier held.
    pub fn plain(code: KeyCode) -> (key: Self)
        ensures
            key == Self::spec_plain(code),
    {
        KeyEvent { code, modifiers: KeyModifiers::none() }
    }
}

} // verus!
