//! Key events as they reach the widgets: a semantic key code plus a set of
//! modifier flags, and the classification of keys into cursor movements.

use vstd::prelude::*;

verus! {

/// A semantic key code, already decoded from the raw terminal input.
#[derive(Clone, Copy, Debug)]
pub enum KeyCode {
    Backspace,
    Enter,
    Left,
    Right,
    Up,
    Down,
    Home,
    End,
    PageUp,
    PageDown,
    Tab,
    BackTab,
    Delete,
    Insert,
    F(u8),
    Char(char),
    Null,
    Esc,
}

/// Modifier keys held down together with a key, as independent flags.
#[derive(Clone, Copy, Debug, PartialEq, Eq, Structural)]
pub struct KeyModifiers {
    pub shift: bool,
    pub control: bool,
    pub alt: bool,
}

impl KeyModifiers {
    /// No modifier held.
    pub fn empty() -> (r: Self)
        ensures
            r == (KeyModifiers { shift: false, control: false, alt: false }),
    {
        KeyModifiers { shift: false, control: false, alt: false }
    }

    /// Only the shift key held.
    pub fn shift() -> (r: Self)
        ensures
            r == (KeyModifiers { shift: true, control: false, alt: false }),
    {
        KeyModifiers { shift: true, control: false, alt: false }
    }

    /// Only the control key held.
    pub fn control() -> (r: Self)
        ensures
            r == (KeyModifiers { shift: false, control: true, alt: false }),
    {
        KeyModifiers { shift: false, control: true, alt: false }
    }

    /// Only the alt key held.
    pub fn alt() -> (r: Self)
        ensures
            r == (KeyModifiers { shift: false, control: false, alt: true }),
    {
        KeyModifiers { shift: false, control: false, alt: true }
    }
}

/// A key code together with the modifiers held when it arrived.
#[derive(Clone, Copy, Debug)]
pub struct KeyEvent {
    pub code: KeyCode,
    pub modifiers: KeyModifiers,
}

impl KeyEvent {
    pub fn new(code: KeyCode, modifiers: KeyModifiers) -> (r: Self)
        ensures
            r == (KeyEvent { code, modifiers }),
    {
        KeyEvent { code, modifiers }
    }
}

/// A cursor movement over the edited text.
#[derive(Clone, Copy, Debug, PartialEq, Eq, Structural)]
pub enum Movement {
    Left,
    Right,
    PrevWord,
    NextWord,
    Home,
    End,
}

/// The movement a key asks for, independent of any editing: plain arrow keys
/// move by one character, arrows with control or alt move by words, and the
/// Home and End keys jump to the ends of the line.
pub open spec fn movement_of(key: KeyEvent) -> Option<Movement> {
    match key.code {
        KeyCode::Left => if key.modifiers.control || key.modifiers.alt {
            Some(Movement::PrevWord)
        } else {
            Some(Movement::Left)
        },
        KeyCode::Right => if key.modifiers.control || key.modifiers.alt {
            Some(Movement::NextWord)
        } else {
            Some(Movement::Right)
        },
        KeyCode::Home => Some(Movement::Home),
        KeyCode::End => Some(Movement::End),
        _ => None,
    }
}

impl Movement {
    /// Classify a key as a pure cursor movement, if it is one.
    pub fn try_from_key(key: KeyEvent) -> (r: Option<Movement>)
        ensures
            r == movement_of(key),
    {
        match key.code {
            KeyCode::Left => if key.modifiers.control || key.modifiers.alt {
                Some(Movement::PrevWord)
            } else {
                Some(Movement::Left)
            },
            KeyCode::Right => if key.modifiers.control || key.modifiers.alt {
                Some(Movement::NextWord)
            } else {
                Some(Movement::Right)
            },
            KeyCode::Home => Some(Movement::Home),
            KeyCode::End => Some(Movement::End),
            _ => None,
        }
    }
}

} // verus!
