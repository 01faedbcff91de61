//! Keyboard and mouse input as the panels see it: the keys they react to and
//! the mouse events they distinguish. The terminal layer maps its own events
//! onto these.

use vstd::prelude::*;

verus! {

/// A pressed key.
#[derive(Clone, Copy, PartialEq, Eq, Debug, Structural)]
pub enum Key {
    Char(char),
    Up,
    Down,
    Left,
    Right,
    PageUp,
    PageDown,
    Home,
    End,
    Enter,
    Esc,
    Tab,
    BackTab,
    Backspace,
    Delete,
    Other,
}

/// A key press together with whether Control was held.
#[derive(Clone, Copy, PartialEq, Eq, Debug, Structural)]
pub struct KeyPress {
    pub key: Key,
    pub ctrl: bool,
}

/// What the mouse did.
#[derive(Clone, Copy, PartialEq, Eq, Debug, Structural)]
pub enum MouseKind {
    LeftDown,
    RightDown,
    Moved,
    ScrollUp,
    ScrollDown,
    Other,
}

/// A mouse event at a pane-local cell.
#[derive(Clone, Copy, PartialEq, Eq, Debug, Structural)]
pub struct Mouse {
    pub kind: MouseKind,
    pub column: u16,
    pub row: u16,
}

} // verus!
