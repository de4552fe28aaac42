//! The key model: one input event from the host, and its normalization.

use vstd::prelude::*;

verus! {

/// One input key event.  Control-character `Char`s are folded into their
/// named equivalents by [`Key::normalize`].
#[derive(Clone, Copy, Debug, Eq, PartialEq)]
pub enum Key {
    Backspace,
    Backtab,
    Char(char),
    Delete,
    Down,
    End,
    Enter,
    Escape,
    Home,
    Left,
    PageDown,
    PageUp,
    Right,
    Tab,
    Up,
}

/// What [`Key::normalize`] returns: control characters become named keys,
/// everything else is unchanged.
pub open spec fn normalize_key(k: Key) -> Key {
    match k {
        Key::Char(c) => {
            if c == '\x08' {
                Key::Backspace
            } else if c == '\x7F' {
                Key::Delete
            } else if c == '\n' || c == '\r' {
                Key::Enter
            } else if c == '\x1B' {
                Key::Escape
            } else if c == '\t' {
                Key::Tab
            } else {
                Key::Char(c)
            }
        },
        _ => k,
    }
}

impl Key {
    /// Normalize so that `Char('\n')` is converted to `Enter`, for example.
    pub fn normalize(self) -> (r: Self)
        ensures
            r == normalize_key(self),
    {
        match self {
            Key::Char(c) => match c {
                '\x08' => Key::Backspace,
                '\x7F' => Key::Delete,
                '\n' | '\r' => Key::Enter,
                '\x1B' => Key::Escape,
                '\t' => Key::Tab,
                _ => Key::Char(c),
            },
            key => key,
        }
    }
}

} // verus!
