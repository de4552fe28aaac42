//! Motions, operators, word flavours and text objects: the fragments a
//! command is assembled from.

use vstd::prelude::*;

verus! {

/// Flavour of a vi word: `Lower` is a `w`-style word (runs of keyword
/// characters or of other non-blank characters), `Upper` is a `W`-style
/// word (runs of non-blank characters).
#[derive(Clone, Copy, Debug, Eq, PartialEq, Structural)]
pub enum Word {
    Lower,
    Upper,
}

/// A mutation that, with a motion or selection, acts on a region.
#[derive(Clone, Copy, Debug, Eq, PartialEq, Structural)]
pub enum Operator {
    AutoIndent,
    Change,
    Delete,
    ShiftLeft,
    ShiftRight,
    SwapCase,
    Yank,
}

/// A semantic cursor move, or a marker for text-object, selection or
/// line scope.
#[derive(Clone, Copy, Debug, Eq, PartialEq)]
pub enum Motion {
    Around,
    Down,
    End,
    GotoEof,
    GotoLine(usize),
    Home,
    Inside,
    Left,
    LeftInLine,
    Line,
    NextChar(char),
    NextCharTill(char),
    NextSearch,
    NextWordEnd(Word),
    NextWordStart(Word),
    PageDown,
    PageUp,
    PreviousChar(char),
    PreviousCharTill(char),
    PreviousSearch,
    PreviousWordEnd(Word),
    PreviousWordStart(Word),
    Right,
    RightInLine,
    ScreenHigh,
    ScreenLow,
    ScreenMiddle,
    Selection,
    SoftHome,
    Up,
}

/// What [`Motion::reverse`] returns: the opposite motion, where one exists.
pub open spec fn reverse_motion(m: Motion) -> Option<Motion> {
    match m {
        Motion::Around => None,
        Motion::Down => Some(Motion::Up),
        Motion::End => Some(Motion::Home),
        Motion::GotoEof => None,
        Motion::GotoLine(_line) => None,
        Motion::Home => Some(Motion::End),
        Motion::Inside => None,
        Motion::Left => Some(Motion::Right),
        Motion::LeftInLine => Some(Motion::RightInLine),
        Motion::Line => None,
        Motion::NextChar(c) => Some(Motion::PreviousChar(c)),
        Motion::NextCharTill(c) => Some(Motion::PreviousCharTill(c)),
        Motion::NextSearch => Some(Motion::PreviousSearch),
        Motion::NextWordEnd(word) => Some(Motion::PreviousWordEnd(word)),
        Motion::NextWordStart(word) => Some(Motion::PreviousWordStart(word)),
        Motion::PageDown => Some(Motion::PageUp),
        Motion::PageUp => Some(Motion::PageDown),
        Motion::PreviousChar(c) => Some(Motion::NextChar(c)),
        Motion::PreviousCharTill(c) => Some(Motion::NextCharTill(c)),
        Motion::PreviousSearch => Some(Motion::NextSearch),
        Motion::PreviousWordEnd(word) => Some(Motion::NextWordEnd(word)),
        Motion::PreviousWordStart(word) => Some(Motion::NextWordStart(word)),
        Motion::Right => Some(Motion::Left),
        Motion::RightInLine => Some(Motion::LeftInLine),
        Motion::ScreenHigh => None,
        Motion::ScreenLow => None,
        Motion::ScreenMiddle => None,
        Motion::Selection => None,
        Motion::SoftHome => Some(Motion::End),
        Motion::Up => Some(Motion::Down),
    }
}

/// True for the motions that must be completed by a text object.
pub open spec fn needs_text_object(m: Motion) -> bool {
    m == Motion::Around || m == Motion::Inside
}

impl Motion {
    /// Reverse a motion (if possible).
    pub fn reverse(self) -> (r: Option<Self>)
        ensures
            r == reverse_motion(self),
    {
        match self {
            Self::Around => None,
            Self::Down => Some(Self::Up),
            Self::End => Some(Self::Home),
            Self::GotoEof => None,
            Self::GotoLine(_line) => None,
            Self::Home => Some(Self::End),
            Self::Inside => None,
            Self::Left => Some(Self::Right),
            Self::LeftInLine => Some(Self::RightInLine),
            Self::Line => None,
            Self::NextChar(c) => Some(Self::PreviousChar(c)),
            Self::NextCharTill(c) => Some(Self::PreviousCharTill(c)),
            Self::NextSearch => Some(Self::PreviousSearch),
            Self::NextWordEnd(word) => Some(Self::PreviousWordEnd(word)),
            Self::NextWordStart(word) => Some(Self::PreviousWordStart(word)),
            Self::PageDown => Some(Self::PageUp),
            Self::PageUp => Some(Self::PageDown),
            Self::PreviousChar(c) => Some(Self::NextChar(c)),
            Self::PreviousCharTill(c) => Some(Self::NextCharTill(c)),
            Self::PreviousSearch => Some(Self::NextSearch),
            Self::PreviousWordEnd(word) => Some(Self::NextWordEnd(word)),
            Self::PreviousWordStart(word) => Some(Self::NextWordStart(word)),
            Self::Right => Some(Self::Left),
            Self::RightInLine => Some(Self::LeftInLine),
            Self::ScreenHigh => None,
            Self::ScreenLow => None,
            Self::ScreenMiddle => None,
            Self::Selection => None,
            Self::SoftHome => Some(Self::End),
            Self::Up => Some(Self::Down),
        }
    }

    /// Returns true if a text object is needed to complete this motion.
    pub fn text_object(&self) -> (r: bool)
        ensures
            r == needs_text_object(*self),
    {
        match self {
            Self::Around | Self::Inside => true,
            _ => false,
        }
    }
}

/// A delimiter-defined region addressed by `i`/`a` followed by a type
/// character.
#[derive(Clone, Copy, Debug, Eq, PartialEq)]
pub enum TextObject {
    AngleBrackets,
    Block,
    CurlyBrackets,
    DoubleQuotes,
    Paragraph,
    Parentheses,
    Search { forwards: bool },
    Sentence,
    SingleQuotes,
    SquareBrackets,
    Tag,
    Ticks,
    Word(Word),
}

} // verus!
