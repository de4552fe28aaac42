//! The output vocabulary: semantic events the parser emits, and their
//! mathematical view.

use vstd::prelude::*;

use crate::motion::Motion;
use crate::motion::TextObject;

verus! {

/// One output semantic action.  The host applies these to its buffer.
#[derive(Debug, PartialEq)]
pub enum Event {
    /// Automatically indent
    AutoIndent,
    /// Delete text behind cursor
    Backspace,
    /// Finish grouping changes together
    ChangeFinish,
    /// Start grouping changes together
    ChangeStart,
    /// Copy to clipboard
    Copy,
    /// Delete text in front of cursor
    Delete,
    /// Escape key
    Escape,
    /// Insert character at cursor
    Insert(char),
    /// Move cursor
    Motion(Motion),
    /// Create new line
    NewLine,
    /// Paste from clipboard
    Paste,
    /// Put from a register; `after` selects before or after the cursor
    Put { register: char, after: bool },
    /// Notify of a mode change requiring redraw
    Redraw,
    /// Clear selection
    SelectClear,
    /// Start line selection
    SelectLineStart,
    /// Start selection
    SelectStart,
    /// Select text object; the flag is true for "around", false for "inside"
    SelectTextObject(TextObject, bool),
    /// Set search pattern and direction
    SetSearch(String, bool),
    /// Shift text to the left
    ShiftLeft,
    /// Shift text to the right
    ShiftRight,
    /// Swap case
    SwapCase,
    /// Undo last action
    Undo,
    /// Yank to a register
    Yank { register: char },
}

/// The mathematical view of an [`Event`]: the same shape, with the search
/// pattern as a sequence of characters.
#[verifier::ext_equal]
pub enum EventView {
    AutoIndent,
    Backspace,
    ChangeFinish,
    ChangeStart,
    Copy,
    Delete,
    Escape,
    Insert(char),
    Motion(Motion),
    NewLine,
    Paste,
    Put { register: char, after: bool },
    Redraw,
    SelectClear,
    SelectLineStart,
    SelectStart,
    SelectTextObject(TextObject, bool),
    SetSearch(Seq<char>, bool),
    ShiftLeft,
    ShiftRight,
    SwapCase,
    Undo,
    Yank { register: char },
}

impl View for Event {
    type V = EventView;

    open spec fn view(&self) -> EventView {
        match self {
            Event::AutoIndent => EventView::AutoIndent,
            Event::Backspace => EventView::Backspace,
            Event::ChangeFinish => EventView::ChangeFinish,
            Event::ChangeStart => EventView::ChangeStart,
            Event::Copy => EventView::Copy,
            Event::Delete => EventView::Delete,
            Event::Escape => EventView::Escape,
            Event::Insert(c) => EventView::Insert(*c),
            Event::Motion(m) => EventView::Motion(*m),
            Event::NewLine => EventView::NewLine,
            Event::Paste => EventView::Paste,
            Event::Put { register, after } => EventView::Put { register: *register, after: *after },
            Event::Redraw => EventView::Redraw,
            Event::SelectClear => EventView::SelectClear,
            Event::SelectLineStart => EventView::SelectLineStart,
            Event::SelectStart => EventView::SelectStart,
            Event::SelectTextObject(t, around) => EventView::SelectTextObject(*t, *around),
            Event::SetSearch(value, forwards) => EventView::SetSearch(value@, *forwards),
            Event::ShiftLeft => EventView::ShiftLeft,
            Event::ShiftRight => EventView::ShiftRight,
            Event::SwapCase => EventView::SwapCase,
            Event::Undo => EventView::Undo,
            Event::Yank { register } => EventView::Yank { register: *register },
        }
    }
}

impl Clone for Event {
    /// Cloning an event keeps its view; the search pattern is copied
    /// character for character.
    fn clone(&self) -> (r: Self)
        ensures
            r@ == self@,
    {
        match self {
            Event::AutoIndent => Event::AutoIndent,
            Event::Backspace => Event::Backspace,
            Event::ChangeFinish => Event::ChangeFinish,
            Event::ChangeStart => Event::ChangeStart,
            Event::Copy => Event::Copy,
            Event::Delete => Event::Delete,
            Event::Escape => Event::Escape,
            Event::Insert(c) => Event::Insert(*c),
            Event::Motion(m) => Event::Motion(*m),
            Event::NewLine => Event::NewLine,
            Event::Paste => Event::Paste,
            Event::Put { register, after } => Event::Put { register: *register, after: *after },
            Event::Redraw => Event::Redraw,
            Event::SelectClear => Event::SelectClear,
            Event::SelectLineStart => Event::SelectLineStart,
            Event::SelectStart => Event::SelectStart,
            Event::SelectTextObject(t, around) => Event::SelectTextObject(*t, *around),
            Event::SetSearch(value, forwards) => Event::SetSearch(value.clone(), *forwards),
            Event::ShiftLeft => Event::ShiftLeft,
            Event::ShiftRight => Event::ShiftRight,
            Event::SwapCase => Event::SwapCase,
            Event::Undo => Event::Undo,
            Event::Yank { register } => Event::Yank { register: *register },
        }
    }
}

/// The view of a sequence of events, element by element.
pub open spec fn events_view(s: Seq<Event>) -> Seq<EventView> {
    Seq::new(s.len(), |i: int| s[i]@)
}

/// The view of an optional event buffer.
pub open spec fn opt_events_view(p: Option<Vec<Event>>) -> Option<Seq<EventView>> {
    match p {
        Some(v) => Some(events_view(v@)),
        None => None,
    }
}

/// Appending an event and taking views commutes.
pub broadcast proof fn lemma_events_view_push(s: Seq<Event>, e: Event)
    ensures
        #[trigger] events_view(s.push(e)) == events_view(s).push(e@),
{
    assert(events_view(s.push(e)) =~= events_view(s).push(e@));
}

/// The view of an empty event buffer is empty.
pub broadcast proof fn lemma_events_view_empty(s: Seq<Event>)
    requires
        s.len() == 0,
    ensures
        #[trigger] events_view(s) == Seq::<EventView>::empty(),
{
    assert(events_view(s) =~= Seq::<EventView>::empty());
}

} // verus!
