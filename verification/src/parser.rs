//! The mode machine: the top-level parser that dispatches keys by mode.
//!
//! The whole behaviour of one [`ViParser::parse`] call is given by the
//! specification function [`parse_step`]: from the parser's state, the
//! key and the selection flag it yields the new state and the exact
//! sequence of emitted events.  The executable code is verified against
//! it branch by branch.

use vstd::prelude::*;

use crate::cmd::CtxView;
use crate::cmd::VI_DEFAULT_REGISTER;
use crate::cmd::ViCmd;
use crate::cmd::ViContext;
use crate::cmd::cmd_default;
use crate::cmd::cmd_repeat;
use crate::cmd::cmd_set_motion;
use crate::cmd::cmd_set_operator;
use crate::cmd::cmd_set_text_object;
use crate::cmd::ctx_emit;
use crate::cmd::ctx_emit_seq;
use crate::cmd::ctx_finish_change;
use crate::cmd::ctx_start_change;
use crate::cmd::string_pop;
use crate::cmd::string_push;
use crate::event::Event;
use crate::event::EventView;
use crate::event::events_view;
use crate::event::opt_events_view;
use crate::key::Key;
use crate::key::normalize_key;
use crate::motion::Motion;
use crate::motion::Operator;
use crate::motion::TextObject;
use crate::motion::Word;
use crate::motion::reverse_motion;

verus! {

broadcast use crate::event::lemma_events_view_push, crate::event::lemma_events_view_empty;

/// The parser's mode.  `Normal` is the initial mode and the one
/// [`ViParser::reset`] returns to.
#[derive(Debug, Eq, PartialEq)]
pub enum ViMode {
    /// Normal mode
    Normal,
    /// Waiting for another character to complete a command
    Extra(char),
    /// Insert mode
    Insert,
    /// Replace mode
    Replace,
    /// Visual mode
    Visual,
    /// Visual line mode
    VisualLine,
    /// Command mode, capturing a `:`-prefixed line
    Command { value: String },
    /// Search mode, capturing a pattern
    Search { value: String, forwards: bool },
}

/// The mathematical view of a [`ViMode`]: captured text as a sequence of
/// characters.
#[verifier::ext_equal]
pub enum ModeView {
    Normal,
    Extra(char),
    Insert,
    Replace,
    Visual,
    VisualLine,
    Command { value: Seq<char> },
    Search { value: Seq<char>, forwards: bool },
}

impl View for ViMode {
    type V = ModeView;

    open spec fn view(&self) -> ModeView {
        match self {
            ViMode::Normal => ModeView::Normal,
            ViMode::Extra(c) => ModeView::Extra(*c),
            ViMode::Insert => ModeView::Insert,
            ViMode::Replace => ModeView::Replace,
            ViMode::Visual => ModeView::Visual,
            ViMode::VisualLine => ModeView::VisualLine,
            ViMode::Command { value } => ModeView::Command { value: value@ },
            ViMode::Search { value, forwards } => ModeView::Search {
                value: value@,
                forwards: *forwards,
            },
        }
    }
}

impl Clone for ViMode {
    /// Cloning a mode keeps its view; captured text is copied character
    /// for character.
    fn clone(&self) -> (r: Self)
        ensures
            r@ == self@,
    {
        match self {
            ViMode::Normal => ViMode::Normal,
            ViMode::Extra(c) => ViMode::Extra(*c),
            ViMode::Insert => ViMode::Insert,
            ViMode::Replace => ViMode::Replace,
            ViMode::Visual => ViMode::Visual,
            ViMode::VisualLine => ViMode::VisualLine,
            ViMode::Command { value } => ViMode::Command { value: value.clone() },
            ViMode::Search { value, forwards } => ViMode::Search {
                value: value.clone(),
                forwards: *forwards,
            },
        }
    }
}

/// The view of an optional mode.
pub open spec fn opt_mode_view(m: Option<ViMode>) -> Option<ModeView> {
    match m {
        Some(mode) => Some(mode@),
        None => None,
    }
}

/// The top-level parser: the current mode, the accumulator, the mode to
/// return to after a register selection, the saved find-character motion
/// (for `;` and `,`), the change being recorded, and the last completed
/// change (for `.`).
#[derive(Debug)]
pub struct ViParser {
    pub mode: ViMode,
    pub cmd: ViCmd,
    pub register_mode: ViMode,
    pub semicolon_motion: Option<Motion>,
    pub pending_change: Option<Vec<Event>>,
    pub last_change: Option<Vec<Event>>,
}

/// The mathematical view of a [`ViParser`].
#[verifier::ext_equal]
pub struct ParserView {
    pub mode: ModeView,
    pub cmd: ViCmd,
    pub register_mode: ModeView,
    pub semicolon_motion: Option<Motion>,
    pub pending_change: Option<Seq<EventView>>,
    pub last_change: Option<Seq<EventView>>,
}

impl View for ViParser {
    type V = ParserView;

    open spec fn view(&self) -> ParserView {
        ParserView {
            mode: self.mode@,
            cmd: self.cmd,
            register_mode: self.register_mode@,
            semicolon_motion: self.semicolon_motion,
            pending_change: opt_events_view(self.pending_change),
            last_change: opt_events_view(self.last_change),
        }
    }
}

/// The state of a freshly constructed parser.
pub open spec fn init_view() -> ParserView {
    ParserView {
        mode: ModeView::Normal,
        cmd: cmd_default(),
        register_mode: ModeView::Normal,
        semicolon_motion: None,
        pending_change: None,
        last_change: None,
    }
}

/// What [`ViParser::reset`] does: back to normal mode with an empty
/// accumulator and no remembered find-character motion; the recorded
/// change is kept.
pub open spec fn reset_view(p: ParserView) -> ParserView {
    ParserView { mode: ModeView::Normal, cmd: cmd_default(), semicolon_motion: None, ..p }
}

/// Saturating multiplication of a count by ten.
pub open spec fn sat_mul10(n: usize) -> usize {
    if n * 10 <= usize::MAX {
        (n * 10) as usize
    } else {
        usize::MAX
    }
}

/// Saturating addition of two counts.
pub open spec fn sat_add(a: usize, b: usize) -> usize {
    if a + b <= usize::MAX {
        (a + b) as usize
    } else {
        usize::MAX
    }
}

/// A digit key appended to the accumulated count, saturating at the
/// largest representable count.
pub open spec fn count_with_digit(count: Option<usize>, digit: usize) -> usize {
    match count {
        Some(n) => sat_add(sat_mul10(n), digit),
        None => digit,
    }
}

/// Setting a motion on the parser's accumulator.
pub open spec fn step_motion(p: ParserView, m: Motion, c: CtxView) -> (ParserView, CtxView) {
    let (cmd2, c2) = cmd_set_motion(p.cmd, m, c);
    (ParserView { cmd: cmd2, ..p }, c2)
}

/// Setting an operator on the parser's accumulator.
pub open spec fn step_operator(p: ParserView, op: Operator, c: CtxView) -> (ParserView, CtxView) {
    let (cmd2, c2) = cmd_set_operator(p.cmd, op, c);
    (ParserView { cmd: cmd2, ..p }, c2)
}

/// A motion emitted through a fresh default accumulator: exactly one
/// `Motion` event.
pub open spec fn default_motion(c: CtxView, m: Motion) -> CtxView {
    cmd_set_motion(cmd_default(), m, c).1
}

/// One key handled in `Normal`, `Visual` or `VisualLine` mode, for a
/// `Char` key.  The table is exhaustive for printable ASCII; unmapped
/// characters are no-ops.
pub open spec fn step_primary_char(p: ParserView, ch: char, c: CtxView) -> (ParserView, CtxView) {
    if ch == 'a' {
        // Insert after cursor, or the Around motion when awaiting a text
        // object or in a visual mode
        if p.cmd.operator is Some || !(p.mode is Normal) {
            step_motion(p, Motion::Around, c)
        } else {
            let c2 = default_motion(ctx_start_change(c), Motion::Right);
            (ParserView { mode: ModeView::Insert, ..p }, c2)
        }
    } else if ch == 'A' {
        // Insert at end of line
        let c2 = default_motion(ctx_start_change(c), Motion::End);
        (ParserView { mode: ModeView::Insert, ..p }, c2)
    } else if ch == 'b' {
        // Previous word (if not text object)
        let (cmd2, c2, used) = cmd_set_text_object(p.cmd, TextObject::Block, c);
        if used {
            (ParserView { cmd: cmd2, ..p }, c2)
        } else {
            step_motion(p, Motion::PreviousWordStart(Word::Lower), c)
        }
    } else if ch == 'B' {
        // Previous WORD (if not text object)
        let (cmd2, c2, used) = cmd_set_text_object(p.cmd, TextObject::Block, c);
        if used {
            (ParserView { cmd: cmd2, ..p }, c2)
        } else {
            step_motion(p, Motion::PreviousWordStart(Word::Upper), c)
        }
    } else if ch == 'c' {
        step_operator(p, Operator::Change, c)
    } else if ch == 'C' {
        // Change to end of line
        let (p2, c2) = step_operator(p, Operator::Change, c);
        step_motion(p2, Motion::End, c2)
    } else if ch == 'd' {
        step_operator(p, Operator::Delete, c)
    } else if ch == 'D' {
        // Delete to end of line
        let (p2, c2) = step_operator(p, Operator::Delete, c);
        step_motion(p2, Motion::End, c2)
    } else if ch == 'e' {
        step_motion(p, Motion::NextWordEnd(Word::Lower), c)
    } else if ch == 'E' {
        step_motion(p, Motion::NextWordEnd(Word::Upper), c)
    } else if ch == 'f' || ch == 'F' || ch == 'g' || ch == 'r' || ch == 'z' || ch == 'Z' || ch
        == 'T' {
        // Await one more character
        (ParserView { mode: ModeView::Extra(ch), ..p }, c)
    } else if ch == 'G' {
        // Goto line (or end of file)
        match p.cmd.count {
            Some(line) => {
                let p2 = ParserView { cmd: ViCmd { count: None, ..p.cmd }, ..p };
                step_motion(p2, Motion::GotoLine(line), c)
            },
            None => step_motion(p, Motion::GotoEof, c),
        }
    } else if ch == 'h' {
        step_motion(p, Motion::LeftInLine, c)
    } else if ch == 'H' {
        step_motion(p, Motion::ScreenHigh, c)
    } else if ch == 'i' {
        // Insert at cursor, or the Inside motion when awaiting a text
        // object or in a visual mode
        if p.cmd.operator is Some || !(p.mode is Normal) {
            step_motion(p, Motion::Inside, c)
        } else {
            (ParserView { mode: ModeView::Insert, ..p }, ctx_start_change(c))
        }
    } else if ch == 'I' {
        // Insert at start of line
        let c2 = default_motion(ctx_start_change(c), Motion::SoftHome);
        (ParserView { mode: ModeView::Insert, ..p }, c2)
    } else if ch == 'j' {
        step_motion(p, Motion::Down, c)
    } else if ch == 'k' {
        step_motion(p, Motion::Up, c)
    } else if ch == 'l' {
        step_motion(p, Motion::RightInLine, c)
    } else if ch == 'L' {
        step_motion(p, Motion::ScreenLow, c)
    } else if ch == 'M' {
        step_motion(p, Motion::ScreenMiddle, c)
    } else if ch == 'n' {
        step_motion(p, Motion::NextSearch, c)
    } else if ch == 'N' {
        step_motion(p, Motion::PreviousSearch, c)
    } else if ch == 'o' {
        // Open a line after and insert
        let c2 = ctx_emit(default_motion(ctx_start_change(c), Motion::End), EventView::NewLine);
        (ParserView { mode: ModeView::Insert, ..p }, c2)
    } else if ch == 'O' {
        // Open a line before and insert
        let c2 = default_motion(
            ctx_emit(default_motion(ctx_start_change(c), Motion::Home), EventView::NewLine),
            Motion::Up,
        );
        (ParserView { mode: ModeView::Insert, ..p }, c2)
    } else if ch == 'p' {
        // Paste after (if not text object)
        let (cmd2, c2, used) = cmd_set_text_object(p.cmd, TextObject::Paragraph, c);
        if used {
            (ParserView { cmd: cmd2, ..p }, c2)
        } else {
            let register = p.cmd.register.unwrap_or(VI_DEFAULT_REGISTER);
            (p, ctx_emit(c, EventView::Put { register, after: true }))
        }
    } else if ch == 'P' {
        // Paste before
        let register = p.cmd.register.unwrap_or(VI_DEFAULT_REGISTER);
        (p, ctx_emit(c, EventView::Put { register, after: false }))
    } else if ch == 'R' {
        // Replace mode
        (ParserView { mode: ModeView::Replace, ..p }, ctx_start_change(c))
    } else if ch == 's' {
        // Substitute characters (if not text object)
        let (cmd2, c2, used) = cmd_set_text_object(p.cmd, TextObject::Sentence, c);
        if used {
            (ParserView { cmd: cmd2, ..p }, c2)
        } else {
            let (cmd3, c3) = cmd_repeat(p.cmd, EventView::Delete, ctx_start_change(c));
            (ParserView { mode: ModeView::Insert, cmd: cmd3, ..p }, c3)
        }
    } else if ch == 'S' {
        // Substitute line
        let (p2, c2) = step_operator(p, Operator::Change, c);
        step_motion(p2, Motion::Line, c2)
    } else if ch == 't' {
        // Until character forwards (if not text object)
        let (cmd2, c2, used) = cmd_set_text_object(p.cmd, TextObject::Tag, c);
        if used {
            (ParserView { cmd: cmd2, ..p }, c2)
        } else {
            (ParserView { mode: ModeView::Extra(ch), ..p }, c)
        }
    } else if ch == 'u' {
        (p, ctx_emit(c, EventView::Undo))
    } else if ch == 'v' {
        // Toggle visual mode
        if p.mode is Visual {
            (ParserView { mode: ModeView::Normal, ..p }, ctx_emit(c, EventView::SelectClear))
        } else {
            (ParserView { mode: ModeView::Visual, ..p }, ctx_emit(c, EventView::SelectStart))
        }
    } else if ch == 'V' {
        // Toggle visual line mode
        if p.mode is VisualLine {
            (ParserView { mode: ModeView::Normal, ..p }, ctx_emit(c, EventView::SelectClear))
        } else {
            (
                ParserView { mode: ModeView::VisualLine, ..p },
                ctx_emit(c, EventView::SelectLineStart),
            )
        }
    } else if ch == 'w' {
        // Next word (if not text object)
        let (cmd2, c2, used) = cmd_set_text_object(p.cmd, TextObject::Word(Word::Lower), c);
        if used {
            (ParserView { cmd: cmd2, ..p }, c2)
        } else {
            step_motion(p, Motion::NextWordStart(Word::Lower), c)
        }
    } else if ch == 'W' {
        // Next WORD (if not text object)
        let (cmd2, c2, used) = cmd_set_text_object(p.cmd, TextObject::Word(Word::Upper), c);
        if used {
            (ParserView { cmd: cmd2, ..p }, c2)
        } else {
            step_motion(p, Motion::NextWordStart(Word::Upper), c)
        }
    } else if ch == 'x' {
        // Remove character at cursor
        let (cmd2, c2) = cmd_repeat(p.cmd, EventView::Delete, c);
        (ParserView { cmd: cmd2, ..p }, c2)
    } else if ch == 'X' {
        // Remove character before cursor
        let (cmd2, c2) = cmd_repeat(p.cmd, EventView::Backspace, c);
        (ParserView { cmd: cmd2, ..p }, c2)
    } else if ch == 'y' {
        step_operator(p, Operator::Yank, c)
    } else if ch == 'Y' {
        // Yank line
        let (p2, c2) = step_operator(p, Operator::Yank, c);
        step_motion(p2, Motion::Line, c2)
    } else if ch == '0' {
        // A trailing zero scales the count; with no count it is Home
        match p.cmd.count {
            Some(n) => (
                ParserView { cmd: ViCmd { count: Some(sat_mul10(n)), ..p.cmd }, ..p },
                c,
            ),
            None => step_motion(p, Motion::Home, c),
        }
    } else if '1' <= ch && ch <= '9' {
        // Accumulate the count, saturating
        let digit = (ch as u32 - 48) as usize;
        (
            ParserView {
                cmd: ViCmd { count: Some(count_with_digit(p.cmd.count, digit)), ..p.cmd },
                ..p
            },
            c,
        )
    } else if ch == '`' {
        let (cmd2, c2, _used) = cmd_set_text_object(p.cmd, TextObject::Ticks, c);
        (ParserView { cmd: cmd2, ..p }, c2)
    } else if ch == '~' {
        step_operator(p, Operator::SwapCase, c)
    } else if ch == '$' {
        step_motion(p, Motion::End, c)
    } else if ch == '^' {
        step_motion(p, Motion::SoftHome, c)
    } else if ch == '(' || ch == ')' {
        let (cmd2, c2, _used) = cmd_set_text_object(p.cmd, TextObject::Parentheses, c);
        (ParserView { cmd: cmd2, ..p }, c2)
    } else if ch == '-' {
        // Up and soft home
        let (p2, c2) = step_motion(p, Motion::Up, c);
        step_motion(p2, Motion::SoftHome, c2)
    } else if ch == '+' {
        // Down and soft home
        let (p2, c2) = step_motion(p, Motion::Down, c);
        step_motion(p2, Motion::SoftHome, c2)
    } else if ch == '=' {
        step_operator(p, Operator::AutoIndent, c)
    } else if ch == '[' || ch == ']' {
        let (cmd2, c2, _used) = cmd_set_text_object(p.cmd, TextObject::SquareBrackets, c);
        (ParserView { cmd: cmd2, ..p }, c2)
    } else if ch == '{' || ch == '}' {
        let (cmd2, c2, _used) = cmd_set_text_object(p.cmd, TextObject::CurlyBrackets, c);
        (ParserView { cmd: cmd2, ..p }, c2)
    } else if ch == ';' {
        // Repeat the saved find-character motion
        match p.semicolon_motion {
            Some(m) => step_motion(p, m, c),
            None => (p, c),
        }
    } else if ch == ':' {
        (ParserView { mode: ModeView::Command { value: Seq::empty() }, ..p }, c)
    } else if ch == '\'' {
        let (cmd2, c2, _used) = cmd_set_text_object(p.cmd, TextObject::SingleQuotes, c);
        (ParserView { cmd: cmd2, ..p }, c2)
    } else if ch == '"' {
        // Select a register (if not text object)
        let (cmd2, c2, used) = cmd_set_text_object(p.cmd, TextObject::DoubleQuotes, c);
        if used {
            (ParserView { cmd: cmd2, ..p }, c2)
        } else {
            (ParserView { mode: ModeView::Extra(ch), register_mode: p.mode, ..p }, c)
        }
    } else if ch == ',' {
        // Repeat the saved find-character motion, reversed
        match p.semicolon_motion {
            Some(m) => match reverse_motion(m) {
                Some(r) => step_motion(p, r, c),
                None => (p, c),
            },
            None => (p, c),
        }
    } else if ch == '<' {
        // Unindent (if not text object)
        let (cmd2, c2, used) = cmd_set_text_object(p.cmd, TextObject::AngleBrackets, c);
        if used {
            (ParserView { cmd: cmd2, ..p }, c2)
        } else {
            step_operator(p, Operator::ShiftLeft, c)
        }
    } else if ch == '.' {
        // Replay the last change
        match p.last_change {
            Some(change) => {
                let c2 = ctx_finish_change(ctx_emit_seq(ctx_start_change(c), change));
                (p, c2)
            },
            None => (p, c),
        }
    } else if ch == '>' {
        // Indent (if not text object)
        let (cmd2, c2, used) = cmd_set_text_object(p.cmd, TextObject::AngleBrackets, c);
        if used {
            (ParserView { cmd: cmd2, ..p }, c2)
        } else {
            step_operator(p, Operator::ShiftRight, c)
        }
    } else if ch == '/' {
        (ParserView { mode: ModeView::Search { value: Seq::empty(), forwards: true }, ..p }, c)
    } else if ch == '?' {
        (ParserView { mode: ModeView::Search { value: Seq::empty(), forwards: false }, ..p }, c)
    } else if ch == ' ' {
        step_motion(p, Motion::Right, c)
    } else {
        (p, c)
    }
}

/// One key handled in `Normal`, `Visual` or `VisualLine` mode.
pub open spec fn step_primary(p: ParserView, k: Key, c: CtxView) -> (ParserView, CtxView) {
    match k {
        Key::Backspace => step_motion(p, Motion::Left, c),
        Key::Backtab => (p, c),
        Key::Char(ch) => step_primary_char(p, ch, c),
        Key::Delete => {
            let (cmd2, c2) = cmd_repeat(p.cmd, EventView::Delete, c);
            (ParserView { cmd: cmd2, ..p }, c2)
        },
        Key::Down => step_motion(p, Motion::Down, c),
        Key::End => step_motion(p, Motion::End, c),
        Key::Enter => {
            let (p2, c2) = step_motion(p, Motion::Down, c);
            step_motion(p2, Motion::SoftHome, c2)
        },
        Key::Escape => (reset_view(p), ctx_emit(c, EventView::Escape)),
        Key::Home => step_motion(p, Motion::Home, c),
        Key::Left => step_motion(p, Motion::LeftInLine, c),
        Key::PageDown => step_motion(p, Motion::PageDown, c),
        Key::PageUp => step_motion(p, Motion::PageUp, c),
        Key::Right => step_motion(p, Motion::RightInLine, c),
        Key::Tab => (p, c),
        Key::Up => step_motion(p, Motion::Up, c),
    }
}

/// One key handled in an `Extra` mode: the transient modes entered by
/// `f`, `F`, `t`, `T`, `g`, `r`, `z`, `Z` and `"`, which consume exactly
/// one further key.
pub open spec fn step_extra(p: ParserView, extra: char, k: Key, c: CtxView) -> (
    ParserView,
    CtxView,
) {
    if extra == 'f' || extra == 'F' || extra == 't' || extra == 'T' {
        // Find or till character, forwards or backwards; the motion is
        // remembered for `;` and `,`, surviving the reset that ends the
        // transient mode
        match k {
            Key::Char(x) => {
                let m = if extra == 'f' {
                    Motion::NextChar(x)
                } else if extra == 'F' {
                    Motion::PreviousChar(x)
                } else if extra == 't' {
                    Motion::NextCharTill(x)
                } else {
                    Motion::PreviousCharTill(x)
                };
                let (q, cq) = step_motion(p, m, c);
                (ParserView { semicolon_motion: Some(m), ..reset_view(q) }, cq)
            },
            _ => (reset_view(p), c),
        }
    } else if extra == 'g' {
        // g commands
        let (p2, c2) = match k {
            Key::Char(x) => {
                if x == 'e' {
                    step_motion(p, Motion::PreviousWordEnd(Word::Lower), c)
                } else if x == 'E' {
                    step_motion(p, Motion::PreviousWordEnd(Word::Upper), c)
                } else if x == 'g' {
                    match p.cmd.count {
                        Some(line) => {
                            let q = ParserView { cmd: ViCmd { count: None, ..p.cmd }, ..p };
                            step_motion(q, Motion::GotoLine(line), c)
                        },
                        None => step_motion(p, Motion::GotoLine(1), c),
                    }
                } else if x == 'n' {
                    let (q, cq) = step_motion(p, Motion::Inside, c);
                    let (cmd3, c3, _used) = cmd_set_text_object(
                        q.cmd,
                        TextObject::Search { forwards: true },
                        cq,
                    );
                    (ParserView { cmd: cmd3, ..q }, c3)
                } else if x == 'N' {
                    let (q, cq) = step_motion(p, Motion::Inside, c);
                    let (cmd3, c3, _used) = cmd_set_text_object(
                        q.cmd,
                        TextObject::Search { forwards: false },
                        cq,
                    );
                    (ParserView { cmd: cmd3, ..q }, c3)
                } else {
                    (p, c)
                }
            },
            _ => (p, c),
        };
        (reset_view(p2), c2)
    } else if extra == 'r' {
        // Replace one character
        let c2 = match k {
            Key::Char(x) => {
                let opened = ctx_start_change(c);
                let typed = ctx_emit(ctx_emit(opened, EventView::Delete), EventView::Insert(x));
                ctx_finish_change(default_motion(typed, Motion::LeftInLine))
            },
            _ => c,
        };
        (reset_view(p), c2)
    } else if extra == '"' {
        // Select a register, then return to the remembered mode
        let p2 = match k {
            Key::Char(x) => ParserView { cmd: ViCmd { register: Some(x), ..p.cmd }, ..p },
            _ => p,
        };
        (ParserView { mode: p.register_mode, register_mode: ModeView::Normal, ..p2 }, c)
    } else {
        // Unassigned extra commands are ignored
        (reset_view(p), c)
    }
}

/// One key handled in `Insert` or `Replace` mode.
pub open spec fn step_insert(p: ParserView, k: Key, c: CtxView) -> (ParserView, CtxView) {
    match k {
        Key::Backspace => (p, ctx_emit(c, EventView::Backspace)),
        Key::Backtab => (p, ctx_emit(c, EventView::ShiftLeft)),
        Key::Char(ch) => {
            let typed = if p.mode is Replace {
                ctx_emit(c, EventView::Delete)
            } else {
                c
            };
            (p, ctx_emit(typed, EventView::Insert(ch)))
        },
        Key::Down => (p, default_motion(c, Motion::Down)),
        Key::Delete => (p, ctx_emit(c, EventView::Delete)),
        Key::End => (p, default_motion(c, Motion::End)),
        Key::Enter => (p, ctx_emit(c, EventView::NewLine)),
        Key::Escape => {
            let c2 = ctx_emit(
                ctx_finish_change(default_motion(c, Motion::LeftInLine)),
                EventView::Escape,
            );
            (reset_view(p), c2)
        },
        Key::Home => (p, default_motion(c, Motion::Home)),
        Key::Left => (p, default_motion(c, Motion::LeftInLine)),
        Key::PageDown => (p, default_motion(c, Motion::PageDown)),
        Key::PageUp => (p, default_motion(c, Motion::PageUp)),
        Key::Right => (p, default_motion(c, Motion::RightInLine)),
        Key::Tab => (p, ctx_emit(c, EventView::ShiftRight)),
        Key::Up => (p, default_motion(c, Motion::Up)),
    }
}

/// One key handled in `Command` mode: the captured line grows and
/// shrinks; `Enter` and `Escape` leave the mode.
pub open spec fn step_command(p: ParserView, value: Seq<char>, k: Key, c: CtxView) -> (
    ParserView,
    CtxView,
) {
    match k {
        Key::Escape => (reset_view(p), c),
        Key::Enter => (reset_view(p), c),
        Key::Backspace => {
            if value.len() == 0 {
                (reset_view(p), c)
            } else {
                (ParserView { mode: ModeView::Command { value: value.drop_last() }, ..p }, c)
            }
        },
        Key::Char(ch) => (
            ParserView { mode: ModeView::Command { value: value.push(ch) }, ..p },
            c,
        ),
        _ => (p, c),
    }
}

/// One key handled in `Search` mode: like `Command`, but `Enter` emits
/// the captured pattern and a search motion.
pub open spec fn step_search(
    p: ParserView,
    value: Seq<char>,
    forwards: bool,
    k: Key,
    c: CtxView,
) -> (ParserView, CtxView) {
    match k {
        Key::Escape => (reset_view(p), c),
        Key::Enter => {
            let c2 = default_motion(
                ctx_emit(c, EventView::SetSearch(value, forwards)),
                Motion::NextSearch,
            );
            (reset_view(p), c2)
        },
        Key::Backspace => {
            if value.len() == 0 {
                (reset_view(p), c)
            } else {
                (
                    ParserView {
                        mode: ModeView::Search { value: value.drop_last(), forwards },
                        ..p
                    },
                    c,
                )
            }
        },
        Key::Char(ch) => (
            ParserView { mode: ModeView::Search { value: value.push(ch), forwards }, ..p },
            c,
        ),
        _ => (p, c),
    }
}

/// One normalized key dispatched by mode.
pub open spec fn dispatch(p: ParserView, k: Key, c: CtxView) -> (ParserView, CtxView) {
    match p.mode {
        ModeView::Normal => step_primary(p, k, c),
        ModeView::Visual => step_primary(p, k, c),
        ModeView::VisualLine => step_primary(p, k, c),
        ModeView::Extra(extra) => step_extra(p, extra, k, c),
        ModeView::Insert => step_insert(p, k, c),
        ModeView::Replace => step_insert(p, k, c),
        ModeView::Command { value } => step_command(p, value, k, c),
        ModeView::Search { value, forwards } => step_search(p, value, forwards, k, c),
    }
}

/// The whole behaviour of one [`ViParser::parse`] call: the state after
/// the key and the exact events emitted, ending in `Redraw`.
pub open spec fn parse_step(p: ParserView, key: Key, selection: bool) -> (
    ParserView,
    Seq<EventView>,
) {
    let k = normalize_key(key);
    let taken = ParserView { pending_change: None, ..p };
    let c0 = CtxView {
        events: Seq::empty(),
        selection,
        pending_change: p.pending_change,
        change: None,
        set_mode: None,
    };
    let (p1, c1) = dispatch(taken, k, c0);
    let mode2 = match c1.set_mode {
        Some(m) => m,
        None => p1.mode,
    };
    let p2 = ParserView {
        mode: mode2,
        pending_change: c1.pending_change,
        last_change: match c1.change {
            Some(change) => Some(change),
            None => p1.last_change,
        },
        ..p1
    };
    (p2, c1.events.push(EventView::Redraw))
}

/// Run one motion through a fresh default accumulator: it always fires
/// and emits exactly the events of [`default_motion`].
fn run_default_motion(m: Motion, ctx: &mut ViContext)
    ensures
        final(ctx)@ == default_motion(old(ctx)@, m),
{
    let mut fresh = ViCmd::default();
    fresh.motion(m, ctx);
}

/// Multiply a count by ten, saturating at the largest count.
fn mul10_saturating(n: usize) -> (r: usize)
    ensures
        r == sat_mul10(n),
{
    if n <= usize::MAX / 10 {
        n * 10
    } else {
        usize::MAX
    }
}

/// Add to a count, saturating at the largest count.
fn add_saturating(a: usize, b: usize) -> (r: usize)
    ensures
        r == sat_add(a, b),
{
    if a <= usize::MAX - b {
        a + b
    } else {
        usize::MAX
    }
}

impl ViParser {
    /// A fresh parser: normal mode, an empty accumulator, and no
    /// remembered motion or change.
    pub fn new() -> (r: Self)
        ensures
            r@ == init_view(),
    {
        ViParser {
            mode: ViMode::Normal,
            cmd: ViCmd::default(),
            register_mode: ViMode::Normal,
            semicolon_motion: None,
            pending_change: None,
            last_change: None,
        }
    }

    /// Return to normal mode, clear the accumulator and forget the
    /// remembered find-character motion.  The last change is kept.
    pub fn reset(&mut self)
        ensures
            final(self)@ == reset_view(old(self)@),
    {
        self.mode = ViMode::Normal;
        self.cmd = ViCmd::default();
        self.semicolon_motion = None;
    }

    /// Parse one key and return the emitted events, as given by
    /// [`parse_step`]: for every key, the last event is `Redraw`.
    pub fn parse(&mut self, key: Key, selection: bool) -> (events: Vec<Event>)
        ensures
            ({
                let (p2, emitted) = parse_step(old(self)@, key, selection);
                final(self)@ == p2 && events_view(events@) == emitted
            }),
    {
        let normalized = key.normalize();
        let mut ctx = ViContext {
            events: Vec::new(),
            selection,
            pending_change: self.pending_change.take(),
            change: None,
            set_mode: None,
        };
        let ghost c0 = ctx@;
        let ghost taken = self@;
        proof {
            assert(taken == (ParserView { pending_change: None, ..old(self)@ }));
        }
        let mut mode = ViMode::Normal;
        core::mem::swap(&mut self.mode, &mut mode);
        match mode {
            ViMode::Normal | ViMode::Visual | ViMode::VisualLine => {
                self.mode = mode;
                self.handle_primary(normalized, &mut ctx);
            },
            ViMode::Extra(extra) => {
                self.handle_extra(extra, normalized, &mut ctx);
            },
            ViMode::Insert => {
                self.mode = ViMode::Insert;
                self.handle_insert(normalized, &mut ctx);
            },
            ViMode::Replace => {
                self.mode = ViMode::Replace;
                self.handle_insert(normalized, &mut ctx);
            },
            ViMode::Command { value } => {
                self.handle_command(value, normalized, &mut ctx);
            },
            ViMode::Search { value, forwards } => {
                self.handle_search(value, forwards, normalized, &mut ctx);
            },
        }
        proof {
            let (p1, c1) = dispatch(taken, normalized, c0);
            assert(self@ == p1 && ctx@ == c1);
        }
        match ctx.set_mode.take() {
            Some(m) => {
                self.mode = m;
            },
            None => {},
        }
        self.pending_change = ctx.pending_change.take();
        match ctx.change.take() {
            Some(change) => {
                self.last_change = Some(change);
            },
            None => {},
        }
        ctx.e(Event::Redraw);
        let ViContext { events, .. } = ctx;
        events
    }

    /// One key in `Normal`, `Visual` or `VisualLine` mode.
    fn handle_primary(&mut self, key: Key, ctx: &mut ViContext)
        requires
            old(self)@.mode is Normal || old(self)@.mode is Visual || old(self)@.mode
                is VisualLine,
        ensures
            ({
                let (p2, c2) = step_primary(old(self)@, key, old(ctx)@);
                final(self)@ == p2 && final(ctx)@ == c2
            }),
    {
        match key {
            Key::Backspace => self.cmd.motion(Motion::Left, ctx),
            Key::Backtab => {},
            Key::Char(ch) => self.handle_primary_char(ch, ctx),
            Key::Delete => self.cmd.repeat(Event::Delete, ctx),
            Key::Down => self.cmd.motion(Motion::Down, ctx),
            Key::End => self.cmd.motion(Motion::End, ctx),
            Key::Enter => {
                self.cmd.motion(Motion::Down, ctx);
                self.cmd.motion(Motion::SoftHome, ctx);
            },
            Key::Escape => {
                self.reset();
                ctx.e(Event::Escape);
            },
            Key::Home => self.cmd.motion(Motion::Home, ctx),
            Key::Left => self.cmd.motion(Motion::LeftInLine, ctx),
            Key::PageDown => self.cmd.motion(Motion::PageDown, ctx),
            Key::PageUp => self.cmd.motion(Motion::PageUp, ctx),
            Key::Right => self.cmd.motion(Motion::RightInLine, ctx),
            Key::Tab => {},
            Key::Up => self.cmd.motion(Motion::Up, ctx),
        }
    }

    /// One character key in `Normal`, `Visual` or `VisualLine` mode.
    fn handle_primary_char(&mut self, ch: char, ctx: &mut ViContext)
        requires
            old(self)@.mode is Normal || old(self)@.mode is Visual || old(self)@.mode
                is VisualLine,
        ensures
            ({
                let (p2, c2) = step_primary_char(old(self)@, ch, old(ctx)@);
                final(self)@ == p2 && final(ctx)@ == c2
            }),
    {
        match ch {
            // Enter insert mode after cursor (if not awaiting text object)
            'a' => {
                if self.cmd.operator.is_some() || !matches!(self.mode, ViMode::Normal) {
                    self.cmd.motion(Motion::Around, ctx);
                } else {
                    ctx.start_change();
                    run_default_motion(Motion::Right, ctx);
                    self.mode = ViMode::Insert;
                }
            },
            // Enter insert mode at end of line
            'A' => {
                ctx.start_change();
                run_default_motion(Motion::End, ctx);
                self.mode = ViMode::Insert;
            },
            // Previous word (if not text object)
            'b' => {
                if !self.cmd.text_object(TextObject::Block, ctx) {
                    self.cmd.motion(Motion::PreviousWordStart(Word::Lower), ctx);
                }
            },
            // Previous WORD (if not text object)
            'B' => {
                if !self.cmd.text_object(TextObject::Block, ctx) {
                    self.cmd.motion(Motion::PreviousWordStart(Word::Upper), ctx);
                }
            },
            // Change operator
            'c' => {
                self.cmd.operator(Operator::Change, ctx);
            },
            // Change to end of line
            'C' => {
                self.cmd.operator(Operator::Change, ctx);
                self.cmd.motion(Motion::End, ctx);
            },
            // Delete operator
            'd' => {
                self.cmd.operator(Operator::Delete, ctx);
            },
            // Delete to end of line
            'D' => {
                self.cmd.operator(Operator::Delete, ctx);
                self.cmd.motion(Motion::End, ctx);
            },
            // End of word
            'e' => self.cmd.motion(Motion::NextWordEnd(Word::Lower), ctx),
            // End of WORD
            'E' => self.cmd.motion(Motion::NextWordEnd(Word::Upper), ctx),
            // Find char forwards / backwards, g commands
            'f' | 'F' | 'g' => {
                self.mode = ViMode::Extra(ch);
            },
            // Goto line (or end of file)
            'G' => {
                match self.cmd.count {
                    Some(line) => {
                        self.cmd.count = None;
                        self.cmd.motion(Motion::GotoLine(line), ctx);
                    },
                    None => self.cmd.motion(Motion::GotoEof, ctx),
                }
            },
            // Left (in line)
            'h' => self.cmd.motion(Motion::LeftInLine, ctx),
            // Top of screen
            'H' => self.cmd.motion(Motion::ScreenHigh, ctx),
            // Enter insert mode at cursor (if not awaiting text object)
            'i' => {
                if self.cmd.operator.is_some() || !matches!(self.mode, ViMode::Normal) {
                    self.cmd.motion(Motion::Inside, ctx);
                } else {
                    ctx.start_change();
                    self.mode = ViMode::Insert;
                }
            },
            // Enter insert mode at start of line
            'I' => {
                ctx.start_change();
                run_default_motion(Motion::SoftHome, ctx);
                self.mode = ViMode::Insert;
            },
            // Down
            'j' => self.cmd.motion(Motion::Down, ctx),
            // Up
            'k' => self.cmd.motion(Motion::Up, ctx),
            // Right (in line)
            'l' => self.cmd.motion(Motion::RightInLine, ctx),
            // Bottom of screen
            'L' => self.cmd.motion(Motion::ScreenLow, ctx),
            // Middle of screen
            'M' => self.cmd.motion(Motion::ScreenMiddle, ctx),
            // Next search item
            'n' => self.cmd.motion(Motion::NextSearch, ctx),
            // Previous search item
            'N' => self.cmd.motion(Motion::PreviousSearch, ctx),
            // Create line after and enter insert mode
            'o' => {
                ctx.start_change();
                run_default_motion(Motion::End, ctx);
                ctx.e(Event::NewLine);
                self.mode = ViMode::Insert;
            },
            // Create line before and enter insert mode
            'O' => {
                ctx.start_change();
                run_default_motion(Motion::Home, ctx);
                ctx.e(Event::NewLine);
                run_default_motion(Motion::Up, ctx);
                self.mode = ViMode::Insert;
            },
            // Paste after (if not text object)
            'p' => {
                if !self.cmd.text_object(TextObject::Paragraph, ctx) {
                    let register = self.cmd.register.unwrap_or(VI_DEFAULT_REGISTER);
                    ctx.e(Event::Put { register, after: true });
                }
            },
            // Paste before
            'P' => {
                let register = self.cmd.register.unwrap_or(VI_DEFAULT_REGISTER);
                ctx.e(Event::Put { register, after: false });
            },
            // Replace char
            'r' => {
                self.mode = ViMode::Extra(ch);
            },
            // Replace mode
            'R' => {
                ctx.start_change();
                self.mode = ViMode::Replace;
            },
            // Substitute char (if not text object)
            's' => {
                if !self.cmd.text_object(TextObject::Sentence, ctx) {
                    ctx.start_change();
                    self.cmd.repeat(Event::Delete, ctx);
                    self.mode = ViMode::Insert;
                }
            },
            // Substitute line
            'S' => {
                self.cmd.operator(Operator::Change, ctx);
                self.cmd.motion(Motion::Line, ctx);
            },
            // Until character forwards (if not text object)
            't' => {
                if !self.cmd.text_object(TextObject::Tag, ctx) {
                    self.mode = ViMode::Extra(ch);
                }
            },
            // Until character backwards
            'T' => {
                self.mode = ViMode::Extra(ch);
            },
            // Undo
            'u' => {
                ctx.e(Event::Undo);
            },
            // Toggle visual mode
            'v' => {
                if matches!(self.mode, ViMode::Visual) {
                    ctx.e(Event::SelectClear);
                    self.mode = ViMode::Normal;
                } else {
                    ctx.e(Event::SelectStart);
                    self.mode = ViMode::Visual;
                }
            },
            // Toggle visual line mode
            'V' => {
                if matches!(self.mode, ViMode::VisualLine) {
                    ctx.e(Event::SelectClear);
                    self.mode = ViMode::Normal;
                } else {
                    ctx.e(Event::SelectLineStart);
                    self.mode = ViMode::VisualLine;
                }
            },
            // Next word (if not text object)
            'w' => {
                if !self.cmd.text_object(TextObject::Word(Word::Lower), ctx) {
                    self.cmd.motion(Motion::NextWordStart(Word::Lower), ctx);
                }
            },
            // Next WORD (if not text object)
            'W' => {
                if !self.cmd.text_object(TextObject::Word(Word::Upper), ctx) {
                    self.cmd.motion(Motion::NextWordStart(Word::Upper), ctx);
                }
            },
            // Remove character at cursor
            'x' => self.cmd.repeat(Event::Delete, ctx),
            // Remove character before cursor
            'X' => self.cmd.repeat(Event::Backspace, ctx),
            // Yank operator
            'y' => self.cmd.operator(Operator::Yank, ctx),
            // Yank line
            'Y' => {
                self.cmd.operator(Operator::Yank, ctx);
                self.cmd.motion(Motion::Line, ctx);
            },
            // z and Z commands
            'z' | 'Z' => {
                self.mode = ViMode::Extra(ch);
            },
            // Scale the count, or go to start of line
            '0' => {
                match self.cmd.count {
                    Some(count) => {
                        self.cmd.count = Some(mul10_saturating(count));
                    },
                    None => {
                        self.cmd.motion(Motion::Home, ctx);
                    },
                }
            },
            // Ticks text object
            '`' => {
                let _ = self.cmd.text_object(TextObject::Ticks, ctx);
            },
            // Swap case operator
            '~' => self.cmd.operator(Operator::SwapCase, ctx),
            // Go to end of line
            '$' => self.cmd.motion(Motion::End, ctx),
            // Go to start of line after whitespace
            '^' => self.cmd.motion(Motion::SoftHome, ctx),
            // Parentheses text object
            '(' | ')' => {
                let _ = self.cmd.text_object(TextObject::Parentheses, ctx);
            },
            // Move up and soft home
            '-' => {
                self.cmd.motion(Motion::Up, ctx);
                self.cmd.motion(Motion::SoftHome, ctx);
            },
            // Move down and soft home
            '+' => {
                self.cmd.motion(Motion::Down, ctx);
                self.cmd.motion(Motion::SoftHome, ctx);
            },
            // Auto indent operator
            '=' => self.cmd.operator(Operator::AutoIndent, ctx),
            // Square brackets text object
            '[' | ']' => {
                let _ = self.cmd.text_object(TextObject::SquareBrackets, ctx);
            },
            // Curly brackets text object
            '{' | '}' => {
                let _ = self.cmd.text_object(TextObject::CurlyBrackets, ctx);
            },
            // Repeat f/F/t/T
            ';' => {
                match self.semicolon_motion {
                    Some(motion) => self.cmd.motion(motion, ctx),
                    None => {},
                }
            },
            // Enter command mode
            ':' => {
                self.mode = ViMode::Command { value: String::new() };
            },
            // Single quotes text object
            '\'' => {
                let _ = self.cmd.text_object(TextObject::SingleQuotes, ctx);
            },
            // Select register (if not text object)
            '"' => {
                if !self.cmd.text_object(TextObject::DoubleQuotes, ctx) {
                    self.register_mode = match self.mode {
                        ViMode::Visual => ViMode::Visual,
                        ViMode::VisualLine => ViMode::VisualLine,
                        _ => ViMode::Normal,
                    };
                    self.mode = ViMode::Extra(ch);
                }
            },
            // Reverse f/F/t/T
            ',' => {
                match self.semicolon_motion {
                    Some(motion) => {
                        match motion.reverse() {
                            Some(reversed) => self.cmd.motion(reversed, ctx),
                            None => {},
                        }
                    },
                    None => {},
                }
            },
            // Unindent (if not text object)
            '<' => {
                if !self.cmd.text_object(TextObject::AngleBrackets, ctx) {
                    self.cmd.operator(Operator::ShiftLeft, ctx);
                }
            },
            // Repeat change
            '.' => {
                self.replay_last_change(ctx);
            },
            // Indent (if not text object)
            '>' => {
                if !self.cmd.text_object(TextObject::AngleBrackets, ctx) {
                    self.cmd.operator(Operator::ShiftRight, ctx);
                }
            },
            // Enter search mode
            '/' => {
                self.mode = ViMode::Search { value: String::new(), forwards: true };
            },
            // Enter search backwards mode
            '?' => {
                self.mode = ViMode::Search { value: String::new(), forwards: false };
            },
            // Right
            ' ' => self.cmd.motion(Motion::Right, ctx),
            // Counts, and unmapped characters as no-ops
            _ => {
                let code = ch as u32;
                if 49 <= code && code <= 57 {
                    let digit = (code - 48) as usize;
                    let next = match self.cmd.count {
                        Some(count) => add_saturating(mul10_saturating(count), digit),
                        None => digit,
                    };
                    self.cmd.count = Some(next);
                }
            },
        }
    }

    /// Replay the last completed change as one new bracketed change.
    fn replay_last_change(&mut self, ctx: &mut ViContext)
        ensures
            ({
                let (p2, c2) = step_primary_char(old(self)@, '.', old(ctx)@);
                final(self)@ == p2 && final(ctx)@ == c2
            }),
    {
        match &self.last_change {
            Some(change) => {
                ctx.start_change();
                let ghost opened = ctx@;
                let ghost replayed = events_view(change@);
                let len = change.len();
                let mut i: usize = 0;
                proof {
                    crate::cmd::lemma_ctx_emit_seq_empty(opened);
                    assert(replayed.take(0) =~= Seq::<EventView>::empty());
                }
                while i < len
                    invariant
                        i <= len,
                        len == change@.len(),
                        replayed == events_view(change@),
                        ctx@ == ctx_emit_seq(opened, replayed.take(i as int)),
                    decreases len - i,
                {
                    let ev = change[i].clone();
                    ctx.e(ev);
                    proof {
                        assert(replayed.take((i + 1) as int) =~= replayed.take(i as int).push(
                            replayed[i as int],
                        ));
                        crate::cmd::lemma_ctx_emit_seq_push(
                            opened,
                            replayed.take(i as int),
                            replayed[i as int],
                        );
                    }
                    i = i + 1;
                }
                proof {
                    assert(replayed.take(len as int) =~= replayed);
                }
                ctx.finish_change();
            },
            None => {},
        }
    }

    /// One key in an `Extra` mode entered by the given character.
    fn handle_extra(&mut self, extra: char, key: Key, ctx: &mut ViContext)
        ensures
            ({
                let (p2, c2) = step_extra(
                    ParserView { mode: ModeView::Extra(extra), ..old(self)@ },
                    extra,
                    key,
                    old(ctx)@,
                );
                final(self)@ == p2 && final(ctx)@ == c2
            }),
    {
        if extra == 'f' || extra == 'F' || extra == 't' || extra == 'T' {
            match key {
                Key::Char(x) => {
                    let motion = if extra == 'f' {
                        Motion::NextChar(x)
                    } else if extra == 'F' {
                        Motion::PreviousChar(x)
                    } else if extra == 't' {
                        Motion::NextCharTill(x)
                    } else {
                        Motion::PreviousCharTill(x)
                    };
                    self.cmd.motion(motion, ctx);
                    self.reset();
                    self.semicolon_motion = Some(motion);
                },
                _ => {
                    self.reset();
                },
            }
        } else if extra == 'g' {
            match key {
                Key::Char(x) => {
                    if x == 'e' {
                        self.cmd.motion(Motion::PreviousWordEnd(Word::Lower), ctx);
                    } else if x == 'E' {
                        self.cmd.motion(Motion::PreviousWordEnd(Word::Upper), ctx);
                    } else if x == 'g' {
                        match self.cmd.count {
                            Some(line) => {
                                self.cmd.count = None;
                                self.cmd.motion(Motion::GotoLine(line), ctx);
                            },
                            None => self.cmd.motion(Motion::GotoLine(1), ctx),
                        }
                    } else if x == 'n' {
                        self.cmd.motion(Motion::Inside, ctx);
                        let _ = self.cmd.text_object(TextObject::Search { forwards: true }, ctx);
                    } else if x == 'N' {
                        self.cmd.motion(Motion::Inside, ctx);
                        let _ = self.cmd.text_object(TextObject::Search { forwards: false }, ctx);
                    }
                },
                _ => {},
            }
            self.reset();
        } else if extra == 'r' {
            match key {
                Key::Char(x) => {
                    ctx.start_change();
                    ctx.e(Event::Delete);
                    ctx.e(Event::Insert(x));
                    run_default_motion(Motion::LeftInLine, ctx);
                    ctx.finish_change();
                },
                _ => {},
            }
            self.reset();
        } else if extra == '"' {
            match key {
                Key::Char(x) => {
                    self.cmd.register = Some(x);
                },
                _ => {},
            }
            let mut remembered = ViMode::Normal;
            core::mem::swap(&mut self.register_mode, &mut remembered);
            self.mode = remembered;
        } else {
            // Unassigned extra commands are ignored
            self.reset();
        }
    }

    /// One key in `Insert` or `Replace` mode.
    fn handle_insert(&mut self, key: Key, ctx: &mut ViContext)
        requires
            old(self)@.mode is Insert || old(self)@.mode is Replace,
        ensures
            ({
                let (p2, c2) = step_insert(old(self)@, key, old(ctx)@);
                final(self)@ == p2 && final(ctx)@ == c2
            }),
    {
        match key {
            Key::Backspace => ctx.e(Event::Backspace),
            Key::Backtab => ctx.e(Event::ShiftLeft),
            Key::Char(c) => {
                if matches!(self.mode, ViMode::Replace) {
                    ctx.e(Event::Delete);
                }
                ctx.e(Event::Insert(c));
            },
            Key::Down => run_default_motion(Motion::Down, ctx),
            Key::Delete => ctx.e(Event::Delete),
            Key::End => run_default_motion(Motion::End, ctx),
            Key::Enter => ctx.e(Event::NewLine),
            Key::Escape => {
                run_default_motion(Motion::LeftInLine, ctx);
                ctx.finish_change();
                ctx.e(Event::Escape);
                self.reset();
            },
            Key::Home => run_default_motion(Motion::Home, ctx),
            Key::Left => run_default_motion(Motion::LeftInLine, ctx),
            Key::PageDown => run_default_motion(Motion::PageDown, ctx),
            Key::PageUp => run_default_motion(Motion::PageUp, ctx),
            Key::Right => run_default_motion(Motion::RightInLine, ctx),
            Key::Tab => ctx.e(Event::ShiftRight),
            Key::Up => run_default_motion(Motion::Up, ctx),
        }
    }

    /// One key in `Command` mode; the captured line is owned here.
    fn handle_command(&mut self, value: String, key: Key, ctx: &mut ViContext)
        ensures
            ({
                let (p2, c2) = step_command(
                    ParserView { mode: ModeView::Command { value: value@ }, ..old(self)@ },
                    value@,
                    key,
                    old(ctx)@,
                );
                final(self)@ == p2 && final(ctx)@ == c2
            }),
    {
        let mut line = value;
        match key {
            Key::Escape => {
                self.reset();
            },
            Key::Enter => {
                self.reset();
            },
            Key::Backspace => {
                match string_pop(&mut line) {
                    None => {
                        self.reset();
                    },
                    Some(_) => {
                        self.mode = ViMode::Command { value: line };
                    },
                }
            },
            Key::Char(c) => {
                string_push(&mut line, c);
                self.mode = ViMode::Command { value: line };
            },
            _ => {
                self.mode = ViMode::Command { value: line };
            },
        }
    }

    /// One key in `Search` mode; the captured pattern is owned here.
    fn handle_search(&mut self, value: String, forwards: bool, key: Key, ctx: &mut ViContext)
        ensures
            ({
                let (p2, c2) = step_search(
                    ParserView {
                        mode: ModeView::Search { value: value@, forwards },
                        ..old(self)@
                    },
                    value@,
                    forwards,
                    key,
                    old(ctx)@,
                );
                final(self)@ == p2 && final(ctx)@ == c2
            }),
    {
        let mut pattern = value;
        match key {
            Key::Escape => {
                self.reset();
            },
            Key::Enter => {
                ctx.e(Event::SetSearch(pattern, forwards));
                self.reset();
                run_default_motion(Motion::NextSearch, ctx);
            },
            Key::Backspace => {
                match string_pop(&mut pattern) {
                    None => {
                        self.reset();
                    },
                    Some(_) => {
                        self.mode = ViMode::Search { value: pattern, forwards };
                    },
                }
            },
            Key::Char(c) => {
                string_push(&mut pattern, c);
                self.mode = ViMode::Search { value: pattern, forwards };
            },
            _ => {
                self.mode = ViMode::Search { value: pattern, forwards };
            },
        }
    }
}

/// A keystroke parser: feeds on keys, emits editing events.
pub trait Parser {
    /// Return the parser to its initial mode.
    fn reset(&mut self);

    /// Handle one key with the given selection state, returning the
    /// emitted events in order.
    fn parse(&mut self, key: Key, selection: bool) -> Vec<Event>;
}

impl Parser for ViParser {
    fn reset(&mut self) {
        ViParser::reset(self);
    }

    fn parse(&mut self, key: Key, selection: bool) -> Vec<Event> {
        ViParser::parse(self, key, selection)
    }
}

} // verus!
