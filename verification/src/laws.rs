//! Laws of the parser, proved once over the specification functions:
//! the redraw terminator, change bracketing, accumulator reset, the
//! one-shot nature of the `Extra` modes, dot-repeat, and the behaviour
//! of `reset` and doubled operators.

use vstd::prelude::*;

use crate::cmd::CtxView;
use crate::cmd::ViCmd;
use crate::cmd::apply_operator;
use crate::cmd::cmd_can_run;
use crate::cmd::cmd_default;
use crate::cmd::cmd_run;
use crate::cmd::cmd_set_motion;
use crate::cmd::cmd_set_operator;
use crate::cmd::cmd_wants_text_object;
use crate::cmd::ctx_emit;
use crate::cmd::ctx_emit_seq;
use crate::cmd::ctx_finish_change;
use crate::cmd::ctx_start_change;
use crate::cmd::select_prelude;
use crate::event::EventView;
use crate::key::Key;
use crate::key::normalize_key;
use crate::motion::Motion;
use crate::motion::Operator;
use crate::parser::ModeView;
use crate::parser::ParserView;
use crate::parser::count_with_digit;
use crate::parser::default_motion;
use crate::parser::dispatch;
use crate::parser::init_view;
use crate::parser::parse_step;
use crate::parser::reset_view;
use crate::parser::step_extra;
use crate::parser::step_insert;
use crate::parser::step_command;
use crate::parser::step_primary;
use crate::parser::step_primary_char;
use crate::parser::step_search;

verus! {

/// An event that may stand inside a recorded change: anything but the
/// bracketing events and the redraw terminator, which are never teed
/// into a change buffer.
pub open spec fn plain_event(e: EventView) -> bool {
    e != EventView::Redraw && e != EventView::ChangeStart && e != EventView::ChangeFinish
}

/// A sequence of events all of which may stand inside a recorded change.
pub open spec fn plain_events(s: Seq<EventView>) -> bool {
    forall|i: int| 0 <= i < s.len() ==> plain_event(#[trigger] s[i])
}

/// A change buffer, when present, holds only plain events.
pub open spec fn plain_opt(o: Option<Seq<EventView>>) -> bool {
    match o {
        Some(s) => plain_events(s),
        None => true,
    }
}

/// No event of the sequence is a redraw.
pub open spec fn no_redraw(s: Seq<EventView>) -> bool {
    forall|i: int| 0 <= i < s.len() ==> #[trigger] s[i] != EventView::Redraw
}

/// The bracket depth after walking the sequence from depth `d`: each
/// `ChangeStart` opens a level and each `ChangeFinish` closes one.
pub open spec fn depth_after(s: Seq<EventView>, d: int) -> int
    decreases s.len(),
{
    if s.len() == 0 {
        d
    } else {
        depth_after(s.drop_last(), d) + (if s.last() == EventView::ChangeStart {
            1int
        } else if s.last() == EventView::ChangeFinish {
            -1int
        } else {
            0int
        })
    }
}

/// Change brackets balance: walking the sequence from depth `d`, every
/// `ChangeFinish` arrives at a positive depth, so each one closes a
/// `ChangeStart` seen before it.
pub open spec fn bracket_ok(s: Seq<EventView>, d: int) -> bool
    decreases s.len(),
{
    if s.len() == 0 {
        true
    } else {
        bracket_ok(s.drop_last(), d) && (s.last() == EventView::ChangeFinish ==> depth_after(
            s.drop_last(),
            d,
        ) >= 1)
    }
}

/// The number of occurrences of an event in a sequence.
pub open spec fn count_event(s: Seq<EventView>, e: EventView) -> int
    decreases s.len(),
{
    if s.len() == 0 {
        0
    } else {
        count_event(s.drop_last(), e) + (if s.last() == e {
            1int
        } else {
            0int
        })
    }
}

/// The bracket depth an emission context stands at: one while a change
/// is being recorded.
pub open spec fn cdepth(c: CtxView) -> int {
    if c.pending_change is Some {
        1
    } else {
        0
    }
}

/// The bracket depth a parser state stands at between calls.
pub open spec fn pdepth(p: ParserView) -> int {
    if p.pending_change is Some {
        1
    } else {
        0
    }
}

/// The invariant an emission context keeps through one call, relative to
/// the depth `d0` the call started at: no redraw has been emitted, the
/// change buffers hold only plain events, the emitted events bracket
/// correctly from `d0`, and the current depth matches the pending
/// buffer.
pub open spec fn ctx_inv(c: CtxView, d0: int) -> bool {
    &&& no_redraw(c.events)
    &&& plain_opt(c.pending_change)
    &&& plain_opt(c.change)
    &&& bracket_ok(c.events, d0)
    &&& depth_after(c.events, d0) == cdepth(c)
    &&& 0 <= d0 <= 1
}

/// The well-formedness of a parser state between calls: the change
/// buffers hold only plain events, a change is pending exactly in the
/// insert-family modes, and the remembered register mode is one a
/// register selection can return to.
pub open spec fn wf_state(p: ParserView) -> bool {
    &&& plain_opt(p.pending_change)
    &&& plain_opt(p.last_change)
    &&& (p.pending_change is Some <==> (p.mode is Insert || p.mode is Replace))
    &&& (p.register_mode is Normal || p.register_mode is Visual || p.register_mode is VisualLine)
}

/// The mode a call ends in: the mode the context requested, if any,
/// else the mode the dispatch left.
pub open spec fn final_mode(p: ParserView, c: CtxView) -> ModeView {
    match c.set_mode {
        Some(m) => m,
        None => p.mode,
    }
}

/// What dispatching one key guarantees of its outcome: the context
/// invariant holds on, the pending buffer matches the mode the call
/// ends in, the requested mode is only ever the insert or normal mode,
/// the last change is untouched, and the register mode stays one a
/// register selection can return to.
pub open spec fn dispatch_post(p: ParserView, p2: ParserView, c2: CtxView, d0: int) -> bool {
    &&& ctx_inv(c2, d0)
    &&& (c2.pending_change is Some <==> (final_mode(p2, c2) is Insert || final_mode(p2, c2)
        is Replace))
    &&& (match c2.set_mode {
        Some(m) => m is Insert || m is Normal,
        None => true,
    })
    &&& p2.last_change == p.last_change
    &&& (p2.register_mode is Normal || p2.register_mode is Visual || p2.register_mode
        is VisualLine)
}

/// Appending one event keeps the walking facts in step.
proof fn lemma_walk_push(s: Seq<EventView>, e: EventView, d: int)
    requires
        no_redraw(s),
        e != EventView::Redraw,
        bracket_ok(s, d),
        e == EventView::ChangeFinish ==> depth_after(s, d) >= 1,
    ensures
        depth_after(s.push(e), d) == depth_after(s, d) + (if e == EventView::ChangeStart {
            1int
        } else if e == EventView::ChangeFinish {
            -1int
        } else {
            0int
        }),
        bracket_ok(s.push(e), d),
        no_redraw(s.push(e)),
{
    assert(s.push(e).drop_last() =~= s);
    assert(s.push(e).last() == e);
    assert forall|i: int| 0 <= i < s.push(e).len() implies #[trigger] s.push(e)[i]
        != EventView::Redraw by {
        if i < s.len() {
            assert(s.push(e)[i] == s[i]);
        }
    }
}

/// Pushing a plain event onto a plain buffer keeps it plain.
proof fn lemma_plain_push(s: Seq<EventView>, e: EventView)
    requires
        plain_events(s),
        plain_event(e),
    ensures
        plain_events(s.push(e)),
{
    assert forall|i: int| 0 <= i < s.push(e).len() implies plain_event(s.push(e)[i]) by {
        if i < s.len() {
            assert(s.push(e)[i] == s[i]);
        } else {
            assert(s.push(e)[i] == e);
        }
    }
}

/// Emitting one plain event preserves the context invariant and the
/// pending buffer's presence.
proof fn lemma_emit_inv(c: CtxView, e: EventView, d0: int)
    requires
        ctx_inv(c, d0),
        plain_event(e),
    ensures
        ctx_inv(ctx_emit(c, e), d0),
        ctx_emit(c, e).pending_change is Some <==> c.pending_change is Some,
        ctx_emit(c, e).set_mode == c.set_mode,
        ctx_emit(c, e).change == c.change,
{
    lemma_walk_push(c.events, e, d0);
    match c.pending_change {
        Some(s) => lemma_plain_push(s, e),
        None => {},
    }
}

/// Emitting a sequence of plain events preserves the context invariant
/// and the pending buffer's presence.
proof fn lemma_emit_seq_inv(c: CtxView, s: Seq<EventView>, d0: int)
    requires
        ctx_inv(c, d0),
        plain_events(s),
    ensures
        ctx_inv(ctx_emit_seq(c, s), d0),
        ctx_emit_seq(c, s).pending_change is Some <==> c.pending_change is Some,
        ctx_emit_seq(c, s).set_mode == c.set_mode,
        ctx_emit_seq(c, s).change == c.change,
    decreases s.len(),
{
    if s.len() == 0 {
        crate::cmd::lemma_ctx_emit_seq_empty(c);
    } else {
        let front = s.drop_last();
        assert(front.push(s.last()) =~= s);
        assert(plain_events(front)) by {
            assert forall|i: int| 0 <= i < front.len() implies plain_event(front[i]) by {
                assert(front[i] == s[i]);
            }
        }
        lemma_emit_seq_inv(c, front, d0);
        crate::cmd::lemma_ctx_emit_seq_push(c, front, s.last());
        lemma_emit_inv(ctx_emit_seq(c, front), s.last(), d0);
    }
}

/// Opening a change when none is pending preserves the context
/// invariant and makes a change pending.
proof fn lemma_start_inv(c: CtxView, d0: int)
    requires
        ctx_inv(c, d0),
        c.pending_change is None,
    ensures
        ctx_inv(ctx_start_change(c), d0),
        ctx_start_change(c).pending_change is Some,
        ctx_start_change(c).set_mode == c.set_mode,
        ctx_start_change(c).change == c.change,
{
    lemma_walk_push(c.events, EventView::ChangeStart, d0);
}

/// Closing the pending change preserves the context invariant and
/// leaves no change pending.
proof fn lemma_finish_inv(c: CtxView, d0: int)
    requires
        ctx_inv(c, d0),
        c.pending_change is Some,
    ensures
        ctx_inv(ctx_finish_change(c), d0),
        ctx_finish_change(c).pending_change is None,
        ctx_finish_change(c).set_mode == c.set_mode,
        ctx_finish_change(c).change == c.pending_change,
{
    lemma_walk_push(c.events, EventView::ChangeFinish, d0);
}

/// A repeated plain event gives a plain sequence.
proof fn lemma_plain_repeat(e: EventView, n: nat)
    requires
        plain_event(e),
    ensures
        plain_events(Seq::new(n, |i: int| e)),
{
}

/// Running the accumulated command preserves the context invariant;
/// when an operator fires, the requested mode and the pending change
/// agree (insert keeps the change open, everything else closes it), and
/// without an operator the context's bookkeeping is untouched.
proof fn lemma_cmd_run_inv(cmd: ViCmd, c: CtxView, d0: int)
    requires
        ctx_inv(c, d0),
        cmd.operator is Some ==> c.pending_change is None,
    ensures
        ({
            let (cmd2, c2) = cmd_run(cmd, c);
            &&& ctx_inv(c2, d0)
            &&& !cmd_can_run(cmd, c.selection) ==> (cmd2 == cmd && c2 == c)
            &&& (cmd_can_run(cmd, c.selection) ==> match cmd.operator {
                Some(op) => {
                    if op == Operator::Change {
                        c2.set_mode == Some(ModeView::Insert) && c2.pending_change is Some
                            && c2.change == c.change
                    } else {
                        c2.set_mode == Some(ModeView::Normal) && c2.pending_change is None
                    }
                },
                None => c2.set_mode == c.set_mode && c2.change == c.change && (
                c2.pending_change is Some <==> c.pending_change is Some),
            })
        }),
{
    if cmd_can_run(cmd, c.selection) {
        let register = cmd.register.unwrap_or(crate::cmd::VI_DEFAULT_REGISTER);
        let count = cmd.count.unwrap_or(1);
        let motion = cmd.motion.unwrap_or(Motion::Selection);
        let text_object = cmd.text_object;
        match cmd.operator {
            Some(op) => {
                let opened = ctx_start_change(c);
                lemma_start_inv(c, d0);
                let selected = select_prelude(motion, text_object, count, opened);
                match motion {
                    Motion::Around => lemma_emit_inv(
                        opened,
                        EventView::SelectTextObject(text_object.unwrap(), true),
                        d0,
                    ),
                    Motion::Inside => lemma_emit_inv(
                        opened,
                        EventView::SelectTextObject(text_object.unwrap(), false),
                        d0,
                    ),
                    Motion::Line => lemma_emit_inv(opened, EventView::SelectLineStart, d0),
                    Motion::Selection => {},
                    _ => {
                        lemma_emit_inv(opened, EventView::SelectStart, d0);
                        lemma_plain_repeat(EventView::Motion(motion), count as nat);
                        lemma_emit_seq_inv(
                            ctx_emit(opened, EventView::SelectStart),
                            Seq::new(count as nat, |i: int| EventView::Motion(motion)),
                            d0,
                        );
                    },
                }
                let acted = apply_operator(op, register, selected);
                match op {
                    Operator::Change => {
                        lemma_emit_inv(selected, EventView::Yank { register }, d0);
                        lemma_emit_inv(
                            ctx_emit(selected, EventView::Yank { register }),
                            EventView::Delete,
                            d0,
                        );
                    },
                    Operator::Delete => {
                        lemma_emit_inv(selected, EventView::Yank { register }, d0);
                        lemma_emit_inv(
                            ctx_emit(selected, EventView::Yank { register }),
                            EventView::Delete,
                            d0,
                        );
                    },
                    Operator::AutoIndent => lemma_emit_inv(selected, EventView::AutoIndent, d0),
                    Operator::ShiftLeft => lemma_emit_inv(selected, EventView::ShiftLeft, d0),
                    Operator::ShiftRight => lemma_emit_inv(selected, EventView::ShiftRight, d0),
                    Operator::SwapCase => lemma_emit_inv(selected, EventView::SwapCase, d0),
                    Operator::Yank => lemma_emit_inv(selected, EventView::Yank { register }, d0),
                }
                let cleared = ctx_emit(acted, EventView::SelectClear);
                lemma_emit_inv(acted, EventView::SelectClear, d0);
                if op == Operator::Change {
                } else {
                    lemma_finish_inv(cleared, d0);
                }
            },
            None => {
                match motion {
                    Motion::Around => lemma_emit_inv(
                        c,
                        EventView::SelectTextObject(text_object.unwrap(), true),
                        d0,
                    ),
                    Motion::Inside => lemma_emit_inv(
                        c,
                        EventView::SelectTextObject(text_object.unwrap(), false),
                        d0,
                    ),
                    _ => {
                        lemma_plain_repeat(EventView::Motion(motion), count as nat);
                        lemma_emit_seq_inv(
                            c,
                            Seq::new(count as nat, |i: int| EventView::Motion(motion)),
                            d0,
                        );
                    },
                }
            },
        }
    }
}

/// A motion run through a fresh accumulator leaves the context's
/// bookkeeping untouched and preserves the invariant.
proof fn lemma_default_motion_inv(c: CtxView, m: Motion, d0: int)
    requires
        ctx_inv(c, d0),
    ensures
        ctx_inv(default_motion(c, m), d0),
        default_motion(c, m).set_mode == c.set_mode,
        default_motion(c, m).pending_change is Some <==> c.pending_change is Some,
        default_motion(c, m).change == c.change,
{
    lemma_cmd_run_inv(ViCmd { motion: Some(m), ..cmd_default() }, c, d0);
}

/// The preconditions a primary-mode key is handled under.
pub open spec fn primary_pre(p: ParserView, c: CtxView, d0: int) -> bool {
    &&& ctx_inv(c, d0)
    &&& c.pending_change is None
    &&& c.set_mode is None
    &&& (p.mode is Normal || p.mode is Visual || p.mode is VisualLine)
    &&& (p.register_mode is Normal || p.register_mode is Visual || p.register_mode is VisualLine)
    &&& plain_opt(p.last_change)
}

/// The keys that begin an insert session.
proof fn lemma_ppc_insert(p: ParserView, ch: char, c: CtxView, d0: int)
    requires
        primary_pre(p, c, d0),
        ch == 'a' || ch == 'A' || ch == 'i' || ch == 'I' || ch == 'o' || ch == 'O' || ch == 'R',
    ensures
        ({
            let (p2, c2) = step_primary_char(p, ch, c);
            dispatch_post(p, p2, c2, d0)
        }),
{
    if ch == 'a' {
        if p.cmd.operator is Some || !(p.mode is Normal) {
            lemma_cmd_run_inv(ViCmd { motion: Some(Motion::Around), ..p.cmd }, c, d0);
        } else {
            lemma_start_inv(c, d0);
            lemma_default_motion_inv(ctx_start_change(c), Motion::Right, d0);
        }
    } else if ch == 'A' {
        lemma_start_inv(c, d0);
        lemma_default_motion_inv(ctx_start_change(c), Motion::End, d0);
    } else if ch == 'i' {
        if p.cmd.operator is Some || !(p.mode is Normal) {
            lemma_cmd_run_inv(ViCmd { motion: Some(Motion::Inside), ..p.cmd }, c, d0);
        } else {
            lemma_start_inv(c, d0);
        }
    } else if ch == 'I' {
        lemma_start_inv(c, d0);
        lemma_default_motion_inv(ctx_start_change(c), Motion::SoftHome, d0);
    } else if ch == 'o' {
        lemma_start_inv(c, d0);
        lemma_default_motion_inv(ctx_start_change(c), Motion::End, d0);
        lemma_emit_inv(
            default_motion(ctx_start_change(c), Motion::End),
            EventView::NewLine,
            d0,
        );
    } else if ch == 'O' {
        lemma_start_inv(c, d0);
        lemma_default_motion_inv(ctx_start_change(c), Motion::Home, d0);
        lemma_emit_inv(
            default_motion(ctx_start_change(c), Motion::Home),
            EventView::NewLine,
            d0,
        );
        lemma_default_motion_inv(
            ctx_emit(default_motion(ctx_start_change(c), Motion::Home), EventView::NewLine),
            Motion::Up,
            d0,
        );
    } else if ch == 'R' {
        lemma_start_inv(c, d0);
    }
}

/// The dual-role keys that may select a text object.
proof fn lemma_ppc_dual(p: ParserView, ch: char, c: CtxView, d0: int)
    requires
        primary_pre(p, c, d0),
        ch == 'b' || ch == 'B' || ch == 'w' || ch == 'W' || ch == 't' || ch == 'p' || ch == 's' || ch == '`' || ch == '(' || ch == ')' || ch == '[' || ch == ']' || ch == '{' || ch == '}' || ch == '\'' || ch == '"' || ch == '<' || ch == '>',
    ensures
        ({
            let (p2, c2) = step_primary_char(p, ch, c);
            dispatch_post(p, p2, c2, d0)
        }),
{
    if ch == 'b' || ch == 'B' || ch == 'w' || ch == 'W' || ch == 't' || ch == 'p' || ch
        == 's' || ch == '`' || ch == '(' || ch == ')' || ch == '[' || ch == ']' || ch == '{' || ch
        == '}' || ch == '\'' || ch == '"' || ch == '<' || ch == '>' {
        // The dual-role keys: first offered to the accumulator as a text
        // object, with a fallback when the motion asks for none
        if cmd_wants_text_object(p.cmd) {
            lemma_cmd_run_inv(
                ViCmd { text_object: Some(cmd_set_text_object_choice(ch, p.cmd)), ..p.cmd },
                c,
                d0,
            );
        } else {
            // The fallback of each key
            if ch == 'b' || ch == 'B' {
                lemma_cmd_run_inv(
                    ViCmd {
                        motion: Some(
                            Motion::PreviousWordStart(
                                if ch == 'b' {
                                    crate::motion::Word::Lower
                                } else {
                                    crate::motion::Word::Upper
                                },
                            ),
                        ),
                        ..p.cmd
                    },
                    c,
                    d0,
                );
            } else if ch == 'w' || ch == 'W' {
                lemma_cmd_run_inv(
                    ViCmd {
                        motion: Some(
                            Motion::NextWordStart(
                                if ch == 'w' {
                                    crate::motion::Word::Lower
                                } else {
                                    crate::motion::Word::Upper
                                },
                            ),
                        ),
                        ..p.cmd
                    },
                    c,
                    d0,
                );
            } else if ch == 'p' {
                lemma_emit_inv(
                    c,
                    EventView::Put {
                        register: p.cmd.register.unwrap_or(crate::cmd::VI_DEFAULT_REGISTER),
                        after: true,
                    },
                    d0,
                );
            } else if ch == 's' {
                lemma_start_inv(c, d0);
                lemma_plain_repeat(EventView::Delete, p.cmd.count.unwrap_or(1) as nat);
                lemma_emit_seq_inv(
                    ctx_start_change(c),
                    Seq::new(p.cmd.count.unwrap_or(1) as nat, |i: int| EventView::Delete),
                    d0,
                );
            } else if ch == '<' {
                let filled = if p.cmd.operator == Some(Operator::ShiftLeft) {
                    ViCmd { motion: Some(Motion::Line), ..p.cmd }
                } else {
                    ViCmd { operator: Some(Operator::ShiftLeft), ..p.cmd }
                };
                lemma_cmd_run_inv(filled, c, d0);
            } else if ch == '>' {
                let filled = if p.cmd.operator == Some(Operator::ShiftRight) {
                    ViCmd { motion: Some(Motion::Line), ..p.cmd }
                } else {
                    ViCmd { operator: Some(Operator::ShiftRight), ..p.cmd }
                };
                lemma_cmd_run_inv(filled, c, d0);
            }
            // 't', '"', '`', brackets and quotes change only the mode or
            // nothing: no events are emitted
        }
    }
}

/// The operator keys.
proof fn lemma_ppc_operator(p: ParserView, ch: char, c: CtxView, d0: int)
    requires
        primary_pre(p, c, d0),
        ch == 'c' || ch == 'd' || ch == 'y' || ch == '~' || ch == '=' || ch == 'C' || ch == 'D' || ch == 'S' || ch == 'Y',
    ensures
        ({
            let (p2, c2) = step_primary_char(p, ch, c);
            dispatch_post(p, p2, c2, d0)
        }),
{
    if ch == 'c' || ch == 'd' || ch == 'y' || ch == '~' || ch == '=' {
        let op = if ch == 'c' {
            Operator::Change
        } else if ch == 'd' {
            Operator::Delete
        } else if ch == 'y' {
            Operator::Yank
        } else if ch == '~' {
            Operator::SwapCase
        } else {
            Operator::AutoIndent
        };
        let filled = if p.cmd.operator == Some(op) {
            ViCmd { motion: Some(Motion::Line), ..p.cmd }
        } else {
            ViCmd { operator: Some(op), ..p.cmd }
        };
        lemma_cmd_run_inv(filled, c, d0);
    } else if ch == 'C' || ch == 'D' || ch == 'S' || ch == 'Y' {
        let op = if ch == 'C' || ch == 'S' {
            Operator::Change
        } else if ch == 'D' {
            Operator::Delete
        } else {
            Operator::Yank
        };
        let m = if ch == 'S' || ch == 'Y' {
            Motion::Line
        } else {
            Motion::End
        };
        let filled = if p.cmd.operator == Some(op) {
            ViCmd { motion: Some(Motion::Line), ..p.cmd }
        } else {
            ViCmd { operator: Some(op), ..p.cmd }
        };
        lemma_cmd_run_inv(filled, c, d0);
        let (cmd2, c2) = cmd_run(filled, c);
        lemma_cmd_run_inv(ViCmd { motion: Some(m), ..cmd2 }, c2, d0);
    }
}

/// The motion and count keys.
#[verifier::rlimit(100)]
proof fn lemma_ppc_motion(p: ParserView, ch: char, c: CtxView, d0: int)
    requires
        primary_pre(p, c, d0),
        ch == 'G' || ch == '0' || ch == '$' || ch == '^' || ch == '-' || ch == '+' || ch == ';' || ch == ',' || ch == 'e' || ch == 'E' || ch == 'h' || ch == 'H' || ch == 'j' || ch == 'k' || ch == 'l' || ch == 'L' || ch == 'M' || ch == 'n' || ch == 'N' || ch == ' ',
    ensures
        ({
            let (p2, c2) = step_primary_char(p, ch, c);
            dispatch_post(p, p2, c2, d0)
        }),
{
    if ch == 'G' {
        match p.cmd.count {
            Some(line) => lemma_cmd_run_inv(
                ViCmd { count: None, motion: Some(Motion::GotoLine(line)), ..p.cmd },
                c,
                d0,
            ),
            None => lemma_cmd_run_inv(ViCmd { motion: Some(Motion::GotoEof), ..p.cmd }, c, d0),
        }
    } else if ch == '0' {
        match p.cmd.count {
            Some(_) => {},
            None => lemma_cmd_run_inv(ViCmd { motion: Some(Motion::Home), ..p.cmd }, c, d0),
        }
    } else if ch == '$' {
        lemma_cmd_run_inv(ViCmd { motion: Some(Motion::End), ..p.cmd }, c, d0);
    } else if ch == '^' {
        lemma_cmd_run_inv(ViCmd { motion: Some(Motion::SoftHome), ..p.cmd }, c, d0);
    } else if ch == '-' || ch == '+' {
        let first = if ch == '-' {
            Motion::Up
        } else {
            Motion::Down
        };
        lemma_cmd_run_inv(ViCmd { motion: Some(first), ..p.cmd }, c, d0);
        let (cmd2, c2) = cmd_run(ViCmd { motion: Some(first), ..p.cmd }, c);
        lemma_cmd_run_inv(ViCmd { motion: Some(Motion::SoftHome), ..cmd2 }, c2, d0);
    } else if ch == ';' {
        match p.semicolon_motion {
            Some(m) => lemma_cmd_run_inv(ViCmd { motion: Some(m), ..p.cmd }, c, d0),
            None => {},
        }
    } else if ch == ',' {
        match p.semicolon_motion {
            Some(m) => {
                match crate::motion::reverse_motion(m) {
                    Some(r) => lemma_cmd_run_inv(ViCmd { motion: Some(r), ..p.cmd }, c, d0),
                    None => {},
                }
            },
            None => {},
        }
    } else {
        // Motions bound to single letters, mode switches and count
        // digits: at most one motion run, or no events at all
        if ch == 'e' {
            lemma_cmd_run_inv(
                ViCmd { motion: Some(Motion::NextWordEnd(crate::motion::Word::Lower)), ..p.cmd },
                c,
                d0,
            );
        } else if ch == 'E' {
            lemma_cmd_run_inv(
                ViCmd { motion: Some(Motion::NextWordEnd(crate::motion::Word::Upper)), ..p.cmd },
                c,
                d0,
            );
        } else if ch == 'h' {
            lemma_cmd_run_inv(ViCmd { motion: Some(Motion::LeftInLine), ..p.cmd }, c, d0);
        } else if ch == 'H' {
            lemma_cmd_run_inv(ViCmd { motion: Some(Motion::ScreenHigh), ..p.cmd }, c, d0);
        } else if ch == 'j' {
            lemma_cmd_run_inv(ViCmd { motion: Some(Motion::Down), ..p.cmd }, c, d0);
        } else if ch == 'k' {
            lemma_cmd_run_inv(ViCmd { motion: Some(Motion::Up), ..p.cmd }, c, d0);
        } else if ch == 'l' {
            lemma_cmd_run_inv(ViCmd { motion: Some(Motion::RightInLine), ..p.cmd }, c, d0);
        } else if ch == 'L' {
            lemma_cmd_run_inv(ViCmd { motion: Some(Motion::ScreenLow), ..p.cmd }, c, d0);
        } else if ch == 'M' {
            lemma_cmd_run_inv(ViCmd { motion: Some(Motion::ScreenMiddle), ..p.cmd }, c, d0);
        } else if ch == 'n' {
            lemma_cmd_run_inv(ViCmd { motion: Some(Motion::NextSearch), ..p.cmd }, c, d0);
        } else if ch == 'N' {
            lemma_cmd_run_inv(ViCmd { motion: Some(Motion::PreviousSearch), ..p.cmd }, c, d0);
        } else if ch == ' ' {
            lemma_cmd_run_inv(ViCmd { motion: Some(Motion::Right), ..p.cmd }, c, d0);
        }
    }
}

/// The remaining keys: pastes, undo, visual toggles, repeats, mode entries and unmapped characters.
proof fn lemma_ppc_rest(p: ParserView, ch: char, c: CtxView, d0: int)
    requires
        primary_pre(p, c, d0),
        !(ch == 'a' || ch == 'A' || ch == 'i' || ch == 'I' || ch == 'o' || ch == 'O' || ch == 'R' || ch == 'b' || ch == 'B' || ch == 'w' || ch == 'W' || ch == 't' || ch == 'p' || ch == 's' || ch == '`' || ch == '(' || ch == ')' || ch == '[' || ch == ']' || ch == '{' || ch == '}' || ch == '\'' || ch == '"' || ch == '<' || ch == '>' || ch == 'c' || ch == 'd' || ch == 'y' || ch == '~' || ch == '=' || ch == 'C' || ch == 'D' || ch == 'S' || ch == 'Y' || ch == 'G' || ch == '0' || ch == '$' || ch == '^' || ch == '-' || ch == '+' || ch == ';' || ch == ',' || ch == 'e' || ch == 'E' || ch == 'h' || ch == 'H' || ch == 'j' || ch == 'k' || ch == 'l' || ch == 'L' || ch == 'M' || ch == 'n' || ch == 'N' || ch == ' '),
    ensures
        ({
            let (p2, c2) = step_primary_char(p, ch, c);
            dispatch_post(p, p2, c2, d0)
        }),
{
    if ch == 'P' {
        lemma_emit_inv(
            c,
            EventView::Put {
                register: p.cmd.register.unwrap_or(crate::cmd::VI_DEFAULT_REGISTER),
                after: false,
            },
            d0,
        );
    } else if ch == 'u' {
        lemma_emit_inv(c, EventView::Undo, d0);
    } else if ch == 'v' || ch == 'V' {
        if (ch == 'v' && p.mode is Visual) || (ch == 'V' && p.mode is VisualLine) {
            lemma_emit_inv(c, EventView::SelectClear, d0);
        } else if ch == 'v' {
            lemma_emit_inv(c, EventView::SelectStart, d0);
        } else {
            lemma_emit_inv(c, EventView::SelectLineStart, d0);
        }
    } else if ch == 'x' {
        lemma_plain_repeat(EventView::Delete, p.cmd.count.unwrap_or(1) as nat);
        lemma_emit_seq_inv(
            c,
            Seq::new(p.cmd.count.unwrap_or(1) as nat, |i: int| EventView::Delete),
            d0,
        );
    } else if ch == 'X' {
        lemma_plain_repeat(EventView::Backspace, p.cmd.count.unwrap_or(1) as nat);
        lemma_emit_seq_inv(
            c,
            Seq::new(p.cmd.count.unwrap_or(1) as nat, |i: int| EventView::Backspace),
            d0,
        );
    } else if ch == '.' {
        match p.last_change {
            Some(change) => {
                lemma_start_inv(c, d0);
                lemma_emit_seq_inv(ctx_start_change(c), change, d0);
                lemma_finish_inv(ctx_emit_seq(ctx_start_change(c), change), d0);
            },
            None => {},
        }
    }
}

/// One character key in a primary mode keeps the dispatch guarantees.
proof fn lemma_step_primary_char_inv(p: ParserView, ch: char, c: CtxView, d0: int)
    requires
        primary_pre(p, c, d0),
    ensures
        ({
            let (p2, c2) = step_primary_char(p, ch, c);
            dispatch_post(p, p2, c2, d0)
        }),
{
    if ch == 'a' || ch == 'A' || ch == 'i' || ch == 'I' || ch == 'o' || ch == 'O' || ch == 'R' {
        lemma_ppc_insert(p, ch, c, d0);
    } else if ch == 'b' || ch == 'B' || ch == 'w' || ch == 'W' || ch == 't' || ch == 'p' || ch
        == 's' || ch == '`' || ch == '(' || ch == ')' || ch == '[' || ch == ']' || ch == '{' || ch
        == '}' || ch == '\'' || ch == '"' || ch == '<' || ch == '>' {
        lemma_ppc_dual(p, ch, c, d0);
    } else if ch == 'c' || ch == 'd' || ch == 'y' || ch == '~' || ch == '=' || ch == 'C' || ch
        == 'D' || ch == 'S' || ch == 'Y' {
        lemma_ppc_operator(p, ch, c, d0);
    } else if ch == 'G' || ch == '0' || ch == '$' || ch == '^' || ch == '-' || ch == '+' || ch
        == ';' || ch == ',' || ch == 'e' || ch == 'E' || ch == 'h' || ch == 'H' || ch == 'j' || ch
        == 'k' || ch == 'l' || ch == 'L' || ch == 'M' || ch == 'n' || ch == 'N' || ch == ' ' {
        lemma_ppc_motion(p, ch, c, d0);
    } else {
        lemma_ppc_rest(p, ch, c, d0);
    }
}

/// The text object a dual-role key offers.
spec fn cmd_set_text_object_choice(ch: char, cmd: ViCmd) -> crate::motion::TextObject {
    if ch == 'b' || ch == 'B' {
        crate::motion::TextObject::Block
    } else if ch == 'w' {
        crate::motion::TextObject::Word(crate::motion::Word::Lower)
    } else if ch == 'W' {
        crate::motion::TextObject::Word(crate::motion::Word::Upper)
    } else if ch == 't' {
        crate::motion::TextObject::Tag
    } else if ch == 'p' {
        crate::motion::TextObject::Paragraph
    } else if ch == 's' {
        crate::motion::TextObject::Sentence
    } else if ch == '`' {
        crate::motion::TextObject::Ticks
    } else if ch == '(' || ch == ')' {
        crate::motion::TextObject::Parentheses
    } else if ch == '[' || ch == ']' {
        crate::motion::TextObject::SquareBrackets
    } else if ch == '{' || ch == '}' {
        crate::motion::TextObject::CurlyBrackets
    } else if ch == '\'' {
        crate::motion::TextObject::SingleQuotes
    } else if ch == '"' {
        crate::motion::TextObject::DoubleQuotes
    } else {
        crate::motion::TextObject::AngleBrackets
    }
}

/// One key in a primary mode keeps the dispatch guarantees.
proof fn lemma_step_primary_inv(p: ParserView, k: Key, c: CtxView, d0: int)
    requires
        primary_pre(p, c, d0),
    ensures
        ({
            let (p2, c2) = step_primary(p, k, c);
            dispatch_post(p, p2, c2, d0)
        }),
{
    match k {
        Key::Backspace => lemma_cmd_run_inv(ViCmd { motion: Some(Motion::Left), ..p.cmd }, c, d0),
        Key::Char(ch) => lemma_step_primary_char_inv(p, ch, c, d0),
        Key::Delete => {
            lemma_plain_repeat(EventView::Delete, p.cmd.count.unwrap_or(1) as nat);
            lemma_emit_seq_inv(
                c,
                Seq::new(p.cmd.count.unwrap_or(1) as nat, |i: int| EventView::Delete),
                d0,
            );
        },
        Key::Down => lemma_cmd_run_inv(ViCmd { motion: Some(Motion::Down), ..p.cmd }, c, d0),
        Key::End => lemma_cmd_run_inv(ViCmd { motion: Some(Motion::End), ..p.cmd }, c, d0),
        Key::Enter => {
            lemma_cmd_run_inv(ViCmd { motion: Some(Motion::Down), ..p.cmd }, c, d0);
            let (cmd2, c2) = cmd_run(ViCmd { motion: Some(Motion::Down), ..p.cmd }, c);
            lemma_cmd_run_inv(ViCmd { motion: Some(Motion::SoftHome), ..cmd2 }, c2, d0);
        },
        Key::Escape => lemma_emit_inv(c, EventView::Escape, d0),
        Key::Home => lemma_cmd_run_inv(ViCmd { motion: Some(Motion::Home), ..p.cmd }, c, d0),
        Key::Left => lemma_cmd_run_inv(ViCmd { motion: Some(Motion::LeftInLine), ..p.cmd }, c, d0),
        Key::PageDown => lemma_cmd_run_inv(
            ViCmd { motion: Some(Motion::PageDown), ..p.cmd },
            c,
            d0,
        ),
        Key::PageUp => lemma_cmd_run_inv(ViCmd { motion: Some(Motion::PageUp), ..p.cmd }, c, d0),
        Key::Right => lemma_cmd_run_inv(
            ViCmd { motion: Some(Motion::RightInLine), ..p.cmd },
            c,
            d0,
        ),
        Key::Up => lemma_cmd_run_inv(ViCmd { motion: Some(Motion::Up), ..p.cmd }, c, d0),
        _ => {},
    }
}

/// One key in an `Extra` mode keeps the dispatch guarantees, and never
/// leaves the parser in an `Extra` mode.
proof fn lemma_step_extra_inv(p: ParserView, extra: char, k: Key, c: CtxView, d0: int)
    requires
        ctx_inv(c, d0),
        c.pending_change is None,
        c.set_mode is None,
        p.register_mode is Normal || p.register_mode is Visual || p.register_mode is VisualLine,
        plain_opt(p.last_change),
    ensures
        ({
            let (p2, c2) = step_extra(p, extra, k, c);
            dispatch_post(p, p2, c2, d0) && !(final_mode(p2, c2) is Extra)
        }),
{
    if extra == 'f' || extra == 'F' || extra == 't' || extra == 'T' {
        match k {
            Key::Char(x) => {
                let m = if extra == 'f' {
                    Motion::NextChar(x)
                } else if extra == 'F' {
                    Motion::PreviousChar(x)
                } else if extra == 't' {
                    Motion::NextCharTill(x)
                } else {
                    Motion::PreviousCharTill(x)
                };
                lemma_cmd_run_inv(ViCmd { motion: Some(m), ..p.cmd }, c, d0);
            },
            _ => {},
        }
    } else if extra == 'g' {
        match k {
            Key::Char(x) => {
                if x == 'e' {
                    lemma_cmd_run_inv(
                        ViCmd {
                            motion: Some(Motion::PreviousWordEnd(crate::motion::Word::Lower)),
                            ..p.cmd
                        },
                        c,
                        d0,
                    );
                } else if x == 'E' {
                    lemma_cmd_run_inv(
                        ViCmd {
                            motion: Some(Motion::PreviousWordEnd(crate::motion::Word::Upper)),
                            ..p.cmd
                        },
                        c,
                        d0,
                    );
                } else if x == 'g' {
                    match p.cmd.count {
                        Some(line) => lemma_cmd_run_inv(
                            ViCmd { count: None, motion: Some(Motion::GotoLine(line)), ..p.cmd },
                            c,
                            d0,
                        ),
                        None => lemma_cmd_run_inv(
                            ViCmd { motion: Some(Motion::GotoLine(1)), ..p.cmd },
                            c,
                            d0,
                        ),
                    }
                } else if x == 'n' || x == 'N' {
                    let filled = ViCmd { motion: Some(Motion::Inside), ..p.cmd };
                    lemma_cmd_run_inv(filled, c, d0);
                    let (cmd2, c2) = cmd_run(filled, c);
                    lemma_cmd_run_inv(
                        ViCmd {
                            text_object: Some(crate::motion::TextObject::Search { forwards: x == 'n' }),
                            ..cmd2
                        },
                        c2,
                        d0,
                    );
                }
            },
            _ => {},
        }
    } else if extra == 'r' {
        match k {
            Key::Char(x) => {
                lemma_start_inv(c, d0);
                lemma_emit_inv(ctx_start_change(c), EventView::Delete, d0);
                lemma_emit_inv(
                    ctx_emit(ctx_start_change(c), EventView::Delete),
                    EventView::Insert(x),
                    d0,
                );
                lemma_default_motion_inv(
                    ctx_emit(ctx_emit(ctx_start_change(c), EventView::Delete), EventView::Insert(x)),
                    Motion::LeftInLine,
                    d0,
                );
                lemma_finish_inv(
                    default_motion(
                        ctx_emit(
                            ctx_emit(ctx_start_change(c), EventView::Delete),
                            EventView::Insert(x),
                        ),
                        Motion::LeftInLine,
                    ),
                    d0,
                );
            },
            _ => {},
        }
    }
}

/// One key in `Insert` or `Replace` mode keeps the dispatch guarantees.
proof fn lemma_step_insert_inv(p: ParserView, k: Key, c: CtxView, d0: int)
    requires
        ctx_inv(c, d0),
        c.pending_change is Some,
        c.set_mode is None,
        p.mode is Insert || p.mode is Replace,
        p.register_mode is Normal || p.register_mode is Visual || p.register_mode is VisualLine,
        plain_opt(p.last_change),
    ensures
        ({
            let (p2, c2) = step_insert(p, k, c);
            dispatch_post(p, p2, c2, d0)
        }),
{
    match k {
        Key::Backspace => lemma_emit_inv(c, EventView::Backspace, d0),
        Key::Backtab => lemma_emit_inv(c, EventView::ShiftLeft, d0),
        Key::Char(ch) => {
            if p.mode is Replace {
                lemma_emit_inv(c, EventView::Delete, d0);
                lemma_emit_inv(ctx_emit(c, EventView::Delete), EventView::Insert(ch), d0);
            } else {
                lemma_emit_inv(c, EventView::Insert(ch), d0);
            }
        },
        Key::Down => lemma_default_motion_inv(c, Motion::Down, d0),
        Key::Delete => lemma_emit_inv(c, EventView::Delete, d0),
        Key::End => lemma_default_motion_inv(c, Motion::End, d0),
        Key::Enter => lemma_emit_inv(c, EventView::NewLine, d0),
        Key::Escape => {
            lemma_default_motion_inv(c, Motion::LeftInLine, d0);
            lemma_finish_inv(default_motion(c, Motion::LeftInLine), d0);
            lemma_emit_inv(
                ctx_finish_change(default_motion(c, Motion::LeftInLine)),
                EventView::Escape,
                d0,
            );
        },
        Key::Home => lemma_default_motion_inv(c, Motion::Home, d0),
        Key::Left => lemma_default_motion_inv(c, Motion::LeftInLine, d0),
        Key::PageDown => lemma_default_motion_inv(c, Motion::PageDown, d0),
        Key::PageUp => lemma_default_motion_inv(c, Motion::PageUp, d0),
        Key::Right => lemma_default_motion_inv(c, Motion::RightInLine, d0),
        Key::Tab => lemma_emit_inv(c, EventView::ShiftRight, d0),
        Key::Up => lemma_default_motion_inv(c, Motion::Up, d0),
    }
}

/// One key in `Command` mode keeps the dispatch guarantees.
proof fn lemma_step_command_inv(p: ParserView, value: Seq<char>, k: Key, c: CtxView, d0: int)
    requires
        ctx_inv(c, d0),
        c.pending_change is None,
        c.set_mode is None,
        p.mode is Command,
        p.register_mode is Normal || p.register_mode is Visual || p.register_mode is VisualLine,
        plain_opt(p.last_change),
    ensures
        ({
            let (p2, c2) = step_command(p, value, k, c);
            dispatch_post(p, p2, c2, d0)
        }),
{
}

/// One key in `Search` mode keeps the dispatch guarantees.
proof fn lemma_step_search_inv(
    p: ParserView,
    value: Seq<char>,
    forwards: bool,
    k: Key,
    c: CtxView,
    d0: int,
)
    requires
        ctx_inv(c, d0),
        c.pending_change is None,
        c.set_mode is None,
        p.mode is Search,
        p.register_mode is Normal || p.register_mode is Visual || p.register_mode is VisualLine,
        plain_opt(p.last_change),
    ensures
        ({
            let (p2, c2) = step_search(p, value, forwards, k, c);
            dispatch_post(p, p2, c2, d0)
        }),
{
    match k {
        Key::Enter => {
            lemma_emit_inv(c, EventView::SetSearch(value, forwards), d0);
            lemma_default_motion_inv(
                ctx_emit(c, EventView::SetSearch(value, forwards)),
                Motion::NextSearch,
                d0,
            );
        },
        _ => {},
    }
}

/// One dispatched key keeps the dispatch guarantees.
proof fn lemma_dispatch_inv(p: ParserView, k: Key, c: CtxView, d0: int)
    requires
        ctx_inv(c, d0),
        c.set_mode is None,
        c.pending_change is Some <==> (p.mode is Insert || p.mode is Replace),
        p.register_mode is Normal || p.register_mode is Visual || p.register_mode is VisualLine,
        plain_opt(p.last_change),
    ensures
        ({
            let (p2, c2) = dispatch(p, k, c);
            dispatch_post(p, p2, c2, d0) && (p.mode is Extra ==> !(final_mode(p2, c2) is Extra))
        }),
{
    match p.mode {
        ModeView::Normal => lemma_step_primary_inv(p, k, c, d0),
        ModeView::Visual => lemma_step_primary_inv(p, k, c, d0),
        ModeView::VisualLine => lemma_step_primary_inv(p, k, c, d0),
        ModeView::Extra(extra) => lemma_step_extra_inv(p, extra, k, c, d0),
        ModeView::Insert => lemma_step_insert_inv(p, k, c, d0),
        ModeView::Replace => lemma_step_insert_inv(p, k, c, d0),
        ModeView::Command { value } => lemma_step_command_inv(p, value, k, c, d0),
        ModeView::Search { value, forwards } => lemma_step_search_inv(p, value, forwards, k, c, d0),
    }
}

/// A freshly constructed parser is well formed.
pub proof fn lemma_initial_state_wf()
    ensures
        wf_state(init_view()),
{
}

/// The backbone of the laws below: one `parse` call, from a well-formed
/// state, keeps the state well formed; its events end in `Redraw` and in
/// nothing else; and its change brackets balance, the depth moving
/// exactly as the pending change does.
pub proof fn lemma_parse_step_inv(p: ParserView, key: Key, selection: bool)
    requires
        wf_state(p),
    ensures
        ({
            let (p2, evs) = parse_step(p, key, selection);
            &&& wf_state(p2)
            &&& evs.len() >= 1
            &&& evs.last() == EventView::Redraw
            &&& (forall|i: int| 0 <= i < evs.len() - 1 ==> #[trigger] evs[i] != EventView::Redraw)
            &&& bracket_ok(evs, pdepth(p))
            &&& depth_after(evs, pdepth(p)) == pdepth(p2)
        }),
{
    let k = normalize_key(key);
    let taken = ParserView { pending_change: None, ..p };
    let d0 = pdepth(p);
    let c0 = CtxView {
        events: Seq::empty(),
        selection,
        pending_change: p.pending_change,
        change: None,
        set_mode: None,
    };
    assert(ctx_inv(c0, d0));
    lemma_dispatch_inv(taken, k, c0, d0);
    let (p1, c1) = dispatch(taken, k, c0);
    let evs = c1.events.push(EventView::Redraw);
    assert(evs.drop_last() =~= c1.events);
    assert(evs.last() == EventView::Redraw);
    assert forall|i: int| 0 <= i < evs.len() - 1 implies #[trigger] evs[i] != EventView::Redraw by {
        assert(evs[i] == c1.events[i]);
    }
}

/// Every `parse` call emits exactly one `Redraw`, and it is the last
/// event of the call.
pub proof fn lemma_redraw_terminator(p: ParserView, key: Key, selection: bool)
    requires
        wf_state(p),
    ensures
        ({
            let evs = parse_step(p, key, selection).1;
            &&& evs.len() >= 1
            &&& evs.last() == EventView::Redraw
            &&& (forall|i: int| 0 <= i < evs.len() - 1 ==> #[trigger] evs[i] != EventView::Redraw)
        }),
{
    lemma_parse_step_inv(p, key, selection);
}

/// The depth after a walk is the start plus starts minus finishes.
proof fn lemma_depth_counts(s: Seq<EventView>, d: int)
    ensures
        depth_after(s, d) == d + count_event(s, EventView::ChangeStart) - count_event(
            s,
            EventView::ChangeFinish,
        ),
    decreases s.len(),
{
    if s.len() > 0 {
        lemma_depth_counts(s.drop_last(), d);
    }
}

/// A balanced walk from a non-negative depth never goes negative.
proof fn lemma_bracket_depth_nonneg(s: Seq<EventView>, d: int)
    requires
        bracket_ok(s, d),
        d >= 0,
    ensures
        depth_after(s, d) >= 0,
    decreases s.len(),
{
    if s.len() > 0 {
        lemma_bracket_depth_nonneg(s.drop_last(), d);
    }
}

/// In a balanced sequence, every prefix holds at least as many
/// `ChangeStart`s as `ChangeFinish`es, up to the starting depth.
pub proof fn lemma_bracket_prefix_counts(s: Seq<EventView>, d: int, i: int)
    requires
        bracket_ok(s, d),
        d >= 0,
        0 <= i <= s.len(),
    ensures
        count_event(s.take(i), EventView::ChangeFinish) <= count_event(
            s.take(i),
            EventView::ChangeStart,
        ) + d,
    decreases s.len(),
{
    if i == s.len() {
        assert(s.take(i) =~= s);
        lemma_depth_counts(s, d);
        lemma_bracket_depth_nonneg(s, d);
    } else {
        assert(s.take(i) =~= s.drop_last().take(i));
        lemma_bracket_prefix_counts(s.drop_last(), d, i);
    }
}

/// Change bracketing: in the events of one `parse` call, every prefix
/// holds at least as many `ChangeStart`s as `ChangeFinish`es, counting
/// the change left open by an earlier call, and the call leaves at most
/// one change open.
pub proof fn lemma_change_bracketing(p: ParserView, key: Key, selection: bool, i: int)
    requires
        wf_state(p),
        0 <= i <= parse_step(p, key, selection).1.len(),
    ensures
        ({
            let (p2, evs) = parse_step(p, key, selection);
            &&& count_event(evs.take(i), EventView::ChangeFinish) <= count_event(
                evs.take(i),
                EventView::ChangeStart,
            ) + pdepth(p)
            &&& count_event(evs, EventView::ChangeStart) - count_event(
                evs,
                EventView::ChangeFinish,
            ) == pdepth(p2) - pdepth(p)
            &&& 0 <= pdepth(p2) <= 1
        }),
{
    lemma_parse_step_inv(p, key, selection);
    let (p2, evs) = parse_step(p, key, selection);
    lemma_bracket_prefix_counts(evs, pdepth(p), i);
    lemma_depth_counts(evs, pdepth(p));
}

/// After a command runs, the accumulator is back to its default: no
/// register, count, operator, motion or text object is left behind.
pub proof fn lemma_run_resets_accumulator(cmd: ViCmd, c: CtxView)
    requires
        cmd_can_run(cmd, c.selection),
    ensures
        cmd_run(cmd, c).0 == cmd_default(),
{
}

/// Handling any key in an `Extra` mode leaves that mode: the transient
/// modes consume exactly one key.
pub proof fn lemma_extra_consumes_one_key(p: ParserView, key: Key, selection: bool)
    requires
        wf_state(p),
        p.mode is Extra,
    ensures
        !(parse_step(p, key, selection).0.mode is Extra),
{
    let k = normalize_key(key);
    let taken = ParserView { pending_change: None, ..p };
    let d0 = pdepth(p);
    let c0 = CtxView {
        events: Seq::empty(),
        selection,
        pending_change: p.pending_change,
        change: None,
        set_mode: None,
    };
    assert(ctx_inv(c0, d0));
    lemma_dispatch_inv(taken, k, c0, d0);
}

/// The selection flag is scoped to its call: outside the normal and
/// visual modes, the outcome of a `parse` call does not depend on it at
/// all.  No mode stores the flag, so it can never influence a later
/// call except through the state this call returns.
#[verifier::rlimit(100)]
pub proof fn lemma_selection_scoped(p: ParserView, key: Key, s1: bool, s2: bool)
    requires
        p.mode is Insert || p.mode is Replace || p.mode is Extra || p.mode is Command || p.mode
            is Search,
    ensures
        parse_step(p, key, s1) == parse_step(p, key, s2),
{
    let k = normalize_key(key);
    let (pa, ea) = parse_step(p, key, s1);
    let (pb, eb) = parse_step(p, key, s2);
    assert(pa == pb && ea == eb);
}

/// Dot-repeat: with a change recorded, `.` in normal mode emits exactly
/// the recorded events, freshly bracketed, and keeps the recording.
pub proof fn lemma_dot_repeat(p: ParserView, selection: bool)
    requires
        wf_state(p),
        p.mode is Normal,
        p.last_change is Some,
    ensures
        ({
            let change = p.last_change.unwrap();
            let (p2, evs) = parse_step(p, Key::Char('.'), selection);
            &&& evs == seq![EventView::ChangeStart] + change + seq![
                EventView::ChangeFinish,
                EventView::Redraw,
            ]
            &&& p2.last_change == p.last_change
            &&& p2.mode is Normal
        }),
{
    let change = p.last_change.unwrap();
    let (p2, evs) = parse_step(p, Key::Char('.'), selection);
    assert(Seq::<EventView>::empty().push(EventView::ChangeStart) + change + seq![
        EventView::ChangeFinish,
        EventView::Redraw,
    ] =~= evs);
    assert(seq![EventView::ChangeStart] + change + seq![
        EventView::ChangeFinish,
        EventView::Redraw,
    ] =~= evs);
    assert(Seq::<EventView>::empty() + change =~= change);
}

/// `reset` returns the observable state — the mode, the accumulator and
/// the remembered find-character motion — to its initial values; only
/// the last change survives a reset.
pub proof fn lemma_reset_round_trip(p: ParserView)
    ensures
        reset_view(p).mode == init_view().mode,
        reset_view(p).cmd == init_view().cmd,
        reset_view(p).semicolon_motion == init_view().semicolon_motion,
        reset_view(p).last_change == p.last_change,
        reset_view(reset_view(p)) == reset_view(p),
{
}

/// A doubled operator compiles exactly as the operator followed by an
/// explicit line-scope motion.
pub proof fn lemma_doubled_operator(cmd: ViCmd, op: Operator, c: CtxView)
    requires
        cmd.operator == Some(op),
    ensures
        cmd_set_operator(cmd, op, c) == cmd_set_motion(cmd, Motion::Line, c),
{
}

/// Counts saturate instead of overflowing: appending a digit gives the
/// exact decimal value while it fits, and the largest count after.
pub proof fn lemma_count_saturates(n: usize, digit: usize)
    ensures
        n * 10 + digit <= usize::MAX ==> count_with_digit(Some(n), digit) == n * 10 + digit,
        n * 10 + digit > usize::MAX ==> count_with_digit(Some(n), digit) == usize::MAX,
        count_with_digit(None, digit) == digit,
{
}


/// Walking a concatenation walks both parts in turn.
proof fn lemma_walk_concat(a: Seq<EventView>, b: Seq<EventView>, d: int)
    ensures
        depth_after(a + b, d) == depth_after(b, depth_after(a, d)),
        bracket_ok(a, d) && bracket_ok(b, depth_after(a, d)) ==> bracket_ok(a + b, d),
    decreases b.len(),
{
    if b.len() == 0 {
        assert(a + b =~= a);
        assert(depth_after(b, depth_after(a, d)) == depth_after(a, d));
    } else {
        assert((a + b).drop_last() =~= a + b.drop_last());
        assert((a + b).last() == b.last());
        lemma_walk_concat(a, b.drop_last(), d);
    }
}

/// A whole session: the state after feeding the given keys in order,
/// and every event they emitted, concatenated.
pub open spec fn run_keys(p: ParserView, keys: Seq<(Key, bool)>) -> (ParserView, Seq<EventView>)
    decreases keys.len(),
{
    if keys.len() == 0 {
        (p, Seq::empty())
    } else {
        let (p1, evs1) = run_keys(p, keys.drop_last());
        let (p2, evs2) = parse_step(p1, keys.last().0, keys.last().1);
        (p2, evs1 + evs2)
    }
}

/// A session from a well-formed state stays well formed, and its whole
/// event stream brackets correctly, the final depth matching the change
/// left pending.
pub proof fn lemma_session_wf(p: ParserView, keys: Seq<(Key, bool)>)
    requires
        wf_state(p),
    ensures
        ({
            let (p2, evs) = run_keys(p, keys);
            &&& wf_state(p2)
            &&& bracket_ok(evs, pdepth(p))
            &&& depth_after(evs, pdepth(p)) == pdepth(p2)
        }),
    decreases keys.len(),
{
    if keys.len() > 0 {
        lemma_session_wf(p, keys.drop_last());
        let (p1, evs1) = run_keys(p, keys.drop_last());
        lemma_parse_step_inv(p1, keys.last().0, keys.last().1);
        let (p2, evs2) = parse_step(p1, keys.last().0, keys.last().1);
        lemma_walk_concat(evs1, evs2, pdepth(p));
    }
}

/// Change bracketing over a whole session from a fresh parser: in every
/// prefix of everything ever emitted, the `ChangeFinish` count never
/// exceeds the `ChangeStart` count, so each `ChangeFinish` is preceded
/// by its matching `ChangeStart` in the same or an earlier call.
pub proof fn lemma_session_bracketing(keys: Seq<(Key, bool)>, i: int)
    requires
        0 <= i <= run_keys(init_view(), keys).1.len(),
    ensures
        ({
            let evs = run_keys(init_view(), keys).1;
            count_event(evs.take(i), EventView::ChangeFinish) <= count_event(
                evs.take(i),
                EventView::ChangeStart,
            )
        }),
{
    lemma_initial_state_wf();
    lemma_session_wf(init_view(), keys);
    lemma_bracket_prefix_counts(run_keys(init_view(), keys).1, 0, i);
}


} // verus!
