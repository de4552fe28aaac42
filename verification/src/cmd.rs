//! The command accumulator: the in-progress command fragments, and the
//! emission context that records changes for dot-repeat.

use vstd::prelude::*;

use crate::event::Event;
use crate::event::EventView;
use crate::event::events_view;
use crate::event::opt_events_view;
use crate::motion::Motion;
use crate::motion::Operator;
use crate::motion::TextObject;
use crate::motion::needs_text_object;
use crate::parser::ModeView;
use crate::parser::ViMode;
use crate::parser::opt_mode_view;

verus! {

broadcast use crate::event::lemma_events_view_push, crate::event::lemma_events_view_empty;

/// The register used when a command names none.
pub const VI_DEFAULT_REGISTER: char = '"';

/// The mathematical view of a [`ViContext`]: the events emitted so far in
/// this call, the selection flag, the change buffers and the requested
/// mode change.
#[verifier::ext_equal]
pub struct CtxView {
    pub events: Seq<EventView>,
    pub selection: bool,
    pub pending_change: Option<Seq<EventView>>,
    pub change: Option<Seq<EventView>>,
    pub set_mode: Option<ModeView>,
}

/// Emitting one event: it is appended to the output and, when a change is
/// being recorded, to the pending change as well.
pub open spec fn ctx_emit(c: CtxView, e: EventView) -> CtxView {
    CtxView {
        events: c.events.push(e),
        pending_change: match c.pending_change {
            Some(p) => Some(p.push(e)),
            None => None,
        },
        ..c
    }
}

/// Emitting a sequence of events in order.
pub open spec fn ctx_emit_seq(c: CtxView, s: Seq<EventView>) -> CtxView {
    CtxView {
        events: c.events + s,
        pending_change: match c.pending_change {
            Some(p) => Some(p + s),
            None => None,
        },
        ..c
    }
}

/// Opening a change: `ChangeStart` is forwarded (but not recorded), and a
/// pending buffer is begun if none is open.
pub open spec fn ctx_start_change(c: CtxView) -> CtxView {
    CtxView {
        events: c.events.push(EventView::ChangeStart),
        pending_change: match c.pending_change {
            Some(p) => Some(p),
            None => Some(Seq::<EventView>::empty()),
        },
        ..c
    }
}

/// Closing a change: `ChangeFinish` is forwarded (but not recorded), and
/// the pending buffer is promoted to the completed change.
pub open spec fn ctx_finish_change(c: CtxView) -> CtxView {
    CtxView {
        events: c.events.push(EventView::ChangeFinish),
        pending_change: None,
        change: c.pending_change,
        ..c
    }
}

/// Emitting the empty sequence changes nothing.
pub broadcast proof fn lemma_ctx_emit_seq_empty(c: CtxView)
    ensures
        #[trigger] ctx_emit_seq(c, Seq::<EventView>::empty()) == c,
{
    assert(ctx_emit_seq(c, Seq::<EventView>::empty()) =~= c);
}

/// Emitting a sequence then one more event is emitting the extended
/// sequence.
pub broadcast proof fn lemma_ctx_emit_seq_push(c: CtxView, s: Seq<EventView>, e: EventView)
    ensures
        #[trigger] ctx_emit_seq(c, s.push(e)) == ctx_emit(ctx_emit_seq(c, s), e),
{
    assert(ctx_emit_seq(c, s.push(e)) =~= ctx_emit(ctx_emit_seq(c, s), e));
}

/// The emission context for one `parse` call.  It buffers the call's
/// events in order and, while a change is pending, tees every emitted
/// event into the pending change for dot-repeat.
#[derive(Debug)]
pub struct ViContext {
    pub events: Vec<Event>,
    pub selection: bool,
    pub pending_change: Option<Vec<Event>>,
    pub change: Option<Vec<Event>>,
    pub set_mode: Option<ViMode>,
}

impl View for ViContext {
    type V = CtxView;

    open spec fn view(&self) -> CtxView {
        CtxView {
            events: events_view(self.events@),
            selection: self.selection,
            pending_change: opt_events_view(self.pending_change),
            change: opt_events_view(self.change),
            set_mode: opt_mode_view(self.set_mode),
        }
    }
}

impl ViContext {
    /// Begin recording a change and forward `ChangeStart`.
    pub fn start_change(&mut self)
        ensures
            final(self)@ == ctx_start_change(old(self)@),
    {
        if self.pending_change.is_none() {
            self.pending_change = Some(Vec::new());
        }
        self.events.push(Event::ChangeStart);
    }

    /// Promote the pending change to a completed one and forward
    /// `ChangeFinish`.
    pub fn finish_change(&mut self)
        ensures
            final(self)@ == ctx_finish_change(old(self)@),
    {
        self.change = self.pending_change.take();
        self.events.push(Event::ChangeFinish);
    }

    /// Emit one event, teeing it into the pending change if one is open.
    pub fn e(&mut self, event: Event)
        ensures
            final(self)@ == ctx_emit(old(self)@, event@),
    {
        let pending = self.pending_change.take();
        match pending {
            Some(mut change) => {
                change.push(event.clone());
                self.pending_change = Some(change);
            },
            None => {},
        }
        self.events.push(event);
    }
}

/// Relies on `String::push`: appends one character at the end.
#[verifier::external_body]
pub(crate) fn string_push(s: &mut String, c: char)
    ensures
        final(s)@ == old(s)@.push(c),
{
    s.push(c);
}

/// Relies on `String::pop`: removes and returns the last character, or
/// `None` when the string is empty.
#[verifier::external_body]
pub(crate) fn string_pop(s: &mut String) -> (r: Option<char>)
    ensures
        old(s)@.len() == 0 ==> r is None && final(s)@ == old(s)@,
        old(s)@.len() > 0 ==> r == Some(old(s)@.last()) && final(s)@ == old(s)@.drop_last(),
{
    s.pop()
}

/// The command accumulator: the in-progress fragments of one command.
#[derive(Clone, Copy, Debug, Eq, PartialEq)]
pub struct ViCmd {
    pub register: Option<char>,
    pub count: Option<usize>,
    pub operator: Option<Operator>,
    pub motion: Option<Motion>,
    pub text_object: Option<TextObject>,
}

/// The accumulator with every fragment absent.
pub open spec fn cmd_default() -> ViCmd {
    ViCmd { register: None, count: None, operator: None, motion: None, text_object: None }
}

impl Default for ViCmd {
    /// Every fragment starts absent.
    fn default() -> (r: Self)
        ensures
            r == cmd_default(),
    {
        ViCmd { register: None, count: None, operator: None, motion: None, text_object: None }
    }
}

/// When a command may execute: either a motion is set (and, if it needs a
/// text object, one is present), or there is no motion but a selection is
/// active.
pub open spec fn cmd_can_run(cmd: ViCmd, selection: bool) -> bool {
    match cmd.motion {
        Some(m) => !(needs_text_object(m) && cmd.text_object is None),
        None => selection,
    }
}

/// True when the accumulated motion asks for a text object.
pub open spec fn cmd_wants_text_object(cmd: ViCmd) -> bool {
    match cmd.motion {
        Some(m) => needs_text_object(m),
        None => false,
    }
}

/// The events an operator contributes once its region is selected:
/// `Change` and `Delete` yank then delete, the others emit their single
/// matching event.
pub open spec fn apply_operator(op: Operator, register: char, c: CtxView) -> CtxView {
    match op {
        Operator::AutoIndent => ctx_emit(c, EventView::AutoIndent),
        Operator::Change => ctx_emit(
            ctx_emit(c, EventView::Yank { register }),
            EventView::Delete,
        ),
        Operator::Delete => ctx_emit(
            ctx_emit(c, EventView::Yank { register }),
            EventView::Delete,
        ),
        Operator::ShiftLeft => ctx_emit(c, EventView::ShiftLeft),
        Operator::ShiftRight => ctx_emit(c, EventView::ShiftRight),
        Operator::SwapCase => ctx_emit(c, EventView::SwapCase),
        Operator::Yank => ctx_emit(c, EventView::Yank { register }),
    }
}

/// The selection-building prelude an operator uses, chosen by motion.
pub open spec fn select_prelude(
    motion: Motion,
    text_object: Option<TextObject>,
    count: usize,
    c: CtxView,
) -> CtxView {
    match motion {
        Motion::Around => ctx_emit(c, EventView::SelectTextObject(text_object.unwrap(), true)),
        Motion::Inside => ctx_emit(c, EventView::SelectTextObject(text_object.unwrap(), false)),
        Motion::Line => ctx_emit(c, EventView::SelectLineStart),
        Motion::Selection => c,
        _ => ctx_emit_seq(
            ctx_emit(c, EventView::SelectStart),
            Seq::new(count as nat, |i: int| EventView::Motion(motion)),
        ),
    }
}

/// What running the accumulated command does: the accumulator after the
/// attempt and the context with the compiled events.  When the
/// precondition [`cmd_can_run`] fails, nothing happens.
pub open spec fn cmd_run(cmd: ViCmd, c: CtxView) -> (ViCmd, CtxView) {
    if !cmd_can_run(cmd, c.selection) {
        (cmd, c)
    } else {
        let register = cmd.register.unwrap_or(VI_DEFAULT_REGISTER);
        let count = cmd.count.unwrap_or(1);
        let motion = cmd.motion.unwrap_or(Motion::Selection);
        let text_object = cmd.text_object;
        match cmd.operator {
            Some(op) => {
                let opened = ctx_start_change(c);
                let selected = select_prelude(motion, text_object, count, opened);
                let cleared = ctx_emit(
                    apply_operator(op, register, selected),
                    EventView::SelectClear,
                );
                let done = if op == Operator::Change {
                    CtxView { set_mode: Some(ModeView::Insert), ..cleared }
                } else {
                    CtxView { set_mode: Some(ModeView::Normal), ..ctx_finish_change(cleared) }
                };
                (cmd_default(), done)
            },
            None => {
                let moved = match motion {
                    Motion::Around => ctx_emit(
                        c,
                        EventView::SelectTextObject(text_object.unwrap(), true),
                    ),
                    Motion::Inside => ctx_emit(
                        c,
                        EventView::SelectTextObject(text_object.unwrap(), false),
                    ),
                    _ => ctx_emit_seq(c, Seq::new(count as nat, |i: int| EventView::Motion(motion))),
                };
                (cmd_default(), moved)
            },
        }
    }
}

/// Setting a motion and attempting to run.
pub open spec fn cmd_set_motion(cmd: ViCmd, m: Motion, c: CtxView) -> (ViCmd, CtxView) {
    cmd_run(ViCmd { motion: Some(m), ..cmd }, c)
}

/// Setting an operator and attempting to run; a doubled operator turns
/// the motion into line scope instead.
pub open spec fn cmd_set_operator(cmd: ViCmd, op: Operator, c: CtxView) -> (ViCmd, CtxView) {
    let filled = if cmd.operator == Some(op) {
        ViCmd { motion: Some(Motion::Line), ..cmd }
    } else {
        ViCmd { operator: Some(op), ..cmd }
    };
    cmd_run(filled, c)
}

/// Setting a text object: refused (and nothing happens) unless the
/// accumulated motion asks for one.
pub open spec fn cmd_set_text_object(cmd: ViCmd, t: TextObject, c: CtxView) -> (ViCmd, CtxView, bool) {
    if !cmd_wants_text_object(cmd) {
        (cmd, c, false)
    } else {
        let (done, emitted) = cmd_run(ViCmd { text_object: Some(t), ..cmd }, c);
        (done, emitted, true)
    }
}

/// Repeating one event `count` times (default once), clearing the count.
pub open spec fn cmd_repeat(cmd: ViCmd, e: EventView, c: CtxView) -> (ViCmd, CtxView) {
    (
        ViCmd { count: None, ..cmd },
        ctx_emit_seq(c, Seq::new(cmd.count.unwrap_or(1) as nat, |i: int| e)),
    )
}

impl ViCmd {
    /// Emit the given event `count` times (default once), resetting the
    /// count after.
    pub fn repeat(&mut self, event: Event, ctx: &mut ViContext)
        ensures
            ({
                let (done, emitted) = cmd_repeat(*old(self), event@, old(ctx)@);
                *final(self) == done && final(ctx)@ == emitted
            }),
    {
        let count = match self.count {
            Some(n) => n,
            None => 1,
        };
        self.count = None;
        let ghost single: Seq<EventView> = Seq::new(count as nat, |i: int| event@);
        let mut i: usize = 0;
        proof {
            lemma_ctx_emit_seq_empty(old(ctx)@);
            assert(Seq::new(0nat, |j: int| event@) =~= Seq::<EventView>::empty());
        }
        while i < count
            invariant
                i <= count,
                *self == (ViCmd { count: None, ..*old(self) }),
                ctx@ == ctx_emit_seq(old(ctx)@, Seq::new(i as nat, |j: int| event@)),
            decreases count - i,
        {
            ctx.e(event.clone());
            proof {
                assert(Seq::new((i + 1) as nat, |j: int| event@) =~= Seq::new(
                    i as nat,
                    |j: int| event@,
                ).push(event@));
                lemma_ctx_emit_seq_push(old(ctx)@, Seq::new(i as nat, |j: int| event@), event@);
            }
            i = i + 1;
        }
        proof {
            assert(Seq::new(count as nat, |j: int| event@) =~= Seq::new(
                old(self).count.unwrap_or(1) as nat,
                |j: int| event@,
            ));
        }
    }

    /// Set the motion and attempt to run the command.
    pub fn motion(&mut self, motion: Motion, ctx: &mut ViContext)
        ensures
            ({
                let (done, emitted) = cmd_set_motion(*old(self), motion, old(ctx)@);
                *final(self) == done && final(ctx)@ == emitted
            }),
    {
        self.motion = Some(motion);
        self.run(ctx);
    }

    /// Set the operator and attempt to run; setting the same operator
    /// twice turns the motion into line scope (`dd`, `yy`).
    pub fn operator(&mut self, operator: Operator, ctx: &mut ViContext)
        ensures
            ({
                let (done, emitted) = cmd_set_operator(*old(self), operator, old(ctx)@);
                *final(self) == done && final(ctx)@ == emitted
            }),
    {
        let doubled = match self.operator {
            Some(op) => op == operator,
            None => false,
        };
        if doubled {
            self.motion = Some(Motion::Line);
        } else {
            self.operator = Some(operator);
        }
        self.run(ctx);
    }

    /// Set the text object and return true if the accumulated motion
    /// asked for one; otherwise nothing happens and false is returned.
    pub fn text_object(&mut self, text_object: TextObject, ctx: &mut ViContext) -> (used: bool)
        ensures
            ({
                let (done, emitted, accepted) = cmd_set_text_object(
                    *old(self),
                    text_object,
                    old(ctx)@,
                );
                *final(self) == done && final(ctx)@ == emitted && used == accepted
            }),
    {
        let wants = match self.motion {
            Some(m) => m.text_object(),
            None => false,
        };
        if !wants {
            return false;
        }
        self.text_object = Some(text_object);
        self.run(ctx);
        true
    }

    /// Run the accumulated command, resetting the fragments to their
    /// defaults if it runs.  Returns true exactly when the precondition
    /// [`cmd_can_run`] holds.
    pub fn run(&mut self, ctx: &mut ViContext) -> (fired: bool)
        ensures
            fired == cmd_can_run(*old(self), old(ctx)@.selection),
            ({
                let (done, emitted) = cmd_run(*old(self), old(ctx)@);
                *final(self) == done && final(ctx)@ == emitted
            }),
    {
        match self.motion {
            Some(motion) => {
                if motion.text_object() && self.text_object.is_none() {
                    // Around or Inside requires a text object
                    return false;
                }
            },
            None => {
                if !ctx.selection {
                    // No motion requires a selection
                    return false;
                }
            },
        }
        let register = match self.register {
            Some(r) => r,
            None => VI_DEFAULT_REGISTER,
        };
        self.register = None;
        let count = match self.count {
            Some(n) => n,
            None => 1,
        };
        self.count = None;
        let motion = match self.motion {
            Some(m) => m,
            None => Motion::Selection,
        };
        self.motion = None;
        let text_object = self.text_object;
        self.text_object = None;
        let operator = self.operator;
        self.operator = None;
        match operator {
            Some(op) => {
                ctx.start_change();
                let ghost opened = ctx@;
                match motion {
                    Motion::Around => {
                        match text_object {
                            Some(t) => ctx.e(Event::SelectTextObject(t, true)),
                            None => {},
                        }
                    },
                    Motion::Inside => {
                        match text_object {
                            Some(t) => ctx.e(Event::SelectTextObject(t, false)),
                            None => {},
                        }
                    },
                    Motion::Line => {
                        ctx.e(Event::SelectLineStart);
                    },
                    Motion::Selection => {},
                    _ => {
                        ctx.e(Event::SelectStart);
                        let ghost started = ctx@;
                        let mut i: usize = 0;
                        proof {
                            lemma_ctx_emit_seq_empty(started);
                            assert(Seq::new(0nat, |j: int| EventView::Motion(motion))
                                =~= Seq::<EventView>::empty());
                        }
                        while i < count
                            invariant
                                i <= count,
                                ctx@ == ctx_emit_seq(
                                    started,
                                    Seq::new(i as nat, |j: int| EventView::Motion(motion)),
                                ),
                            decreases count - i,
                        {
                            ctx.e(Event::Motion(motion));
                            proof {
                                assert(Seq::new((i + 1) as nat, |j: int| EventView::Motion(motion))
                                    =~= Seq::new(i as nat, |j: int| EventView::Motion(motion)).push(
                                    EventView::Motion(motion),
                                ));
                                lemma_ctx_emit_seq_push(
                                    started,
                                    Seq::new(i as nat, |j: int| EventView::Motion(motion)),
                                    EventView::Motion(motion),
                                );
                            }
                            i = i + 1;
                        }
                    },
                }
                assert(ctx@ == select_prelude(motion, text_object, count, opened));
                let ghost selected = ctx@;
                let mut enter_insert_mode = false;
                match op {
                    Operator::AutoIndent => {
                        ctx.e(Event::AutoIndent);
                    },
                    Operator::Change => {
                        ctx.e(Event::Yank { register });
                        ctx.e(Event::Delete);
                        enter_insert_mode = true;
                    },
                    Operator::Delete => {
                        ctx.e(Event::Yank { register });
                        ctx.e(Event::Delete);
                    },
                    Operator::ShiftLeft => {
                        ctx.e(Event::ShiftLeft);
                    },
                    Operator::ShiftRight => {
                        ctx.e(Event::ShiftRight);
                    },
                    Operator::SwapCase => {
                        ctx.e(Event::SwapCase);
                    },
                    Operator::Yank => {
                        ctx.e(Event::Yank { register });
                    },
                }
                assert(ctx@ == apply_operator(op, register, selected));
                ctx.e(Event::SelectClear);
                if enter_insert_mode {
                    ctx.set_mode = Some(ViMode::Insert);
                } else {
                    ctx.finish_change();
                    ctx.set_mode = Some(ViMode::Normal);
                }
            },
            None => {
                match motion {
                    Motion::Around => {
                        match text_object {
                            Some(t) => ctx.e(Event::SelectTextObject(t, true)),
                            None => {},
                        }
                    },
                    Motion::Inside => {
                        match text_object {
                            Some(t) => ctx.e(Event::SelectTextObject(t, false)),
                            None => {},
                        }
                    },
                    _ => {
                        let ghost begun = ctx@;
                        let mut i: usize = 0;
                        proof {
                            lemma_ctx_emit_seq_empty(begun);
                            assert(Seq::new(0nat, |j: int| EventView::Motion(motion))
                                =~= Seq::<EventView>::empty());
                        }
                        while i < count
                            invariant
                                i <= count,
                                ctx@ == ctx_emit_seq(
                                    begun,
                                    Seq::new(i as nat, |j: int| EventView::Motion(motion)),
                                ),
                            decreases count - i,
                        {
                            ctx.e(Event::Motion(motion));
                            proof {
                                assert(Seq::new((i + 1) as nat, |j: int| EventView::Motion(motion))
                                    =~= Seq::new(i as nat, |j: int| EventView::Motion(motion)).push(
                                    EventView::Motion(motion),
                                ));
                                lemma_ctx_emit_seq_push(
                                    begun,
                                    Seq::new(i as nat, |j: int| EventView::Motion(motion)),
                                    EventView::Motion(motion),
                                );
                            }
                            i = i + 1;
                        }
                    },
                }
            },
        }
        true
    }
}

} // verus!
