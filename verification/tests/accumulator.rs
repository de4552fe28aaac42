//! The command accumulator driven directly, without the mode machine.

use vi_keys::Event;
use vi_keys::Motion;
use vi_keys::Operator;
use vi_keys::TextObject;
use vi_keys::VI_DEFAULT_REGISTER;
use vi_keys::ViCmd;
use vi_keys::ViContext;

/// A fresh emission context with no selection.
fn ctx() -> ViContext {
    ViContext {
        events: Vec::new(),
        selection: false,
        pending_change: None,
        change: None,
        set_mode: None,
    }
}

#[test]
fn default_accumulator_is_empty() {
    let cmd = ViCmd::default();
    assert_eq!(cmd.register, None);
    assert_eq!(cmd.count, None);
    assert_eq!(cmd.operator, None);
    assert_eq!(cmd.motion, None);
    assert_eq!(cmd.text_object, None);
    assert_eq!(VI_DEFAULT_REGISTER, '"');
}

#[test]
fn run_refuses_without_motion_or_selection() {
    let mut c = ctx();
    let mut cmd = ViCmd::default();
    cmd.operator = Some(Operator::Delete);
    assert!(!cmd.run(&mut c));
    assert_eq!(c.events, Vec::<Event>::new());
    // The operator is kept for a later motion
    assert_eq!(cmd.operator, Some(Operator::Delete));
}

#[test]
fn run_fires_on_a_selection_without_a_motion() {
    let mut c = ctx();
    c.selection = true;
    let mut cmd = ViCmd::default();
    cmd.operator = Some(Operator::Yank);
    assert!(cmd.run(&mut c));
    assert_eq!(
        c.events,
        vec![
            Event::ChangeStart,
            Event::Yank { register: '"' },
            Event::SelectClear,
            Event::ChangeFinish,
        ]
    );
    assert_eq!(cmd, ViCmd::default());
}

#[test]
fn around_waits_for_its_text_object() {
    let mut c = ctx();
    let mut cmd = ViCmd::default();
    cmd.motion(Motion::Around, &mut c);
    // Nothing fires yet: the motion needs a text object
    assert_eq!(c.events, Vec::<Event>::new());
    assert_eq!(cmd.motion, Some(Motion::Around));
    assert!(cmd.text_object(TextObject::Sentence, &mut c));
    assert_eq!(
        c.events,
        vec![Event::SelectTextObject(TextObject::Sentence, true)]
    );
    assert_eq!(cmd, ViCmd::default());
}

#[test]
fn text_object_is_refused_without_a_motion_that_wants_one() {
    let mut c = ctx();
    let mut cmd = ViCmd::default();
    assert!(!cmd.text_object(TextObject::Block, &mut c));
    cmd.motion = Some(Motion::Down);
    assert!(!cmd.text_object(TextObject::Block, &mut c));
    assert_eq!(c.events, Vec::<Event>::new());
    assert_eq!(cmd.text_object, None);
}

#[test]
fn repeat_emits_count_times_and_clears_the_count() {
    let mut c = ctx();
    let mut cmd = ViCmd::default();
    cmd.count = Some(4);
    cmd.repeat(Event::Backspace, &mut c);
    assert_eq!(c.events, vec![Event::Backspace; 4]);
    assert_eq!(cmd.count, None);
    // Without a count the event is emitted once
    cmd.repeat(Event::Delete, &mut c);
    assert_eq!(c.events.len(), 5);
}

#[test]
fn named_register_reaches_the_yank() {
    let mut c = ctx();
    let mut cmd = ViCmd::default();
    cmd.register = Some('q');
    cmd.operator(Operator::Yank, &mut c);
    cmd.motion(Motion::NextWordStart(vi_keys::Word::Lower), &mut c);
    assert_eq!(
        c.events,
        vec![
            Event::ChangeStart,
            Event::SelectStart,
            Event::Motion(Motion::NextWordStart(vi_keys::Word::Lower)),
            Event::Yank { register: 'q' },
            Event::SelectClear,
            Event::ChangeFinish,
        ]
    );
}

#[test]
fn context_tees_events_into_a_pending_change() {
    let mut c = ctx();
    c.e(Event::Undo);
    c.start_change();
    c.e(Event::Delete);
    c.e(Event::Insert('k'));
    c.finish_change();
    // The recorded change holds the teed events only: no brackets, and
    // nothing emitted before the change began
    assert_eq!(c.change, Some(vec![Event::Delete, Event::Insert('k')]));
    assert_eq!(c.pending_change, None);
    assert_eq!(
        c.events,
        vec![
            Event::Undo,
            Event::ChangeStart,
            Event::Delete,
            Event::Insert('k'),
            Event::ChangeFinish,
        ]
    );
}
