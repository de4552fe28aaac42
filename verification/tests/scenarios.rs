//! End-to-end scenarios: whole key sequences against their exact event
//! streams.

use vi_keys::Event;
use vi_keys::Key;
use vi_keys::Motion;
use vi_keys::TextObject;
use vi_keys::ViMode;
use vi_keys::ViParser;
use vi_keys::Word;

/// Feed one key without a selection and return its events.
fn key(parser: &mut ViParser, k: Key) -> Vec<Event> {
    parser.parse(k, false)
}

/// Feed a string of character keys without a selection, returning the
/// events of the last key only.
fn chars(parser: &mut ViParser, s: &str) -> Vec<Event> {
    let mut last = Vec::new();
    for c in s.chars() {
        last = parser.parse(Key::Char(c), false);
    }
    last
}

#[test]
fn insert_hello_escape() {
    let mut p = ViParser::new();
    assert_eq!(key(&mut p, Key::Char('i')), vec![Event::ChangeStart, Event::Redraw]);
    assert!(matches!(p.mode, ViMode::Insert));
    for c in "Hello".chars() {
        assert_eq!(key(&mut p, Key::Char(c)), vec![Event::Insert(c), Event::Redraw]);
    }
    assert_eq!(
        key(&mut p, Key::Escape),
        vec![
            Event::Motion(Motion::LeftInLine),
            Event::ChangeFinish,
            Event::Escape,
            Event::Redraw,
        ]
    );
    assert!(matches!(p.mode, ViMode::Normal));
}

#[test]
fn word_motion_with_count_ten() {
    let mut p = ViParser::new();
    assert_eq!(key(&mut p, Key::Char('1')), vec![Event::Redraw]);
    assert_eq!(key(&mut p, Key::Char('0')), vec![Event::Redraw]);
    assert_eq!(p.cmd.count, Some(10));
    let events = key(&mut p, Key::Char('w'));
    let mut expected = vec![Event::Motion(Motion::NextWordStart(Word::Lower)); 10];
    expected.push(Event::Redraw);
    assert_eq!(events, expected);
    assert_eq!(p.cmd.count, None);
}

#[test]
fn change_word() {
    let mut p = ViParser::new();
    assert_eq!(key(&mut p, Key::Char('c')), vec![Event::Redraw]);
    let events = key(&mut p, Key::Char('w'));
    assert_eq!(
        events,
        vec![
            Event::ChangeStart,
            Event::SelectStart,
            Event::Motion(Motion::NextWordStart(Word::Lower)),
            Event::Yank { register: '"' },
            Event::Delete,
            Event::SelectClear,
            Event::Redraw,
        ]
    );
    assert!(matches!(p.mode, ViMode::Insert));
}

#[test]
fn delete_inner_word() {
    let mut p = ViParser::new();
    chars(&mut p, "di");
    let events = key(&mut p, Key::Char('w'));
    assert_eq!(
        events,
        vec![
            Event::ChangeStart,
            Event::SelectTextObject(TextObject::Word(Word::Lower), false),
            Event::Yank { register: '"' },
            Event::Delete,
            Event::SelectClear,
            Event::ChangeFinish,
            Event::Redraw,
        ]
    );
    assert!(matches!(p.mode, ViMode::Normal));
}

#[test]
fn delete_a_paragraph() {
    let mut p = ViParser::new();
    chars(&mut p, "da");
    let events = key(&mut p, Key::Char('p'));
    assert_eq!(
        events,
        vec![
            Event::ChangeStart,
            Event::SelectTextObject(TextObject::Paragraph, true),
            Event::Yank { register: '"' },
            Event::Delete,
            Event::SelectClear,
            Event::ChangeFinish,
            Event::Redraw,
        ]
    );
}

#[test]
fn find_and_repeat() {
    let mut p = ViParser::new();
    assert_eq!(key(&mut p, Key::Char('f')), vec![Event::Redraw]);
    assert_eq!(
        key(&mut p, Key::Char('x')),
        vec![Event::Motion(Motion::NextChar('x')), Event::Redraw]
    );
    assert_eq!(
        key(&mut p, Key::Char(';')),
        vec![Event::Motion(Motion::NextChar('x')), Event::Redraw]
    );
    assert_eq!(
        key(&mut p, Key::Char(',')),
        vec![Event::Motion(Motion::PreviousChar('x')), Event::Redraw]
    );
}

#[test]
fn dot_repeats_a_bracketed_change() {
    let mut p = ViParser::new();
    chars(&mut p, "diw");
    let events = key(&mut p, Key::Char('.'));
    assert_eq!(
        events,
        vec![
            Event::ChangeStart,
            Event::SelectTextObject(TextObject::Word(Word::Lower), false),
            Event::Yank { register: '"' },
            Event::Delete,
            Event::SelectClear,
            Event::ChangeFinish,
            Event::Redraw,
        ]
    );
}

#[test]
fn dot_repeats_an_insert_session() {
    let mut p = ViParser::new();
    chars(&mut p, "iab");
    key(&mut p, Key::Escape);
    let events = key(&mut p, Key::Char('.'));
    assert_eq!(
        events,
        vec![
            Event::ChangeStart,
            Event::Insert('a'),
            Event::Insert('b'),
            Event::Motion(Motion::LeftInLine),
            Event::ChangeFinish,
            Event::Redraw,
        ]
    );
}

#[test]
fn doubled_operator_is_line_scope() {
    let mut p1 = ViParser::new();
    key(&mut p1, Key::Char('d'));
    let doubled = key(&mut p1, Key::Char('d'));
    assert_eq!(
        doubled,
        vec![
            Event::ChangeStart,
            Event::SelectLineStart,
            Event::Yank { register: '"' },
            Event::Delete,
            Event::SelectClear,
            Event::ChangeFinish,
            Event::Redraw,
        ]
    );
    // The same events as the operator followed by an explicit
    // line-scope motion, run directly on an accumulator
    let mut ctx = vi_keys::ViContext {
        events: Vec::new(),
        selection: false,
        pending_change: None,
        change: None,
        set_mode: None,
    };
    let mut cmd = vi_keys::ViCmd::default();
    cmd.operator(vi_keys::Operator::Delete, &mut ctx);
    cmd.motion(Motion::Line, &mut ctx);
    let mut with_redraw = ctx.events;
    with_redraw.push(Event::Redraw);
    assert_eq!(doubled, with_redraw);
}

#[test]
fn substitute_line_changes_whole_line() {
    let mut p = ViParser::new();
    let events = key(&mut p, Key::Char('S'));
    assert_eq!(
        events,
        vec![
            Event::ChangeStart,
            Event::SelectLineStart,
            Event::Yank { register: '"' },
            Event::Delete,
            Event::SelectClear,
            Event::Redraw,
        ]
    );
    assert!(matches!(p.mode, ViMode::Insert));
}

#[test]
fn replace_one_character() {
    let mut p = ViParser::new();
    key(&mut p, Key::Char('r'));
    assert!(matches!(p.mode, ViMode::Extra('r')));
    let events = key(&mut p, Key::Char('z'));
    assert_eq!(
        events,
        vec![
            Event::ChangeStart,
            Event::Delete,
            Event::Insert('z'),
            Event::Motion(Motion::LeftInLine),
            Event::ChangeFinish,
            Event::Redraw,
        ]
    );
    assert!(matches!(p.mode, ViMode::Normal));
}

#[test]
fn search_captures_and_fires() {
    let mut p = ViParser::new();
    key(&mut p, Key::Char('/'));
    chars(&mut p, "abc");
    match &p.mode {
        ViMode::Search { value, forwards } => {
            assert_eq!(value, "abc");
            assert!(*forwards);
        }
        other => panic!("not in search mode: {:?}", other),
    }
    key(&mut p, Key::Backspace);
    let events = key(&mut p, Key::Enter);
    assert_eq!(
        events,
        vec![
            Event::SetSearch("ab".to_string(), true),
            Event::Motion(Motion::NextSearch),
            Event::Redraw,
        ]
    );
    assert!(matches!(p.mode, ViMode::Normal));
}

#[test]
fn command_mode_captures_a_line() {
    let mut p = ViParser::new();
    key(&mut p, Key::Char(':'));
    chars(&mut p, "wq");
    match &p.mode {
        ViMode::Command { value } => assert_eq!(value, "wq"),
        other => panic!("not in command mode: {:?}", other),
    }
    // Enter leaves the mode without running anything
    assert_eq!(key(&mut p, Key::Enter), vec![Event::Redraw]);
    assert!(matches!(p.mode, ViMode::Normal));
    // Backspace on an empty line leaves the mode too
    key(&mut p, Key::Char(':'));
    assert_eq!(key(&mut p, Key::Backspace), vec![Event::Redraw]);
    assert!(matches!(p.mode, ViMode::Normal));
}

#[test]
fn register_selection_prefixes_a_put() {
    let mut p = ViParser::new();
    key(&mut p, Key::Char('"'));
    assert!(matches!(p.mode, ViMode::Extra('"')));
    key(&mut p, Key::Char('a'));
    assert!(matches!(p.mode, ViMode::Normal));
    let events = key(&mut p, Key::Char('p'));
    assert_eq!(events, vec![Event::Put { register: 'a', after: true }, Event::Redraw]);
}

#[test]
fn visual_mode_toggles() {
    let mut p = ViParser::new();
    assert_eq!(key(&mut p, Key::Char('v')), vec![Event::SelectStart, Event::Redraw]);
    assert!(matches!(p.mode, ViMode::Visual));
    assert_eq!(key(&mut p, Key::Char('v')), vec![Event::SelectClear, Event::Redraw]);
    assert!(matches!(p.mode, ViMode::Normal));
    assert_eq!(key(&mut p, Key::Char('V')), vec![Event::SelectLineStart, Event::Redraw]);
    assert!(matches!(p.mode, ViMode::VisualLine));
}

#[test]
fn operator_on_a_visual_selection() {
    let mut p = ViParser::new();
    key(&mut p, Key::Char('v'));
    // In visual mode the host reports an active selection
    let events = p.parse(Key::Char('d'), true);
    assert_eq!(
        events,
        vec![
            Event::ChangeStart,
            Event::Yank { register: '"' },
            Event::Delete,
            Event::SelectClear,
            Event::ChangeFinish,
            Event::Redraw,
        ]
    );
    assert!(matches!(p.mode, ViMode::Normal));
}

#[test]
fn goto_line_and_end_of_file() {
    let mut p = ViParser::new();
    chars(&mut p, "5");
    assert_eq!(
        key(&mut p, Key::Char('G')),
        vec![Event::Motion(Motion::GotoLine(5)), Event::Redraw]
    );
    assert_eq!(key(&mut p, Key::Char('G')), vec![Event::Motion(Motion::GotoEof), Event::Redraw]);
    key(&mut p, Key::Char('g'));
    assert_eq!(
        key(&mut p, Key::Char('g')),
        vec![Event::Motion(Motion::GotoLine(1)), Event::Redraw]
    );
}

#[test]
fn open_line_after_and_before() {
    let mut p = ViParser::new();
    assert_eq!(
        key(&mut p, Key::Char('o')),
        vec![
            Event::ChangeStart,
            Event::Motion(Motion::End),
            Event::NewLine,
            Event::Redraw,
        ]
    );
    assert!(matches!(p.mode, ViMode::Insert));
    key(&mut p, Key::Escape);
    assert_eq!(
        key(&mut p, Key::Char('O')),
        vec![
            Event::ChangeStart,
            Event::Motion(Motion::Home),
            Event::NewLine,
            Event::Motion(Motion::Up),
            Event::Redraw,
        ]
    );
}

#[test]
fn replace_mode_overwrites() {
    let mut p = ViParser::new();
    assert_eq!(key(&mut p, Key::Char('R')), vec![Event::ChangeStart, Event::Redraw]);
    assert!(matches!(p.mode, ViMode::Replace));
    assert_eq!(
        key(&mut p, Key::Char('q')),
        vec![Event::Delete, Event::Insert('q'), Event::Redraw]
    );
    assert_eq!(
        key(&mut p, Key::Escape),
        vec![
            Event::Motion(Motion::LeftInLine),
            Event::ChangeFinish,
            Event::Escape,
            Event::Redraw,
        ]
    );
}

#[test]
fn enter_moves_down_to_soft_home() {
    let mut p = ViParser::new();
    assert_eq!(
        key(&mut p, Key::Enter),
        vec![
            Event::Motion(Motion::Down),
            Event::Motion(Motion::SoftHome),
            Event::Redraw,
        ]
    );
}

#[test]
fn delete_with_count_repeats() {
    let mut p = ViParser::new();
    chars(&mut p, "3");
    assert_eq!(
        key(&mut p, Key::Char('x')),
        vec![Event::Delete, Event::Delete, Event::Delete, Event::Redraw]
    );
    assert_eq!(
        key(&mut p, Key::Char('X')),
        vec![Event::Backspace, Event::Redraw]
    );
}
