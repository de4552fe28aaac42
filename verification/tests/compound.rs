//! Compound commands: operators combined with find-character motions,
//! end-of-line shorthands, search text objects and visual-line scope.

use vi_keys::Event;
use vi_keys::Key;
use vi_keys::Motion;
use vi_keys::TextObject;
use vi_keys::ViMode;
use vi_keys::ViParser;

fn chars(parser: &mut ViParser, s: &str) -> Vec<Event> {
    let mut last = Vec::new();
    for c in s.chars() {
        last = parser.parse(Key::Char(c), false);
    }
    last
}

#[test]
fn delete_to_found_character() {
    let mut p = ViParser::new();
    let events = chars(&mut p, "dfx");
    assert_eq!(
        events,
        vec![
            Event::ChangeStart,
            Event::SelectStart,
            Event::Motion(Motion::NextChar('x')),
            Event::Yank { register: '"' },
            Event::Delete,
            Event::SelectClear,
            Event::ChangeFinish,
            Event::Redraw,
        ]
    );
    // The find-character motion is remembered for a plain semicolon
    assert_eq!(
        chars(&mut p, ";"),
        vec![Event::Motion(Motion::NextChar('x')), Event::Redraw]
    );
}

#[test]
fn change_to_end_of_line() {
    let mut p = ViParser::new();
    let events = chars(&mut p, "C");
    assert_eq!(
        events,
        vec![
            Event::ChangeStart,
            Event::SelectStart,
            Event::Motion(Motion::End),
            Event::Yank { register: '"' },
            Event::Delete,
            Event::SelectClear,
            Event::Redraw,
        ]
    );
    assert!(matches!(p.mode, ViMode::Insert));
}

#[test]
fn delete_to_end_of_line() {
    let mut p = ViParser::new();
    let events = chars(&mut p, "D");
    assert_eq!(
        events,
        vec![
            Event::ChangeStart,
            Event::SelectStart,
            Event::Motion(Motion::End),
            Event::Yank { register: '"' },
            Event::Delete,
            Event::SelectClear,
            Event::ChangeFinish,
            Event::Redraw,
        ]
    );
    assert!(matches!(p.mode, ViMode::Normal));
}

#[test]
fn yank_line_shorthand() {
    let mut p = ViParser::new();
    let events = chars(&mut p, "Y");
    assert_eq!(
        events,
        vec![
            Event::ChangeStart,
            Event::SelectLineStart,
            Event::Yank { register: '"' },
            Event::SelectClear,
            Event::ChangeFinish,
            Event::Redraw,
        ]
    );
}

#[test]
fn counted_motion_inside_an_operator() {
    let mut p = ViParser::new();
    let events = chars(&mut p, "d2j");
    assert_eq!(
        events,
        vec![
            Event::ChangeStart,
            Event::SelectStart,
            Event::Motion(Motion::Down),
            Event::Motion(Motion::Down),
            Event::Yank { register: '"' },
            Event::Delete,
            Event::SelectClear,
            Event::ChangeFinish,
            Event::Redraw,
        ]
    );
}

#[test]
fn search_match_as_a_text_object() {
    let mut p = ViParser::new();
    chars(&mut p, "g");
    assert_eq!(
        chars(&mut p, "n"),
        vec![
            Event::SelectTextObject(TextObject::Search { forwards: true }, false),
            Event::Redraw,
        ]
    );
    chars(&mut p, "g");
    assert_eq!(
        chars(&mut p, "N"),
        vec![
            Event::SelectTextObject(TextObject::Search { forwards: false }, false),
            Event::Redraw,
        ]
    );
}

#[test]
fn visual_line_selection_feeds_an_operator() {
    let mut p = ViParser::new();
    chars(&mut p, "V");
    let events = p.parse(Key::Char('>'), true);
    assert_eq!(
        events,
        vec![
            Event::ChangeStart,
            Event::ShiftRight,
            Event::SelectClear,
            Event::ChangeFinish,
            Event::Redraw,
        ]
    );
    assert!(matches!(p.mode, ViMode::Normal));
}

#[test]
fn undo_and_pastes() {
    let mut p = ViParser::new();
    assert_eq!(chars(&mut p, "u"), vec![Event::Undo, Event::Redraw]);
    assert_eq!(
        chars(&mut p, "p"),
        vec![Event::Put { register: '"', after: true }, Event::Redraw]
    );
    assert_eq!(
        chars(&mut p, "P"),
        vec![Event::Put { register: '"', after: false }, Event::Redraw]
    );
}

#[test]
fn substitute_character_without_a_text_object() {
    let mut p = ViParser::new();
    let events = chars(&mut p, "2s");
    assert_eq!(
        events,
        vec![
            Event::ChangeStart,
            Event::Delete,
            Event::Delete,
            Event::Redraw,
        ]
    );
    assert!(matches!(p.mode, ViMode::Insert));
}

#[test]
fn angle_bracket_as_text_object_or_operator() {
    let mut p = ViParser::new();
    // With a motion awaiting a text object, '<' selects angle brackets
    chars(&mut p, "da");
    assert_eq!(
        chars(&mut p, "<"),
        vec![
            Event::ChangeStart,
            Event::SelectTextObject(TextObject::AngleBrackets, true),
            Event::Yank { register: '"' },
            Event::Delete,
            Event::SelectClear,
            Event::ChangeFinish,
            Event::Redraw,
        ]
    );
    // Doubled on its own, '<' unindents the line
    assert_eq!(
        chars(&mut p, "<<"),
        vec![
            Event::ChangeStart,
            Event::SelectLineStart,
            Event::ShiftLeft,
            Event::SelectClear,
            Event::ChangeFinish,
            Event::Redraw,
        ]
    );
}
