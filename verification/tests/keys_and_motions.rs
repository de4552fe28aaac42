//! The key model and the motion helpers.

use vi_keys::Event;
use vi_keys::Key;
use vi_keys::Motion;
use vi_keys::ViParser;
use vi_keys::Word;

#[test]
fn normalize_folds_control_characters() {
    assert_eq!(Key::Char('\x08').normalize(), Key::Backspace);
    assert_eq!(Key::Char('\x7F').normalize(), Key::Delete);
    assert_eq!(Key::Char('\n').normalize(), Key::Enter);
    assert_eq!(Key::Char('\r').normalize(), Key::Enter);
    assert_eq!(Key::Char('\x1B').normalize(), Key::Escape);
    assert_eq!(Key::Char('\t').normalize(), Key::Tab);
    assert_eq!(Key::Char('a').normalize(), Key::Char('a'));
    assert_eq!(Key::Home.normalize(), Key::Home);
}

#[test]
fn parse_normalizes_its_key() {
    let mut p = ViParser::new();
    p.parse(Key::Char('i'), false);
    // A carriage return in insert mode acts as Enter
    assert_eq!(p.parse(Key::Char('\r'), false), vec![Event::NewLine, Event::Redraw]);
    // An escape character leaves insert mode like the Escape key
    let events = p.parse(Key::Char('\x1B'), false);
    assert_eq!(
        events,
        vec![
            Event::Motion(Motion::LeftInLine),
            Event::ChangeFinish,
            Event::Escape,
            Event::Redraw,
        ]
    );
}

#[test]
fn reverse_swaps_directions() {
    assert_eq!(Motion::Down.reverse(), Some(Motion::Up));
    assert_eq!(Motion::NextChar('x').reverse(), Some(Motion::PreviousChar('x')));
    assert_eq!(Motion::NextCharTill('q').reverse(), Some(Motion::PreviousCharTill('q')));
    assert_eq!(
        Motion::NextWordStart(Word::Upper).reverse(),
        Some(Motion::PreviousWordStart(Word::Upper))
    );
    assert_eq!(Motion::SoftHome.reverse(), Some(Motion::End));
    assert_eq!(Motion::Around.reverse(), None);
    assert_eq!(Motion::GotoLine(3).reverse(), None);
    assert_eq!(Motion::Selection.reverse(), None);
}

#[test]
fn only_around_and_inside_need_a_text_object() {
    assert!(Motion::Around.text_object());
    assert!(Motion::Inside.text_object());
    assert!(!Motion::Line.text_object());
    assert!(!Motion::Down.text_object());
    assert!(!Motion::NextChar('x').text_object());
    assert!(!Motion::Selection.text_object());
}

#[test]
fn named_keys_move_in_normal_mode() {
    let mut p = ViParser::new();
    assert_eq!(
        p.parse(Key::Backspace, false),
        vec![Event::Motion(Motion::Left), Event::Redraw]
    );
    assert_eq!(p.parse(Key::Left, false), vec![Event::Motion(Motion::LeftInLine), Event::Redraw]);
    assert_eq!(
        p.parse(Key::Right, false),
        vec![Event::Motion(Motion::RightInLine), Event::Redraw]
    );
    assert_eq!(p.parse(Key::Down, false), vec![Event::Motion(Motion::Down), Event::Redraw]);
    assert_eq!(p.parse(Key::Up, false), vec![Event::Motion(Motion::Up), Event::Redraw]);
    assert_eq!(p.parse(Key::Home, false), vec![Event::Motion(Motion::Home), Event::Redraw]);
    assert_eq!(p.parse(Key::End, false), vec![Event::Motion(Motion::End), Event::Redraw]);
    assert_eq!(
        p.parse(Key::PageDown, false),
        vec![Event::Motion(Motion::PageDown), Event::Redraw]
    );
    assert_eq!(p.parse(Key::PageUp, false), vec![Event::Motion(Motion::PageUp), Event::Redraw]);
}

#[test]
fn space_is_right_not_right_in_line() {
    let mut p = ViParser::new();
    assert_eq!(
        p.parse(Key::Char(' '), false),
        vec![Event::Motion(Motion::Right), Event::Redraw]
    );
    assert_eq!(
        p.parse(Key::Char('l'), false),
        vec![Event::Motion(Motion::RightInLine), Event::Redraw]
    );
}

#[test]
fn dashes_move_up_or_down_to_soft_home() {
    let mut p = ViParser::new();
    assert_eq!(
        p.parse(Key::Char('-'), false),
        vec![
            Event::Motion(Motion::Up),
            Event::Motion(Motion::SoftHome),
            Event::Redraw,
        ]
    );
    assert_eq!(
        p.parse(Key::Char('+'), false),
        vec![
            Event::Motion(Motion::Down),
            Event::Motion(Motion::SoftHome),
            Event::Redraw,
        ]
    );
}

#[test]
fn previous_word_end_via_g() {
    let mut p = ViParser::new();
    p.parse(Key::Char('g'), false);
    assert_eq!(
        p.parse(Key::Char('e'), false),
        vec![Event::Motion(Motion::PreviousWordEnd(Word::Lower)), Event::Redraw]
    );
    p.parse(Key::Char('g'), false);
    assert_eq!(
        p.parse(Key::Char('E'), false),
        vec![Event::Motion(Motion::PreviousWordEnd(Word::Upper)), Event::Redraw]
    );
}
