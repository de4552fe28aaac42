//! Concrete instances of the parser's laws: the redraw terminator,
//! change bracketing, accumulator reset, one-shot extra modes,
//! selection scoping, reset round trips and count saturation.

use vi_keys::Event;
use vi_keys::Key;
use vi_keys::Motion;
use vi_keys::ViMode;
use vi_keys::ViParser;

/// All keys a smoke test feeds: every named key and a spread of
/// characters.
fn all_keys() -> Vec<Key> {
    let mut keys = vec![
        Key::Backspace,
        Key::Backtab,
        Key::Delete,
        Key::Down,
        Key::End,
        Key::Enter,
        Key::Escape,
        Key::Home,
        Key::Left,
        Key::PageDown,
        Key::PageUp,
        Key::Right,
        Key::Tab,
        Key::Up,
    ];
    for c in ' '..='~' {
        keys.push(Key::Char(c));
    }
    keys.push(Key::Char('\n'));
    keys.push(Key::Char('\t'));
    keys.push(Key::Char('\x08'));
    keys.push(Key::Char('\x1B'));
    keys.push(Key::Char('é'));
    keys
}

#[test]
fn every_key_in_every_reachable_mode_ends_in_one_redraw() {
    // Drive the parser through mode-entering prefixes, then feed every
    // key once: each call must return exactly one Redraw, last
    let prefixes: Vec<&[Key]> = vec![
        &[],
        &[Key::Char('i')],
        &[Key::Char('R')],
        &[Key::Char('v')],
        &[Key::Char('V')],
        &[Key::Char(':')],
        &[Key::Char('/')],
        &[Key::Char('?')],
        &[Key::Char('f')],
        &[Key::Char('g')],
        &[Key::Char('r')],
        &[Key::Char('z')],
        &[Key::Char('"')],
        &[Key::Char('d')],
        &[Key::Char('d'), Key::Char('i')],
    ];
    for prefix in prefixes {
        for k in all_keys() {
            for selection in [false, true] {
                let mut p = ViParser::new();
                for pk in prefix {
                    p.parse(*pk, false);
                }
                let events = p.parse(k, selection);
                let redraws = events.iter().filter(|e| matches!(e, Event::Redraw)).count();
                assert_eq!(redraws, 1, "one redraw for {:?} after {:?}", k, prefix);
                assert!(
                    matches!(events.last(), Some(Event::Redraw)),
                    "redraw last for {:?} after {:?}",
                    k,
                    prefix
                );
            }
        }
    }
}

#[test]
fn change_brackets_balance_over_a_session() {
    let mut p = ViParser::new();
    let keys = "iHi\u{1B}diw.cw\u{1B}3xdd\u{1B}rq/ab\ndap.";
    let mut depth: i64 = 0;
    for c in keys.chars() {
        for e in p.parse(Key::Char(c), false) {
            match e {
                Event::ChangeStart => depth += 1,
                Event::ChangeFinish => {
                    depth -= 1;
                    assert!(depth >= 0, "a ChangeFinish without its ChangeStart");
                }
                _ => {}
            }
        }
    }
}

#[test]
fn accumulator_is_default_after_a_command_runs() {
    let mut p = ViParser::new();
    for c in "\"a3d".chars() {
        p.parse(Key::Char(c), false);
    }
    assert_eq!(p.cmd.register, Some('a'));
    assert_eq!(p.cmd.count, Some(3));
    p.parse(Key::Char('w'), false);
    assert_eq!(p.cmd.register, None);
    assert_eq!(p.cmd.count, None);
    assert_eq!(p.cmd.operator, None);
    assert_eq!(p.cmd.motion, None);
    assert_eq!(p.cmd.text_object, None);
}

#[test]
fn extra_modes_consume_exactly_one_key() {
    for enter in ['f', 'F', 't', 'T', 'g', 'r', 'z', 'Z', '"'] {
        for follow in [Key::Char('q'), Key::Char('x'), Key::Up, Key::Enter, Key::Escape] {
            let mut p = ViParser::new();
            p.parse(Key::Char(enter), false);
            assert!(
                matches!(p.mode, ViMode::Extra(_)),
                "{:?} should enter an extra mode",
                enter
            );
            p.parse(follow, false);
            assert!(
                !matches!(p.mode, ViMode::Extra(_)),
                "{:?} then {:?} should leave the extra mode",
                enter,
                follow
            );
        }
    }
}

#[test]
fn selection_flag_does_not_persist_between_calls() {
    // Two parsers fed the same keys, one with the selection briefly
    // raised on a key that ignores it: all later calls agree
    let mut flagged = ViParser::new();
    let mut plain = ViParser::new();
    flagged.parse(Key::Char('i'), false);
    plain.parse(Key::Char('i'), false);
    let a = flagged.parse(Key::Char('x'), true);
    let b = plain.parse(Key::Char('x'), false);
    assert_eq!(a, b);
    let a = flagged.parse(Key::Escape, false);
    let b = plain.parse(Key::Escape, false);
    assert_eq!(a, b);
    let a = flagged.parse(Key::Char('w'), false);
    let b = plain.parse(Key::Char('w'), false);
    assert_eq!(a, b);
}

#[test]
fn reset_restores_the_observable_state_but_keeps_the_change() {
    let mut p = ViParser::new();
    for c in "diwf x3\"b".chars() {
        p.parse(Key::Char(c), false);
    }
    assert_eq!(p.semicolon_motion, Some(Motion::NextChar(' ')));
    p.reset();
    assert!(matches!(p.mode, ViMode::Normal));
    assert_eq!(p.cmd, vi_keys::ViCmd::default());
    // The remembered find-character motion is forgotten: a semicolon
    // now moves nothing
    assert_eq!(p.semicolon_motion, None);
    assert_eq!(p.parse(Key::Char(';'), false), vec![Event::Redraw]);
    // The last change survives the reset: dot still replays it
    let events = p.parse(Key::Char('.'), false);
    assert!(events.contains(&Event::ChangeStart));
    assert!(events.contains(&Event::ChangeFinish));
}

#[test]
fn counts_saturate_instead_of_overflowing() {
    let mut p = ViParser::new();
    // Far more digits than any machine count can hold
    for _ in 0..40 {
        p.parse(Key::Char('9'), false);
    }
    assert_eq!(p.cmd.count, Some(usize::MAX));
    // A trailing zero on a saturated count keeps it saturated
    p.parse(Key::Char('0'), false);
    assert_eq!(p.cmd.count, Some(usize::MAX));
    p.reset();
    // An exact small count is kept exactly
    for c in "120".chars() {
        p.parse(Key::Char(c), false);
    }
    assert_eq!(p.cmd.count, Some(120));
}

#[test]
fn zero_without_a_count_is_home() {
    let mut p = ViParser::new();
    assert_eq!(
        p.parse(Key::Char('0'), false),
        vec![Event::Motion(Motion::Home), Event::Redraw]
    );
}

#[test]
fn escape_in_normal_mode_emits_escape() {
    let mut p = ViParser::new();
    p.parse(Key::Char('3'), false);
    let events = p.parse(Key::Escape, false);
    assert_eq!(events, vec![Event::Escape, Event::Redraw]);
    assert_eq!(p.cmd.count, None);
}

#[test]
fn unmapped_keys_are_silent() {
    let mut p = ViParser::new();
    for c in ['q', 'Q', 'J', 'K', 'm', 'U', '!', '@', '#', '%', '&', '*'] {
        assert_eq!(p.parse(Key::Char(c), false), vec![Event::Redraw], "for {:?}", c);
        assert!(matches!(p.mode, ViMode::Normal));
    }
    assert_eq!(p.parse(Key::Tab, false), vec![Event::Redraw]);
    assert_eq!(p.parse(Key::Backtab, false), vec![Event::Redraw]);
}
