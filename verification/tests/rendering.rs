//! Rendering the in-progress command for a mode-line display.

use vi_keys::Key;
use vi_keys::Motion;
use vi_keys::Operator;
use vi_keys::TextObject;
use vi_keys::ViCmd;
use vi_keys::ViParser;
use vi_keys::Word;

#[test]
fn empty_command_renders_empty() {
    assert_eq!(ViCmd::default().render(), "");
}

#[test]
fn register_count_and_operator_render_in_order() {
    let mut cmd = ViCmd::default();
    cmd.register = Some('a');
    cmd.count = Some(12);
    cmd.operator = Some(Operator::Delete);
    assert_eq!(cmd.render(), "\"a12Delete");
}

#[test]
fn motions_render_with_their_payloads() {
    let mut cmd = ViCmd::default();
    cmd.motion = Some(Motion::GotoLine(305));
    assert_eq!(cmd.render(), "GotoLine(305)");
    cmd.motion = Some(Motion::NextChar('x'));
    assert_eq!(cmd.render(), "NextChar('x')");
    cmd.motion = Some(Motion::NextWordStart(Word::Upper));
    assert_eq!(cmd.render(), "NextWordStart(Upper)");
    cmd.motion = Some(Motion::Around);
    cmd.text_object = Some(TextObject::Word(Word::Lower));
    assert_eq!(cmd.render(), "AroundWord(Lower)");
    cmd.text_object = Some(TextObject::Search { forwards: true });
    assert_eq!(cmd.render(), "AroundSearch { forwards: true }");
}

#[test]
fn parser_prefix_renders_while_typing() {
    let mut p = ViParser::new();
    for c in "\"q3d".chars() {
        p.parse(Key::Char(c), false);
    }
    assert_eq!(p.cmd.render(), "\"q3Delete");
}
