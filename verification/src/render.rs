//! Rendering the in-progress command as a human-readable string: an
//! optional register prefixed by `"`, the count, then the names of the
//! operator, motion and text object.

use vstd::prelude::*;
use vstd::string::StringExecFns;

use crate::cmd::ViCmd;
use crate::cmd::string_push;
use crate::motion::Motion;
use crate::motion::Operator;
use crate::motion::TextObject;
use crate::motion::Word;

verus! {

/// What the debug formatting of a `char` prints: the character between
/// single quotes, with escapes where needed.
pub uninterp spec fn char_debug(c: char) -> Seq<char>;

/// Relies on the `Debug` formatting of `char`: the result depends on
/// the character alone.
#[verifier::external_body]
fn char_debug_string(c: char) -> (r: String)
    ensures
        r@ == char_debug(c),
{
    format!("{c:?}")
}

/// The character for one decimal digit.
pub open spec fn digit_char(d: nat) -> char
    recommends
        d < 10,
{
    ((d + 48) as u8) as char
}

/// The decimal rendering of a number, most significant digit first.
pub open spec fn decimal_str(n: nat) -> Seq<char>
    decreases n,
{
    if n < 10 {
        seq![digit_char(n)]
    } else {
        decimal_str(n / 10).push(digit_char(n % 10))
    }
}

/// One decimal digit as a character.
fn digit_to_char(d: usize) -> (r: char)
    requires
        d < 10,
    ensures
        r == digit_char(d as nat),
{
    ((d as u8) + 48) as char
}

/// A number in decimal.
fn decimal_string(n: usize) -> (r: String)
    ensures
        r@ == decimal_str(n as nat),
{
    let mut rest: Vec<char> = Vec::new();
    let mut m: usize = n;
    while m >= 10
        invariant
            decimal_str(n as nat) == decimal_str(m as nat) + rest@.reverse(),
        decreases m,
    {
        let ghost before = rest@;
        let d = digit_to_char(m % 10);
        rest.push(d);
        proof {
            assert(rest@.reverse() =~= seq![d] + before.reverse());
            assert(decimal_str((m / 10) as nat).push(digit_char((m % 10) as nat)) + before.reverse()
                =~= decimal_str((m / 10) as nat) + rest@.reverse());
        }
        m = m / 10;
    }
    let mut out = String::new();
    string_push(&mut out, digit_to_char(m));
    let mut i = rest.len();
    proof {
        assert(rest@.subrange(i as int, rest@.len() as int).reverse()
            =~= Seq::<char>::empty());
        assert(out@ =~= seq![digit_char(m as nat)] + rest@.subrange(
            i as int,
            rest@.len() as int,
        ).reverse());
    }
    while i > 0
        invariant
            i <= rest@.len(),
            decimal_str(n as nat) == seq![digit_char(m as nat)] + rest@.reverse(),
            out@ == seq![digit_char(m as nat)] + rest@.subrange(
                i as int,
                rest@.len() as int,
            ).reverse(),
        decreases i,
    {
        let c = rest[i - 1];
        string_push(&mut out, c);
        proof {
            assert(rest@.subrange(i - 1, rest@.len() as int).reverse() =~= rest@.subrange(
                i as int,
                rest@.len() as int,
            ).reverse().push(rest@[i - 1]));
        }
        i = i - 1;
    }
    proof {
        assert(rest@.subrange(0, rest@.len() as int) =~= rest@);
    }
    out
}

/// The name of a word flavour, as its debug formatting prints it.
pub open spec fn word_name(w: Word) -> Seq<char> {
    match w {
        Word::Lower => "Lower"@,
        Word::Upper => "Upper"@,
    }
}

/// The name of an operator, as its debug formatting prints it.
pub open spec fn operator_name(op: Operator) -> Seq<char> {
    match op {
        Operator::AutoIndent => "AutoIndent"@,
        Operator::Change => "Change"@,
        Operator::Delete => "Delete"@,
        Operator::ShiftLeft => "ShiftLeft"@,
        Operator::ShiftRight => "ShiftRight"@,
        Operator::SwapCase => "SwapCase"@,
        Operator::Yank => "Yank"@,
    }
}

/// The name of a motion, as its debug formatting prints it.
pub open spec fn motion_name(m: Motion) -> Seq<char> {
    match m {
        Motion::Around => "Around"@,
        Motion::Down => "Down"@,
        Motion::End => "End"@,
        Motion::GotoEof => "GotoEof"@,
        Motion::GotoLine(n) => "GotoLine("@ + decimal_str(n as nat) + ")"@,
        Motion::Home => "Home"@,
        Motion::Inside => "Inside"@,
        Motion::Left => "Left"@,
        Motion::LeftInLine => "LeftInLine"@,
        Motion::Line => "Line"@,
        Motion::NextChar(c) => "NextChar("@ + char_debug(c) + ")"@,
        Motion::NextCharTill(c) => "NextCharTill("@ + char_debug(c) + ")"@,
        Motion::NextSearch => "NextSearch"@,
        Motion::NextWordEnd(w) => "NextWordEnd("@ + word_name(w) + ")"@,
        Motion::NextWordStart(w) => "NextWordStart("@ + word_name(w) + ")"@,
        Motion::PageDown => "PageDown"@,
        Motion::PageUp => "PageUp"@,
        Motion::PreviousChar(c) => "PreviousChar("@ + char_debug(c) + ")"@,
        Motion::PreviousCharTill(c) => "PreviousCharTill("@ + char_debug(c) + ")"@,
        Motion::PreviousSearch => "PreviousSearch"@,
        Motion::PreviousWordEnd(w) => "PreviousWordEnd("@ + word_name(w) + ")"@,
        Motion::PreviousWordStart(w) => "PreviousWordStart("@ + word_name(w) + ")"@,
        Motion::Right => "Right"@,
        Motion::RightInLine => "RightInLine"@,
        Motion::ScreenHigh => "ScreenHigh"@,
        Motion::ScreenLow => "ScreenLow"@,
        Motion::ScreenMiddle => "ScreenMiddle"@,
        Motion::Selection => "Selection"@,
        Motion::SoftHome => "SoftHome"@,
        Motion::Up => "Up"@,
    }
}

/// The name of a text object, as its debug formatting prints it.
pub open spec fn text_object_name(t: TextObject) -> Seq<char> {
    match t {
        TextObject::AngleBrackets => "AngleBrackets"@,
        TextObject::Block => "Block"@,
        TextObject::CurlyBrackets => "CurlyBrackets"@,
        TextObject::DoubleQuotes => "DoubleQuotes"@,
        TextObject::Paragraph => "Paragraph"@,
        TextObject::Parentheses => "Parentheses"@,
        TextObject::Search { forwards } => {
            if forwards {
                "Search { forwards: true }"@
            } else {
                "Search { forwards: false }"@
            }
        },
        TextObject::Sentence => "Sentence"@,
        TextObject::SingleQuotes => "SingleQuotes"@,
        TextObject::SquareBrackets => "SquareBrackets"@,
        TextObject::Tag => "Tag"@,
        TextObject::Ticks => "Ticks"@,
        TextObject::Word(w) => "Word("@ + word_name(w) + ")"@,
    }
}

/// The rendering of the whole in-progress command.
pub open spec fn cmd_text(cmd: ViCmd) -> Seq<char> {
    (match cmd.register {
        Some(r) => seq!['"', r],
        None => Seq::<char>::empty(),
    }) + (match cmd.count {
        Some(n) => decimal_str(n as nat),
        None => Seq::<char>::empty(),
    }) + (match cmd.operator {
        Some(op) => operator_name(op),
        None => Seq::<char>::empty(),
    }) + (match cmd.motion {
        Some(m) => motion_name(m),
        None => Seq::<char>::empty(),
    }) + (match cmd.text_object {
        Some(t) => text_object_name(t),
        None => Seq::<char>::empty(),
    })
}

/// The name of a word flavour.
fn word_str(w: Word) -> (r: &'static str)
    ensures
        r@ == word_name(w),
{
    match w {
        Word::Lower => "Lower",
        Word::Upper => "Upper",
    }
}

/// The name of an operator.
fn operator_str(op: Operator) -> (r: &'static str)
    ensures
        r@ == operator_name(op),
{
    match op {
        Operator::AutoIndent => "AutoIndent",
        Operator::Change => "Change",
        Operator::Delete => "Delete",
        Operator::ShiftLeft => "ShiftLeft",
        Operator::ShiftRight => "ShiftRight",
        Operator::SwapCase => "SwapCase",
        Operator::Yank => "Yank",
    }
}

/// The name of a motion.
fn motion_string(m: Motion) -> (r: String)
    ensures
        r@ == motion_name(m),
{
    match m {
        Motion::Around => String::from_str("Around"),
        Motion::Down => String::from_str("Down"),
        Motion::End => String::from_str("End"),
        Motion::GotoEof => String::from_str("GotoEof"),
        Motion::GotoLine(n) => {
            let mut out = String::from_str("GotoLine(");
            let digits = decimal_string(n);
            out.append(digits.as_str());
            out.append(")");
            out
        },
        Motion::Home => String::from_str("Home"),
        Motion::Inside => String::from_str("Inside"),
        Motion::Left => String::from_str("Left"),
        Motion::LeftInLine => String::from_str("LeftInLine"),
        Motion::Line => String::from_str("Line"),
        Motion::NextChar(c) => wrap_char("NextChar(", c),
        Motion::NextCharTill(c) => wrap_char("NextCharTill(", c),
        Motion::NextSearch => String::from_str("NextSearch"),
        Motion::NextWordEnd(w) => wrap_word("NextWordEnd(", w),
        Motion::NextWordStart(w) => wrap_word("NextWordStart(", w),
        Motion::PageDown => String::from_str("PageDown"),
        Motion::PageUp => String::from_str("PageUp"),
        Motion::PreviousChar(c) => wrap_char("PreviousChar(", c),
        Motion::PreviousCharTill(c) => wrap_char("PreviousCharTill(", c),
        Motion::PreviousSearch => String::from_str("PreviousSearch"),
        Motion::PreviousWordEnd(w) => wrap_word("PreviousWordEnd(", w),
        Motion::PreviousWordStart(w) => wrap_word("PreviousWordStart(", w),
        Motion::Right => String::from_str("Right"),
        Motion::RightInLine => String::from_str("RightInLine"),
        Motion::ScreenHigh => String::from_str("ScreenHigh"),
        Motion::ScreenLow => String::from_str("ScreenLow"),
        Motion::ScreenMiddle => String::from_str("ScreenMiddle"),
        Motion::Selection => String::from_str("Selection"),
        Motion::SoftHome => String::from_str("SoftHome"),
        Motion::Up => String::from_str("Up"),
    }
}

/// A variant name opened with `head`, holding a debug-formatted
/// character, closed with a parenthesis.
fn wrap_char(head: &str, c: char) -> (r: String)
    ensures
        r@ == head@ + char_debug(c) + ")"@,
{
    let mut out = String::from_str(head);
    let body = char_debug_string(c);
    out.append(body.as_str());
    out.append(")");
    out
}

/// A variant name opened with `head`, holding a word flavour, closed
/// with a parenthesis.
fn wrap_word(head: &str, w: Word) -> (r: String)
    ensures
        r@ == head@ + word_name(w) + ")"@,
{
    let mut out = String::from_str(head);
    out.append(word_str(w));
    out.append(")");
    out
}

/// The name of a text object.
fn text_object_string(t: TextObject) -> (r: String)
    ensures
        r@ == text_object_name(t),
{
    match t {
        TextObject::AngleBrackets => String::from_str("AngleBrackets"),
        TextObject::Block => String::from_str("Block"),
        TextObject::CurlyBrackets => String::from_str("CurlyBrackets"),
        TextObject::DoubleQuotes => String::from_str("DoubleQuotes"),
        TextObject::Paragraph => String::from_str("Paragraph"),
        TextObject::Parentheses => String::from_str("Parentheses"),
        TextObject::Search { forwards } => {
            if forwards {
                String::from_str("Search { forwards: true }")
            } else {
                String::from_str("Search { forwards: false }")
            }
        },
        TextObject::Sentence => String::from_str("Sentence"),
        TextObject::SingleQuotes => String::from_str("SingleQuotes"),
        TextObject::SquareBrackets => String::from_str("SquareBrackets"),
        TextObject::Tag => String::from_str("Tag"),
        TextObject::Ticks => String::from_str("Ticks"),
        TextObject::Word(w) => wrap_word("Word(", w),
    }
}

impl ViCmd {
    /// Render the in-progress command as a host shows it while the user
    /// types: the register prefixed by `"`, then the count, then the
    /// names of the operator, motion and text object, each only when
    /// present.
    pub fn render(&self) -> (r: String)
        ensures
            r@ == cmd_text(*self),
    {
        let mut out = String::new();
        match self.register {
            Some(r) => {
                string_push(&mut out, '"');
                string_push(&mut out, r);
            },
            None => {},
        }
        match self.count {
            Some(n) => {
                let digits = decimal_string(n);
                out.append(digits.as_str());
            },
            None => {},
        }
        match self.operator {
            Some(op) => out.append(operator_str(op)),
            None => {},
        }
        match self.motion {
            Some(m) => {
                let name = motion_string(m);
                out.append(name.as_str());
            },
            None => {},
        }
        match self.text_object {
            Some(t) => {
                let name = text_object_string(t);
                out.append(name.as_str());
            },
            None => {},
        }
        proof {
            assert(out@ =~= cmd_text(*self));
        }
        out
    }
}

} // verus!
