//! The word classifier: a restartable scanner over a line that yields
//! vi-style words as `(byte_offset, slice)` pairs.
//!
//! With the `Lower` flavour a word is a maximal run of keyword
//! characters (alphanumeric or `_`) or of other non-blank characters;
//! with `Upper` it is a maximal run of non-blank characters.

use vstd::prelude::*;
use vstd::string::*;
use vstd::utf8::char_is_scalar;
use vstd::utf8::encode_scalar;
use vstd::utf8::encode_utf8;
use vstd::utf8::is_scalar;

use crate::motion::Word;

verus! {

broadcast use char_is_scalar;

/// What `char::is_whitespace` returns for a character.
pub uninterp spec fn is_whitespace_char(c: char) -> bool;

/// What `char::is_alphanumeric` returns for a character.
pub uninterp spec fn is_alphanumeric_char(c: char) -> bool;

/// Relies on `char::is_whitespace`: whether the character has the
/// Unicode whitespace property.  The result depends on the character
/// alone.
#[verifier::external_body]
fn char_is_whitespace(c: char) -> (r: bool)
    ensures
        r == is_whitespace_char(c),
{
    c.is_whitespace()
}

/// Relies on `char::is_alphanumeric`: whether the character is in a
/// Unicode letter or number category.  The result depends on the
/// character alone.
#[verifier::external_body]
fn char_is_alphanumeric(c: char) -> (r: bool)
    ensures
        r == is_alphanumeric_char(c),
{
    c.is_alphanumeric()
}

/// Relies on `str::len`: the length in bytes of the UTF-8 encoding of
/// the string.  A Rust slice never occupies more than `isize::MAX`
/// bytes, so the mathematical length fits the returned `usize`.
#[verifier::external_body]
fn str_byte_len(s: &str) -> (r: usize)
    ensures
        r == encode_utf8(s@).len(),
{
    s.len()
}

/// The classification of one character for word scanning.
#[derive(Clone, Copy, Debug, Eq, PartialEq, Structural)]
pub enum WordChar {
    Blank,
    Keyword,
    NonBlank,
}

/// How a character is classified under the given word flavour.
pub open spec fn char_kind(w: Word, c: char) -> WordChar {
    match w {
        Word::Lower => {
            if is_whitespace_char(c) {
                WordChar::Blank
            } else if is_alphanumeric_char(c) || c == '_' {
                WordChar::Keyword
            } else {
                WordChar::NonBlank
            }
        },
        Word::Upper => {
            if is_whitespace_char(c) {
                WordChar::Blank
            } else {
                WordChar::NonBlank
            }
        },
    }
}

/// Classify one character under the given word flavour.
fn classify(w: Word, c: char) -> (k: WordChar)
    ensures
        k == char_kind(w, c),
{
    match w {
        Word::Lower => {
            if char_is_whitespace(c) {
                WordChar::Blank
            } else if char_is_alphanumeric(c) || c == '_' {
                WordChar::Keyword
            } else {
                WordChar::NonBlank
            }
        },
        Word::Upper => {
            if char_is_whitespace(c) {
                WordChar::Blank
            } else {
                WordChar::NonBlank
            }
        },
    }
}

/// The number of bytes in the UTF-8 encoding of one character.
pub open spec fn char_utf8_len(c: char) -> int {
    if (c as u32) < 0x80 {
        1
    } else if (c as u32) < 0x800 {
        2
    } else if (c as u32) < 0x10000 {
        3
    } else {
        4
    }
}

/// The number of bytes in the UTF-8 encoding of a character sequence.
pub open spec fn utf8_len(s: Seq<char>) -> int
    decreases s.len(),
{
    if s.len() == 0 {
        0
    } else {
        char_utf8_len(s[0]) + utf8_len(s.drop_first())
    }
}

/// Every character encodes to at least one byte.
pub proof fn lemma_utf8_len_nonneg(s: Seq<char>)
    ensures
        utf8_len(s) >= s.len(),
    decreases s.len(),
{
    if s.len() > 0 {
        lemma_utf8_len_nonneg(s.drop_first());
    }
}

/// Appending one character adds its encoding length.
pub proof fn lemma_utf8_len_push(s: Seq<char>, c: char)
    ensures
        utf8_len(s.push(c)) == utf8_len(s) + char_utf8_len(c),
    decreases s.len(),
{
    if s.len() == 0 {
        assert(s.push(c)[0] == c);
        assert(s.push(c).drop_first() =~= Seq::<char>::empty());
        assert(utf8_len(Seq::<char>::empty()) == 0);
    } else {
        assert(s.push(c)[0] == s[0]);
        assert(s.push(c).drop_first() =~= s.drop_first().push(c));
        lemma_utf8_len_push(s.drop_first(), c);
    }
}

/// A prefix never encodes to more bytes than a longer prefix.
pub proof fn lemma_utf8_len_mono(s: Seq<char>, i: int, j: int)
    requires
        0 <= i <= j <= s.len(),
    ensures
        utf8_len(s.take(i)) <= utf8_len(s.take(j)),
    decreases j - i,
{
    if i < j {
        lemma_utf8_len_mono(s, i + 1, j);
        assert(s.take(i + 1) =~= s.take(i).push(s[i]));
        lemma_utf8_len_push(s.take(i), s[i]);
        lemma_utf8_len_nonneg(s.take(i));
    }
}

/// The byte count used here agrees with the UTF-8 encoding that the
/// standard library's `str` uses.
pub proof fn lemma_utf8_len_encode(s: Seq<char>)
    ensures
        utf8_len(s) == encode_utf8(s).len(),
    decreases s.len(),
{
    if s.len() > 0 {
        assert(is_scalar(s[0] as u32)) by {
            char_is_scalar(s[0]);
        }
        assert(encode_scalar(s[0] as u32).len() == char_utf8_len(s[0]));
        lemma_utf8_len_encode(s.drop_first());
    }
}

/// The first character at or after `i` that is not blank.
pub open spec fn find_word_start(w: Word, s: Seq<char>, i: int) -> Option<int>
    decreases s.len() - i,
{
    if i < 0 || i >= s.len() {
        None
    } else if char_kind(w, s[i]) != WordChar::Blank {
        Some(i)
    } else {
        find_word_start(w, s, i + 1)
    }
}

/// The first position at or after `j` whose classification differs from
/// `k`, or the end of the line.
pub open spec fn find_word_end(w: Word, s: Seq<char>, k: WordChar, j: int) -> int
    decreases s.len() - j,
{
    if j < 0 || j >= s.len() {
        s.len() as int
    } else if char_kind(w, s[j]) != k {
        j
    } else {
        find_word_end(w, s, k, j + 1)
    }
}

/// Where a word start is found, it lies in range and is not blank.
pub proof fn lemma_find_word_start_bounds(w: Word, s: Seq<char>, i: int)
    requires
        0 <= i,
    ensures
        match find_word_start(w, s, i) {
            Some(start) => i <= start < s.len() && char_kind(w, s[start]) != WordChar::Blank,
            None => true,
        },
    decreases s.len() - i,
{
    if i < s.len() && char_kind(w, s[i]) == WordChar::Blank {
        lemma_find_word_start_bounds(w, s, i + 1);
    }
}

/// A word end lies between its scan start and the end of the line.
pub proof fn lemma_find_word_end_bounds(w: Word, s: Seq<char>, k: WordChar, j: int)
    requires
        0 <= j <= s.len(),
    ensures
        j <= find_word_end(w, s, k, j) <= s.len(),
    decreases s.len() - j,
{
    if j < s.len() && char_kind(w, s[j]) == k {
        lemma_find_word_end_bounds(w, s, k, j + 1);
    }
}

/// Find the next word start from `from`, as [`find_word_start`] gives it.
fn scan_start(line: &str, w: Word, from: usize, chars_len: usize) -> (r: Option<usize>)
    requires
        chars_len == line@.len(),
        from <= chars_len,
    ensures
        match r {
            Some(start) => {
                &&& find_word_start(w, line@, from as int) == Some(start as int)
                &&& from <= start < chars_len
            },
            None => find_word_start(w, line@, from as int) is None,
        },
{
    let mut i = from;
    while i < chars_len
        invariant
            from <= i <= chars_len,
            chars_len == line@.len(),
            find_word_start(w, line@, from as int) == find_word_start(w, line@, i as int),
        decreases chars_len - i,
    {
        let c = line.get_char(i);
        let k = classify(w, c);
        if !matches!(k, WordChar::Blank) {
            return Some(i);
        }
        i = i + 1;
    }
    None
}

/// Find the end of a word of kind `kind0` begun before `from`, as
/// [`find_word_end`] gives it.
fn scan_end(line: &str, w: Word, kind0: WordChar, from: usize, chars_len: usize) -> (r: usize)
    requires
        chars_len == line@.len(),
        from <= chars_len,
    ensures
        r == find_word_end(w, line@, kind0, from as int),
        from <= r <= chars_len,
{
    let mut i = from;
    while i < chars_len
        invariant
            from <= i <= chars_len,
            chars_len == line@.len(),
            find_word_end(w, line@, kind0, from as int) == find_word_end(
                w,
                line@,
                kind0,
                i as int,
            ),
        decreases chars_len - i,
    {
        let c = line.get_char(i);
        let k = classify(w, c);
        if k != kind0 {
            return i;
        }
        i = i + 1;
    }
    chars_len
}

/// Advance a byte offset from character position `from` to `to`.
fn advance_bytes(line: &str, from: usize, to: usize, bytes_at_from: usize, chars_len: usize) -> (r:
    usize)
    requires
        chars_len == line@.len(),
        from <= to <= chars_len,
        bytes_at_from == utf8_len(line@.take(from as int)),
        utf8_len(line@) <= usize::MAX,
    ensures
        r == utf8_len(line@.take(to as int)),
{
    let mut i = from;
    let mut b = bytes_at_from;
    while i < to
        invariant
            from <= i <= to <= chars_len,
            chars_len == line@.len(),
            b == utf8_len(line@.take(i as int)),
            utf8_len(line@) <= usize::MAX,
        decreases to - i,
    {
        let c = line.get_char(i);
        let step: usize = if (c as u32) < 0x80 {
            1
        } else if (c as u32) < 0x800 {
            2
        } else if (c as u32) < 0x10000 {
            3
        } else {
            4
        };
        proof {
            assert(step == char_utf8_len(line@[i as int]));
            assert(line@.take(i + 1) =~= line@.take(i as int).push(line@[i as int]));
            lemma_utf8_len_push(line@.take(i as int), line@[i as int]);
            assert(line@.take(chars_len as int) =~= line@);
            lemma_utf8_len_mono(line@, i + 1, chars_len as int);
            lemma_utf8_len_nonneg(line@.take(i + 1));
        }
        b = b + step;
        i = i + 1;
    }
    b
}

/// A restartable scanner over one line: repeated calls to
/// [`WordIter::next`] yield the successive words of the line with their
/// starting byte offsets.
#[derive(Debug)]
pub struct WordIter<'a> {
    pub line: &'a str,
    pub word: Word,
    pub index: usize,
    pub byte_index: usize,
    pub chars_len: usize,
}

impl<'a> WordIter<'a> {
    /// The scanner's bookkeeping is consistent with its line: the cursor
    /// is a character position with its matching byte offset.
    pub open spec fn wf(self) -> bool {
        &&& self.chars_len == self.line@.len()
        &&& self.index <= self.chars_len
        &&& self.byte_index == utf8_len(self.line@.take(self.index as int))
        &&& utf8_len(self.line@) <= usize::MAX
    }

    /// A scanner over the given line, starting at its beginning.
    pub fn new(line: &'a str, word: Word) -> (r: Self)
        ensures
            r.wf(),
            r.line == line,
            r.word == word,
            r.index == 0,
    {
        let total = str_byte_len(line);
        let chars_len = line.unicode_len();
        proof {
            lemma_utf8_len_encode(line@);
            assert(line@.take(0) =~= Seq::<char>::empty());
        }
        WordIter { line, word, index: 0, byte_index: 0, chars_len }
    }

    /// The next word at or after the cursor: its starting byte offset
    /// and its slice, or `None` when only blanks remain.  The cursor
    /// moves to the character just past the word.
    pub fn next(&mut self) -> (r: Option<(usize, &'a str)>)
        requires
            old(self).wf(),
        ensures
            final(self).wf(),
            final(self).line == old(self).line,
            final(self).word == old(self).word,
            ({
                let s = old(self).line@;
                let w = old(self).word;
                match find_word_start(w, s, old(self).index as int) {
                    None => r is None && final(self).index == old(self).index,
                    Some(start) => {
                        let kind0 = char_kind(w, s[start]);
                        let end = find_word_end(w, s, kind0, start + 1);
                        &&& final(self).index == end
                        &&& r is Some
                        &&& r.unwrap().0 == utf8_len(s.take(start))
                        &&& r.unwrap().1@ == s.subrange(start, end)
                    },
                }
            }),
    {
        let w = self.word;
        proof {
            lemma_find_word_start_bounds(w, self.line@, self.index as int);
        }
        match scan_start(self.line, w, self.index, self.chars_len) {
            None => None,
            Some(start) => {
                let c = self.line.get_char(start);
                let kind0 = classify(w, c);
                proof {
                    lemma_find_word_end_bounds(w, self.line@, kind0, start + 1);
                }
                let end = scan_end(self.line, w, kind0, start + 1, self.chars_len);
                let start_bytes = advance_bytes(
                    self.line,
                    self.index,
                    start,
                    self.byte_index,
                    self.chars_len,
                );
                let end_bytes = advance_bytes(
                    self.line,
                    start,
                    end,
                    start_bytes,
                    self.chars_len,
                );
                let slice = self.line.substring_char(start, end);
                self.index = end;
                self.byte_index = end_bytes;
                Some((start_bytes, slice))
            },
        }
    }
}

} // verus!
