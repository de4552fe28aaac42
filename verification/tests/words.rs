//! The word scanner: vi-style words with their byte offsets.

use vi_keys::Word;
use vi_keys::WordIter;

/// Collect all words of a line under the given flavour.
fn words(line: &str, word: Word) -> Vec<(usize, String)> {
    let mut iter = WordIter::new(line, word);
    let mut out = Vec::new();
    while let Some((offset, slice)) = iter.next() {
        out.push((offset, slice.to_string()));
    }
    out
}

#[test]
fn two_plain_words() {
    assert_eq!(
        words("hello world", Word::Lower),
        vec![(0, "hello".to_string()), (6, "world".to_string())]
    );
}

#[test]
fn keyword_and_punctuation_runs_split_lower_words() {
    assert_eq!(
        words("a+b", Word::Lower),
        vec![(0, "a".to_string()), (1, "+".to_string()), (2, "b".to_string())]
    );
    assert_eq!(
        words("foo_bar9 ++; x", Word::Lower),
        vec![
            (0, "foo_bar9".to_string()),
            (9, "++;".to_string()),
            (13, "x".to_string()),
        ]
    );
}

#[test]
fn upper_words_split_on_blanks_only() {
    assert_eq!(words("a+b", Word::Upper), vec![(0, "a+b".to_string())]);
    assert_eq!(
        words("foo_bar9 ++; x", Word::Upper),
        vec![
            (0, "foo_bar9".to_string()),
            (9, "++;".to_string()),
            (13, "x".to_string()),
        ]
    );
}

#[test]
fn offsets_are_byte_offsets() {
    // 'é' and 'ö' each take two bytes in UTF-8
    assert_eq!(
        words("héllo wörld", Word::Lower),
        vec![(0, "héllo".to_string()), (7, "wörld".to_string())]
    );
}

#[test]
fn blanks_only_yield_nothing() {
    assert_eq!(words("", Word::Lower), Vec::<(usize, String)>::new());
    assert_eq!(words("   \t  ", Word::Lower), Vec::<(usize, String)>::new());
    assert_eq!(words("   \t  ", Word::Upper), Vec::<(usize, String)>::new());
}

#[test]
fn leading_and_trailing_blanks_are_skipped() {
    assert_eq!(
        words("  one  two  ", Word::Lower),
        vec![(2, "one".to_string()), (7, "two".to_string())]
    );
}

#[test]
fn a_fresh_scanner_restarts_from_the_beginning() {
    let line = "one two";
    let mut first = WordIter::new(line, Word::Lower);
    assert_eq!(first.next(), Some((0, "one")));
    assert_eq!(first.next(), Some((4, "two")));
    assert_eq!(first.next(), None);
    let mut again = WordIter::new(line, Word::Lower);
    assert_eq!(again.next(), Some((0, "one")));
}

#[test]
fn underscores_count_as_keyword_characters() {
    assert_eq!(
        words("_a_ -", Word::Lower),
        vec![(0, "_a_".to_string()), (4, "-".to_string())]
    );
}
