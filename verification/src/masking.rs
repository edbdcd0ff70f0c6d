//! Rendering of the secret word with undiscovered letters hidden.

use vstd::prelude::*;

verus! {

/// What is shown for the character `c` of the secret word when the letters
/// of `mask` have been discovered.
pub open spec fn masked_char(c: char, mask: Seq<char>) -> char {
    if c == ' ' || mask.contains(c) {
        c
    } else {
        '_'
    }
}

/// The display form of `word`: every character is shown by `masked_char`
/// and followed by one space.
pub open spec fn masked_word(word: Seq<char>, mask: Seq<char>) -> Seq<char> {
    Seq::new(
        2 * word.len(),
        |i: int|
            if i % 2 == 0 {
                masked_char(word[i / 2], mask)
            } else {
                ' '
            },
    )
}

/// `word` written out for display with nothing hidden: each character
/// followed by one space.
pub open spec fn spaced(word: Seq<char>) -> Seq<char> {
    Seq::new(
        2 * word.len(),
        |i: int|
            if i % 2 == 0 {
                word[i / 2]
            } else {
                ' '
            },
    )
}

/// `String::push` appends one character at the end and keeps the rest.
pub assume_specification[ String::push ](s: &mut String, ch: char)
    ensures
        final(s)@ == old(s)@.push(ch),
;

/// Whether `c` occurs in `s`.
pub fn contains_char(s: &str, c: char) -> (found: bool)
    ensures
        found == s@.contains(c),
{
    broadcast use vstd::string::group_string_axioms;

    let mut found = false;
    for x in it: s.chars()
        invariant
            it.seq() == s@,
            found == s@.take(it.index()).contains(c),
    {
        proof {
            let before = s@.take(it.index());
            let after = s@.take(it.index() + 1);
            assert(after == before.push(x));
            assert(after[it.index()] == x);
            assert(forall|j: int| 0 <= j < before.len() ==> before[j] == after[j]);
        }
        if x == c {
            found = true;
        }
    }
    assert(s@.take(s@.len() as int) == s@);
    found
}

/// Appending one character to the word appends its masked form and a space
/// to the display.
pub proof fn lemma_masked_word_push(word: Seq<char>, c: char, mask: Seq<char>)
    ensures
        masked_word(word.push(c), mask) == masked_word(word, mask).push(masked_char(c, mask)).push(
            ' ',
        ),
{
    let longer = masked_word(word.push(c), mask);
    let built = masked_word(word, mask).push(masked_char(c, mask)).push(' ');
    assert(longer.len() == built.len());
    assert forall|i: int| 0 <= i < longer.len() implies longer[i] == built[i] by {
        if i < 2 * word.len() {
            assert(word.push(c)[i / 2] == word[i / 2]);
        } else {
            assert(word.push(c)[i / 2] == c);
        }
    }
    assert(longer =~= built);
}

/// Renders `input` for display: a character that is a space or occurs in
/// `mask` is shown as it is, any other as `_`, and each is followed by a
/// space.
pub fn format_masked_string(input: &str, mask: &str) -> (result: String)
    ensures
        result@ == masked_word(input@, mask@),
{
    broadcast use vstd::string::group_string_axioms;

    let mut result: String = String::new();
    assert(result@ =~= masked_word(input@.take(0), mask@));
    for c in it: input.chars()
        invariant
            it.seq() == input@,
            result@ == masked_word(input@.take(it.index()), mask@),
    {
        proof {
            assert(input@.take(it.index() + 1) == input@.take(it.index()).push(c));
            lemma_masked_word_push(input@.take(it.index()), c, mask@);
        }
        let shown = if c == ' ' || contains_char(mask, c) {
            c
        } else {
            '_'
        };
        result.push(shown);
        result.push(' ');
    }
    assert(input@.take(input@.len() as int) == input@);
    result
}

/// Whether nothing of `word` is hidden any more when the letters of `mask`
/// have been discovered: its display holds no placeholder.
pub open spec fn revealed(word: Seq<char>, mask: Seq<char>) -> bool {
    !masked_word(word, mask).contains('_')
}

/// Tells whether the display of `word` under `mask` is free of
/// placeholders.
pub fn is_revealed(word: &str, mask: &str) -> (done: bool)
    ensures
        done == revealed(word@, mask@),
{
    let shown = format_masked_string(word, mask);
    !contains_char(shown.as_str(), '_')
}

} // verus!
