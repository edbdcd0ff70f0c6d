//! Reading a guess out of one line of input.

use vstd::prelude::*;

verus! {

/// Whether `c` has the Unicode property `Alphabetic`.
pub uninterp spec fn is_alphabetic_char(c: char) -> bool;

/// Whether `c` has the Unicode property `White_Space`.
pub uninterp spec fn is_whitespace_char(c: char) -> bool;

/// The lowercase mapping of `c`, which Unicode gives as one or more
/// characters.
pub uninterp spec fn lowercase_of(c: char) -> Seq<char>;

/// `char::is_alphabetic` tells whether the character has the Unicode
/// property `Alphabetic`. Nothing is proved of it.
pub assume_specification[ char::is_alphabetic ](c: char) -> (b: bool)
    ensures
        b == is_alphabetic_char(c),
;

/// `char::is_whitespace` tells whether the character has the Unicode
/// property `White_Space`. Nothing is proved of it.
pub assume_specification[ char::is_whitespace ](c: char) -> (b: bool)
    ensures
        b == is_whitespace_char(c),
;

/// Collects what `char::to_lowercase` yields: the lowercase mapping of `c`,
/// which holds at least one character. Nothing is proved of it.
#[verifier::external_body]
fn lowercase_chars(c: char) -> (lower: Vec<char>)
    ensures
        lower@ == lowercase_of(c),
        lower@.len() >= 1,
{
    c.to_lowercase().collect()
}

/// The line without its trailing whitespace.
pub open spec fn trimmed_end(line: Seq<char>) -> Seq<char>
    decreases line.len(),
{
    if line.len() > 0 && is_whitespace_char(line.last()) {
        trimmed_end(line.drop_last())
    } else {
        line
    }
}

/// The guess that a line of input holds: the first character of what is
/// left of the line once trailing whitespace is gone, if anything is left.
pub open spec fn guess_of_line(line: Seq<char>) -> Option<char> {
    let kept = trimmed_end(line);
    if kept.len() == 0 {
        None
    } else {
        Some(kept[0])
    }
}

/// Whether every character of `line` is whitespace.
pub open spec fn all_whitespace(line: Seq<char>) -> bool {
    forall|i: int| 0 <= i < line.len() ==> is_whitespace_char(#[trigger] line[i])
}

/// What is left after trimming is a prefix of the line, and it is empty
/// exactly when the line holds nothing but whitespace.
pub proof fn lemma_trimmed_end(line: Seq<char>)
    ensures
        trimmed_end(line).len() <= line.len(),
        trimmed_end(line) == line.take(trimmed_end(line).len() as int),
        trimmed_end(line).len() == 0 <==> all_whitespace(line),
    decreases line.len(),
{
    if line.len() > 0 && is_whitespace_char(line.last()) {
        let shorter = line.drop_last();
        lemma_trimmed_end(shorter);
        let n = trimmed_end(shorter).len() as int;
        assert(shorter.take(n) == line.take(n));
        if all_whitespace(shorter) {
            assert forall|i: int| 0 <= i < line.len() implies is_whitespace_char(
                #[trigger] line[i],
            ) by {
                if i < shorter.len() {
                    assert(shorter[i] == line[i]);
                }
            }
        }
        if all_whitespace(line) {
            assert forall|i: int| 0 <= i < shorter.len() implies is_whitespace_char(
                #[trigger] shorter[i],
            ) by {
                assert(shorter[i] == line[i]);
            }
        }
    } else {
        assert(line.take(line.len() as int) == line);
        if line.len() > 0 {
            assert(!is_whitespace_char(line[line.len() - 1]));
        }
    }
}

/// Takes the guess out of one line of input: the first character of the
/// line, unless the line is empty or holds only whitespace.
pub fn guess_from_line(line: &str) -> (guess: Option<char>)
    ensures
        guess == guess_of_line(line@),
{
    broadcast use vstd::string::group_string_axioms;

    let mut first: Option<char> = None;
    let mut blank = true;
    for c in it: line.chars()
        invariant
            it.seq() == line@,
            first == (if it.index() == 0 {
                None
            } else {
                Some(line@[0])
            }),
            blank == all_whitespace(line@.take(it.index())),
    {
        proof {
            let before = line@.take(it.index());
            let after = line@.take(it.index() + 1);
            assert(after[it.index()] == c);
            assert(forall|j: int| 0 <= j < before.len() ==> before[j] == after[j]);
        }
        if first.is_none() {
            first = Some(c);
        }
        if !c.is_whitespace() {
            blank = false;
        }
    }
    proof {
        assert(line@.take(line@.len() as int) == line@);
        lemma_trimmed_end(line@);
    }
    if blank {
        None
    } else {
        first
    }
}

/// Whether a guess can be played: there is a character and it is
/// alphabetic.
pub open spec fn valid_guess(user_guess: Option<char>) -> bool {
    user_guess matches Some(c) && is_alphabetic_char(c)
}

/// Accepts a guess if and only if it is an alphabetic character.
pub fn validate_user_guess(user_guess: Option<char>) -> (valid: bool)
    ensures
        valid == valid_guess(user_guess),
{
    match user_guess {
        Some(guess) => guess.is_alphabetic(),
        None => false,
    }
}

/// What a line of input is accepted as: the guess that it holds, if that is
/// an alphabetic character.
pub open spec fn validated(raw_input: Seq<char>) -> Option<char> {
    if valid_guess(guess_of_line(raw_input)) {
        guess_of_line(raw_input)
    } else {
        None
    }
}

/// Validates one line of input. It gives the first character of the line if
/// there is one and it is alphabetic, and `None` for every other line. What
/// follows the first character is not looked at.
pub fn validate(raw_input: &str) -> (letter: Option<char>)
    ensures
        letter == validated(raw_input@),
{
    let guess = guess_from_line(raw_input);
    if validate_user_guess(guess) {
        guess
    } else {
        None
    }
}

/// The letter that a guess stands for: the first character of its
/// lowercase mapping.
pub open spec fn normalized(c: char) -> char {
    lowercase_of(c)[0]
}

/// Brings a guess to lower case.
pub fn normalize_guess(c: char) -> (letter: char)
    ensures
        letter == normalized(c),
{
    let lower = lowercase_chars(c);
    lower[0]
}

} // verus!
