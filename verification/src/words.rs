//! The source of secret words: a text with one word on each line, from
//! which one word is drawn at random.

use rand::seq::IteratorRandom;
use vstd::prelude::*;

verus! {

/// Why no word could be drawn.
#[derive(Clone, Copy, Debug, PartialEq, Eq, Structural)]
pub enum WordSourceError {
    /// The word list could not be read.
    SourceUnavailable,
    /// The word list holds no line.
    EmptySource,
}

/// The number of characters that stand before the first line feed of
/// `text`; the length of `text` if it holds none.
pub open spec fn first_newline(text: Seq<char>) -> nat
    decreases text.len(),
{
    if text.len() == 0 || text[0] == '\n' {
        0
    } else {
        1 + first_newline(text.drop_first())
    }
}

/// A line without the carriage return that ends it, if one does.
pub open spec fn strip_cr(line: Seq<char>) -> Seq<char> {
    if line.len() > 0 && line.last() == '\r' {
        line.drop_last()
    } else {
        line
    }
}

/// The lines of `text`. A line ends at a line feed, or at a carriage return
/// followed by a line feed; neither belongs to the line. What follows the
/// last line feed is a line if it is not empty.
pub open spec fn lines_of(text: Seq<char>) -> Seq<Seq<char>>
    decreases text.len(),
{
    if text.len() == 0 {
        Seq::empty()
    } else {
        let n = first_newline(text) as int;
        if n >= text.len() {
            seq![text]
        } else {
            seq![strip_cr(text.take(n))] + lines_of(text.skip(n + 1))
        }
    }
}

/// The contents of a list of lines.
pub open spec fn line_views(lines: Seq<String>) -> Seq<Seq<char>> {
    Seq::new(lines.len(), |i: int| lines[i]@)
}

/// `first_newline` is the place of the first line feed.
pub proof fn lemma_first_newline(text: Seq<char>, n: int)
    requires
        0 <= n <= text.len(),
        forall|j: int| 0 <= j < n ==> text[j] != '\n',
        n == text.len() || text[n] == '\n',
    ensures
        first_newline(text) == n,
    decreases text.len(),
{
    if n > 0 {
        let rest = text.drop_first();
        assert forall|j: int| 0 <= j < n - 1 implies rest[j] != '\n' by {
            assert(rest[j] == text[j + 1]);
        }
        lemma_first_newline(rest, n - 1);
    }
}

/// Splits `text` into its lines.
pub fn split_lines(text: &str) -> (lines: Vec<String>)
    ensures
        line_views(lines@) == lines_of(text@),
{
    broadcast use vstd::string::group_string_axioms;

    let mut lines: Vec<String> = Vec::new();
    let mut current = String::new();
    let mut begun = false;
    let mut held_cr = false;
    let ghost mut start: int = 0;
    proof {
        assert(text@.skip(0) == text@);
        assert(line_views(lines@) + lines_of(text@) =~= lines_of(text@));
        assert(current@ =~= text@.subrange(0, 0));
    }
    for c in it: text.chars()
        invariant
            it.seq() == text@,
            0 <= start <= it.index(),
            forall|j: int| start <= j < it.index() ==> text@[j] != '\n',
            begun == (start < it.index()),
            held_cr == (begun && text@[it.index() - 1] == '\r'),
            current@ == text@.subrange(
                start,
                if held_cr {
                    it.index() - 1
                } else {
                    it.index()
                },
            ),
            line_views(lines@) + lines_of(text@.skip(start)) == lines_of(text@),
    {
        let ghost at = it.index();
        if c == '\n' {
            proof {
                let rest = text@.skip(start);
                lemma_first_newline(rest, at - start);
                assert(rest.take(at - start) == text@.subrange(start, at));
                assert(rest.skip(at - start + 1) == text@.skip(at + 1));
                let line = text@.subrange(start, at);
                if begun {
                    assert(line.last() == text@[at - 1]);
                }
                if held_cr {
                    assert(line.drop_last() == text@.subrange(start, at - 1));
                }
                assert(current@ == strip_cr(text@.subrange(start, at)));
                assert(line_views(lines@.push(current)) =~= line_views(lines@) + seq![current@]);
            }
            lines.push(current);
            current = String::new();
            begun = false;
            held_cr = false;
            proof {
                start = at + 1;
                assert(current@ =~= text@.subrange(start, start));
            }
        } else {
            if held_cr {
                current.push('\r');
                assert(current@ =~= text@.subrange(start, at));
            }
            if c == '\r' {
                held_cr = true;
            } else {
                held_cr = false;
                current.push(c);
                assert(current@ =~= text@.subrange(start, at + 1));
            }
            begun = true;
        }
    }
    if held_cr {
        current.push('\r');
    }
    if begun {
        proof {
            let rest = text@.skip(start);
            assert(current@ =~= rest);
            lemma_first_newline(rest, rest.len() as int);
            assert(line_views(lines@.push(current)) =~= line_views(lines@) + seq![current@]);
        }
        lines.push(current);
    } else {
        proof {
            assert(text@.skip(start).len() == 0);
            assert(line_views(lines@) + Seq::<Seq<char>>::empty() =~= line_views(lines@));
        }
    }
    lines
}

/// Draws a number below `n` with `rand::seq::IteratorRandom::choose`, on the
/// range from zero up to `n`, and the generator of `rand::thread_rng`. The
/// call gives `None` if and only if the range is empty, and a number of the
/// range otherwise; which number, nothing says. The generator panics if the
/// system gives it no seed. Nothing is proved of it.
#[verifier::external_body]
fn choose_index(n: usize) -> (choice: Option<usize>)
    ensures
        choice is None <==> n == 0,
        choice matches Some(i) ==> i < n,
{
    (0..n).choose(&mut rand::thread_rng())
}

/// The word that a draw stands for: the word at the place drawn, and
/// `EmptySource` where nothing could be drawn.
pub fn word_at(words: &Vec<String>, choice: Option<usize>) -> (word: Result<
    String,
    WordSourceError,
>)
    requires
        choice matches Some(i) ==> i < words.len(),
    ensures
        match choice {
            Some(i) => word matches Ok(w) && w@ == words[i as int]@,
            None => word == Err::<String, WordSourceError>(WordSourceError::EmptySource),
        },
{
    match choice {
        Some(i) => Ok(words[i].clone()),
        None => Err(WordSourceError::EmptySource),
    }
}

/// Draws one of `words` at random. It fails, with `EmptySource`, if and only
/// if there is no word.
pub fn choose_word(words: &Vec<String>) -> (word: Result<String, WordSourceError>)
    ensures
        word is Err <==> words.len() == 0,
        word is Err ==> word == Err::<String, WordSourceError>(WordSourceError::EmptySource),
        word matches Ok(w) ==> exists|i: int| 0 <= i < words.len() && words[i]@ == w@,
{
    let choice = choose_index(words.len());
    word_at(words, choice)
}

/// Draws a secret word from a word list, of which `source` is the text, or
/// `None` if it could not be read. It fails with `SourceUnavailable` if and
/// only if there is no text, and with `EmptySource` if and only if the text
/// holds no line. The word drawn is one of the lines.
pub fn get_random_word(source: Option<&str>) -> (word: Result<String, WordSourceError>)
    ensures
        source is None <==> word == Err::<String, WordSourceError>(
            WordSourceError::SourceUnavailable,
        ),
        source matches Some(text) && lines_of(text@).len() == 0 <==> word == Err::<
            String,
            WordSourceError,
        >(WordSourceError::EmptySource),
        word matches Ok(w) ==> source matches Some(text) && lines_of(text@).contains(w@),
{
    match source {
        None => Err(WordSourceError::SourceUnavailable),
        Some(text) => {
            let words = split_lines(text);
            let word = choose_word(&words);
            proof {
                assert(line_views(words@).len() == words.len());
                if word is Ok {
                    let w = word->Ok_0;
                    let i = choose|i: int| 0 <= i < words.len() && words[i]@ == w@;
                    assert(line_views(words@)[i] == w@);
                }
            }
            word
        },
    }
}

} // verus!
