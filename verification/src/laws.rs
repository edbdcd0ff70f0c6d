//! What holds of every game, proved from the transitions.

use crate::game::{
    lemma_after_guess_wf, GamePhase, GameView, TurnOutcome, UserInputStatus, status_text,
};
use crate::input::{all_whitespace, guess_of_line, lemma_trimmed_end, trimmed_end, valid_guess};
use crate::masking::{masked_char, masked_word, revealed, spaced};
use crate::screen::{figure_rows, FIGURE_HEIGHT, FIGURE_WIDTH};
use crate::words::lines_of;
use vstd::prelude::*;

verus! {

/// The display of a word depends on the word and on which letters have been
/// discovered, and on nothing else: two lists that hold the same letters,
/// in whatever order and however often, give the same display.
pub proof fn lemma_masking_depends_on_letters(word: Seq<char>, first: Seq<char>, second: Seq<char>)
    requires
        first.to_set() == second.to_set(),
    ensures
        masked_word(word, first) == masked_word(word, second),
{
    assert forall|c: char| masked_char(c, first) == masked_char(c, second) by {
        assert(first.contains(c) <==> first.to_set().contains(c));
        assert(second.contains(c) <==> second.to_set().contains(c));
    }
    assert(masked_word(word, first) =~= masked_word(word, second));
}

/// A word masked by its own letters is shown in full.
pub proof fn lemma_own_letters_reveal(word: Seq<char>)
    ensures
        masked_word(word, word) == spaced(word),
        revealed(word, word) <==> !word.contains('_'),
{
    let shown = masked_word(word, word);
    assert forall|i: int| 0 <= i < shown.len() implies shown[i] == spaced(word)[i] by {
        if i % 2 == 0 {
            assert(word.contains(word[i / 2]));
        }
    }
    assert(shown =~= spaced(word));
    if shown.contains('_') {
        let i = choose|i: int| 0 <= i < shown.len() && shown[i] == '_';
        assert(word.contains(word[i / 2]));
    }
    if word.contains('_') {
        let k = choose|k: int| 0 <= k < word.len() && word[k] == '_';
        assert(shown[2 * k] == '_');
    }
}

/// A display without placeholder spells the word out.
pub proof fn lemma_revealed_spells_word(word: Seq<char>, mask: Seq<char>)
    requires
        revealed(word, mask),
    ensures
        masked_word(word, mask) == spaced(word),
{
    let shown = masked_word(word, mask);
    assert forall|i: int| 0 <= i < shown.len() implies shown[i] == spaced(word)[i] by {
        assert(shown.contains(shown[i]));
    }
    assert(shown =~= spaced(word));
}

/// The state in which a game begins is well-formed.
pub proof fn lemma_initial_wf(secret_word: Seq<char>)
    ensures
        GameView::initial(secret_word).wf(),
{
}

/// However many letters are played, the state stays well-formed and the
/// secret word stays the same.
pub proof fn lemma_after_guesses_wf(state: GameView, guesses: Seq<char>)
    requires
        state.wf(),
    ensures
        state.after_guesses(guesses).wf(),
        state.after_guesses(guesses).secret_word == state.secret_word,
    decreases guesses.len(),
{
    if guesses.len() > 0 && state.phase == GamePhase::Playing {
        lemma_after_guess_wf(state, guesses[0]);
        lemma_after_guesses_wf(state.after_guess(guesses[0]), guesses.drop_first());
    }
}

/// In a game on a word that hides at least one letter at the start, the
/// word is fully shown exactly when the game is won: no state in play, and
/// none that is lost, shows the whole word.
pub proof fn lemma_revealed_is_won(state: GameView)
    requires
        state.wf(),
        state.has_hidden_letters(),
    ensures
        state.is_revealed() <==> state.phase == GamePhase::Won,
{
}

/// The same, of every state that a game reaches from its beginning.
pub proof fn lemma_reached_revealed_is_won(secret_word: Seq<char>, guesses: Seq<char>)
    requires
        !revealed(secret_word, Seq::empty()),
    ensures
        GameView::initial(secret_word).after_guesses(guesses).is_revealed()
            <==> GameView::initial(secret_word).after_guesses(guesses).phase == GamePhase::Won,
{
    lemma_after_guesses_wf(GameView::initial(secret_word), guesses);
}

/// One guess never adds a life and never takes the count below zero.
pub proof fn lemma_guess_keeps_lives_in_range(state: GameView, c: char)
    requires
        state.wf(),
        state.phase == GamePhase::Playing,
    ensures
        0 <= state.after_guess(c).lives <= state.lives,
{
}

/// Over a whole game the lives never grow and never fall below zero.
pub proof fn lemma_lives_never_grow(state: GameView, guesses: Seq<char>)
    requires
        state.wf(),
    ensures
        0 <= state.after_guesses(guesses).lives <= state.lives,
    decreases guesses.len(),
{
    if guesses.len() > 0 && state.phase == GamePhase::Playing {
        lemma_after_guess_wf(state, guesses[0]);
        lemma_lives_never_grow(state.after_guess(guesses[0]), guesses.drop_first());
    }
}

/// A letter that was guessed rightly is `AlreadyDiscovered` when it is
/// guessed again, not `LetterGuessed`, and the second guess changes nothing
/// but the message.
pub proof fn lemma_repeated_hit(state: GameView, c: char)
    requires
        state.wf(),
        state.classify(c) == UserInputStatus::LetterGuessed,
    ensures
        state.after_guess(c).classify(c) == UserInputStatus::AlreadyDiscovered,
        state.after_guess(c).after_guess(c).discovered_letters == state.after_guess(
            c,
        ).discovered_letters,
        state.after_guess(c).after_guess(c).lives == state.after_guess(c).lives,
        state.after_guess(c).after_guess(c).phase == state.after_guess(c).phase,
{
    let letters = state.discovered_letters.push(c);
    assert(letters[letters.len() - 1] == c);
}

/// A letter that was guessed wrongly is `AlreadyDiscovered` when it is
/// guessed again, and the second guess costs no life: it changes nothing but
/// the message.
pub proof fn lemma_repeated_miss(state: GameView, c: char)
    requires
        state.wf(),
        state.classify(c) == UserInputStatus::LetterMissed,
    ensures
        state.after_guess(c).lives == state.lives - 1,
        state.after_guess(c).classify(c) == UserInputStatus::AlreadyDiscovered,
        state.after_guess(c).after_guess(c).lives == state.after_guess(c).lives,
        state.after_guess(c).after_guess(c).discovered_letters == state.after_guess(
            c,
        ).discovered_letters,
        state.after_guess(c).after_guess(c).phase == state.after_guess(c).phase,
{
    let letters = state.discovered_letters.push(c);
    assert(letters[letters.len() - 1] == c);
}

/// Input that is no letter is refused, and the turn leaves the lives, the
/// letters played, the phase and the secret word as they were.
pub proof fn lemma_refused_input_changes_nothing(state: GameView, input: Option<char>)
    requires
        !valid_guess(input),
    ensures
        state.outcome_of_turn(input) == TurnOutcome::NotALetter,
        state.after_turn(input).lives == state.lives,
        state.after_turn(input).discovered_letters == state.discovered_letters,
        state.after_turn(input).phase == state.phase,
        state.after_turn(input).secret_word == state.secret_word,
        state.after_turn(input).status == status_text(TurnOutcome::NotALetter),
{
}

/// A line that is empty or holds nothing but whitespace holds no guess, and
/// a turn on it is refused.
pub proof fn lemma_blank_line_is_refused(line: Seq<char>)
    requires
        all_whitespace(line),
    ensures
        guess_of_line(line) is None,
        !valid_guess(guess_of_line(line)),
{
    lemma_trimmed_end(line);
}

/// Of a line that holds more than whitespace only the first character
/// counts: it is the guess, whatever follows it.
pub proof fn lemma_guess_is_first_char(line: Seq<char>)
    requires
        !all_whitespace(line),
    ensures
        guess_of_line(line) == Some(line[0]),
{
    lemma_trimmed_end(line);
    let kept = trimmed_end(line);
    assert(kept[0] == line.take(kept.len() as int)[0]);
}

/// The letters played are never taken back: whatever is played later, the
/// list begins as it stood.
pub proof fn lemma_letters_only_grow(state: GameView, guesses: Seq<char>)
    ensures
        state.discovered_letters.is_prefix_of(state.after_guesses(guesses).discovered_letters),
    decreases guesses.len(),
{
    if guesses.len() > 0 && state.phase == GamePhase::Playing {
        let next = state.after_guess(guesses[0]);
        lemma_letters_only_grow(next, guesses.drop_first());
        assert(state.discovered_letters.is_prefix_of(next.discovered_letters));
    }
}

/// A text holds no line exactly when it is empty.
pub proof fn lemma_no_lines_iff_empty(text: Seq<char>)
    ensures
        lines_of(text).len() == 0 <==> text.len() == 0,
{
}

/// At every stage the figure has the same shape, so that the screen does
/// not jump from one turn to the next.
pub proof fn lemma_figure_shape(stage: int)
    ensures
        figure_rows(stage).len() == FIGURE_HEIGHT,
        forall|i: int| 0 <= i < FIGURE_HEIGHT ==> (#[trigger] figure_rows(stage)[i]).len() == FIGURE_WIDTH,
{
    reveal_strlit(" _________   ");
    reveal_strlit("|         |  ");
    reveal_strlit("|         XO ");
    reveal_strlit("|         O  ");
    reveal_strlit("|        /|\\ ");
    reveal_strlit("|        / \\ ");
    reveal_strlit("|        ||| ");
    reveal_strlit("|            ");
    reveal_strlit("             ");
    reveal_strlit("          O  ");
    reveal_strlit("         /|\\ ");
    reveal_strlit("         / \\ ");
}

} // verus!
