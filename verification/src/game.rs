//! The state of one game and the transitions that a guess causes.

use crate::input::{normalize_guess, normalized, valid_guess, validate_user_guess};
use crate::masking::{contains_char, format_masked_string, is_revealed, masked_word, revealed};
use vstd::prelude::*;
use vstd::string::StringExecFns;

verus! {

/// The number of wrong guesses that a game allows.
pub const MAX_LIVES: i32 = 5;

/// How a guessed letter stands to the state of the game.
#[derive(Clone, Copy, Debug, PartialEq, Eq, Structural)]
pub enum UserInputStatus {
    /// The letter has been guessed before, rightly or wrongly.
    AlreadyDiscovered,
    /// The letter is new and occurs in the secret word.
    LetterGuessed,
    /// The letter is new and does not occur in the secret word.
    LetterMissed,
}

/// Where a game stands. `Won` and `Lost` are final.
#[derive(Clone, Copy, Debug, PartialEq, Eq, Structural)]
pub enum GamePhase {
    Playing,
    Won,
    Lost,
}

/// What one turn did.
#[derive(Clone, Copy, Debug, PartialEq, Eq, Structural)]
pub enum TurnOutcome {
    /// The input was no letter; nothing was played.
    NotALetter,
    /// The letter had been guessed before; nothing was played.
    AlreadyDiscovered(char),
    /// The letter occurs in the word, and part of the word is still hidden.
    Discovered(char),
    /// The letter completed the word.
    Won,
    /// The letter does not occur in the word, and lives remain.
    Missed(char),
    /// The letter does not occur in the word, and it cost the last life.
    Lost,
}

/// The message that tells the player what a turn did.
pub open spec fn status_text(outcome: TurnOutcome) -> Seq<char> {
    match outcome {
        TurnOutcome::NotALetter => "It is not a letter!"@,
        TurnOutcome::AlreadyDiscovered(c) => seq![c] + " is already discovered!"@,
        TurnOutcome::Discovered(c) => "You discovered "@.push(c),
        TurnOutcome::Won => "You won!"@,
        TurnOutcome::Missed(c) => "Unfortunately, no "@.push(c),
        TurnOutcome::Lost => "You lost!"@,
    }
}

/// Writes the message that tells the player what a turn did.
pub fn status_message(outcome: TurnOutcome) -> (message: String)
    ensures
        message@ == status_text(outcome),
{
    match outcome {
        TurnOutcome::NotALetter => "It is not a letter!".to_owned(),
        TurnOutcome::AlreadyDiscovered(c) => {
            let mut message = String::new();
            message.push(c);
            message.append(" is already discovered!");
            assert(message@ =~= seq![c] + " is already discovered!"@);
            message
        },
        TurnOutcome::Discovered(c) => {
            let mut message = "You discovered ".to_owned();
            message.push(c);
            message
        },
        TurnOutcome::Won => "You won!".to_owned(),
        TurnOutcome::Missed(c) => {
            let mut message = "Unfortunately, no ".to_owned();
            message.push(c);
            message
        },
        TurnOutcome::Lost => "You lost!".to_owned(),
    }
}

/// The mathematical content of a game's state.
pub struct GameView {
    /// The word to be guessed.
    pub secret_word: Seq<char>,
    /// Every letter that was played, in the order of play.
    pub discovered_letters: Seq<char>,
    /// The wrong guesses that are still allowed.
    pub lives: int,
    /// Where the game stands.
    pub phase: GamePhase,
    /// The message of the last turn.
    pub status: Seq<char>,
}

impl GameView {
    /// The state in which every game begins.
    pub open spec fn initial(secret_word: Seq<char>) -> GameView {
        GameView {
            secret_word,
            discovered_letters: Seq::empty(),
            lives: MAX_LIVES as int,
            phase: GamePhase::Playing,
            status: Seq::empty(),
        }
    }

    /// Whether the word is fully shown by the letters played so far.
    pub open spec fn is_revealed(self) -> bool {
        revealed(self.secret_word, self.discovered_letters)
    }

    /// Whether the word hides anything at all before the first guess.
    pub open spec fn has_hidden_letters(self) -> bool {
        !revealed(self.secret_word, Seq::empty())
    }

    /// What holds of every state that a game can reach.
    pub open spec fn wf(self) -> bool {
        &&& 0 <= self.lives <= MAX_LIVES
        &&& self.phase == GamePhase::Lost <==> self.lives == 0
        &&& self.phase == GamePhase::Won ==> self.is_revealed()
        &&& self.is_revealed() && self.has_hidden_letters() ==> self.phase == GamePhase::Won
        &&& self.discovered_letters.no_duplicates()
    }

    /// How the letter `c` stands to this state. A letter that was played
    /// before is `AlreadyDiscovered`, whether or not the word holds it.
    pub open spec fn classify(self, c: char) -> UserInputStatus {
        if self.discovered_letters.contains(c) {
            UserInputStatus::AlreadyDiscovered
        } else if self.secret_word.contains(c) {
            UserInputStatus::LetterGuessed
        } else {
            UserInputStatus::LetterMissed
        }
    }

    /// What playing the letter `c` in this state does.
    pub open spec fn outcome_of_guess(self, c: char) -> TurnOutcome {
        match self.classify(c) {
            UserInputStatus::AlreadyDiscovered => TurnOutcome::AlreadyDiscovered(c),
            UserInputStatus::LetterGuessed => if revealed(
                self.secret_word,
                self.discovered_letters.push(c),
            ) {
                TurnOutcome::Won
            } else {
                TurnOutcome::Discovered(c)
            },
            UserInputStatus::LetterMissed => if self.lives - 1 == 0 {
                TurnOutcome::Lost
            } else {
                TurnOutcome::Missed(c)
            },
        }
    }

    /// The state that playing the letter `c` leads to.
    pub open spec fn after_guess(self, c: char) -> GameView {
        let outcome = self.outcome_of_guess(c);
        GameView {
            secret_word: self.secret_word,
            discovered_letters: if outcome is AlreadyDiscovered {
                self.discovered_letters
            } else {
                self.discovered_letters.push(c)
            },
            lives: if outcome is Missed || outcome is Lost {
                self.lives - 1
            } else {
                self.lives
            },
            phase: match outcome {
                TurnOutcome::Won => GamePhase::Won,
                TurnOutcome::Lost => GamePhase::Lost,
                _ => self.phase,
            },
            status: status_text(outcome),
        }
    }

    /// What a turn with the raw input `input` does: input that is no letter
    /// is refused, a letter is played in lower case.
    pub open spec fn outcome_of_turn(self, input: Option<char>) -> TurnOutcome {
        if valid_guess(input) {
            self.outcome_of_guess(normalized(input->0))
        } else {
            TurnOutcome::NotALetter
        }
    }

    /// The state that a turn with the raw input `input` leads to. Input
    /// that is no letter changes the message and nothing else.
    pub open spec fn after_turn(self, input: Option<char>) -> GameView {
        if valid_guess(input) {
            self.after_guess(normalized(input->0))
        } else {
            GameView {
                secret_word: self.secret_word,
                discovered_letters: self.discovered_letters,
                lives: self.lives,
                phase: self.phase,
                status: status_text(TurnOutcome::NotALetter),
            }
        }
    }

    /// The state after the letters of `guesses` have been played one after
    /// the other, for as long as the game is in play: a game that is won or
    /// lost takes no further guess.
    pub open spec fn after_guesses(self, guesses: Seq<char>) -> GameView
        decreases guesses.len(),
    {
        if guesses.len() == 0 || self.phase != GamePhase::Playing {
            self
        } else {
            self.after_guess(guesses[0]).after_guesses(guesses.drop_first())
        }
    }

    /// The word as the player sees it: masked by the letters played, and
    /// shown in full once the game is lost.
    pub open spec fn displayed_word(self) -> Seq<char> {
        if self.phase == GamePhase::Lost {
            masked_word(self.secret_word, self.secret_word)
        } else {
            masked_word(self.secret_word, self.discovered_letters)
        }
    }
}

/// A letter that the word does not hold shows nothing new.
pub proof fn lemma_miss_keeps_display(word: Seq<char>, mask: Seq<char>, c: char)
    requires
        !word.contains(c),
    ensures
        masked_word(word, mask.push(c)) == masked_word(word, mask),
{
    let before = masked_word(word, mask);
    let after = masked_word(word, mask.push(c));
    assert forall|i: int| 0 <= i < before.len() implies before[i] == after[i] by {
        if i % 2 == 0 {
            let x = word[i / 2];
            assert(word.contains(x));
            if mask.contains(x) {
                let j = choose|j: int| 0 <= j < mask.len() && mask[j] == x;
                assert(mask.push(c)[j] == x);
            }
            if mask.push(c).contains(x) {
                let j = choose|j: int| 0 <= j < mask.push(c).len() && mask.push(c)[j] == x;
                assert(j < mask.len());
                assert(mask[j] == x);
            }
        }
    }
    assert(before =~= after);
}

/// A list without repetition stays so when a letter that it lacks is added.
pub proof fn lemma_push_new_letter(letters: Seq<char>, c: char)
    requires
        letters.no_duplicates(),
        !letters.contains(c),
    ensures
        letters.push(c).no_duplicates(),
{
    let longer = letters.push(c);
    assert forall|i: int, j: int|
        0 <= i < longer.len() && 0 <= j < longer.len() && i != j implies longer[i] != longer[j] by {
        if i < letters.len() {
            assert(letters.contains(longer[i]));
        }
        if j < letters.len() {
            assert(letters.contains(longer[j]));
        }
    }
}

/// Every state that a guess leads to from a well-formed state in play is
/// well-formed.
pub proof fn lemma_after_guess_wf(state: GameView, c: char)
    requires
        state.wf(),
        state.phase == GamePhase::Playing,
    ensures
        state.after_guess(c).wf(),
{
    let next = state.after_guess(c);
    match state.classify(c) {
        UserInputStatus::AlreadyDiscovered => {},
        UserInputStatus::LetterGuessed => {
            assert(next.discovered_letters == state.discovered_letters.push(c));
            lemma_push_new_letter(state.discovered_letters, c);
        },
        UserInputStatus::LetterMissed => {
            assert(next.discovered_letters == state.discovered_letters.push(c));
            lemma_push_new_letter(state.discovered_letters, c);
            lemma_miss_keeps_display(state.secret_word, state.discovered_letters, c);
        },
    }
}

/// The state of one game.
#[derive(Clone, Debug)]
pub struct GameData {
    secret_word: String,
    discovered_letters: String,
    lives: i32,
    phase: GamePhase,
    status: String,
}

impl View for GameData {
    type V = GameView;

    closed spec fn view(&self) -> GameView {
        GameView {
            secret_word: self.secret_word@,
            discovered_letters: self.discovered_letters@,
            lives: self.lives as int,
            phase: self.phase,
            status: self.status@,
        }
    }
}

/// Classifies the letter `user_guess` against the state of the game. The
/// state is not changed.
pub fn check_user_guess(gd: &GameData, user_guess: char) -> (status: UserInputStatus)
    ensures
        status == gd@.classify(user_guess),
{
    if contains_char(gd.discovered_letters.as_str(), user_guess) {
        return UserInputStatus::AlreadyDiscovered;
    }
    if !contains_char(gd.secret_word.as_str(), user_guess) {
        return UserInputStatus::LetterMissed;
    }
    UserInputStatus::LetterGuessed
}

impl GameData {
    /// Begins a game on `secret_word`: all lives, no letter played, no
    /// message.
    pub fn new(secret_word: String) -> (gd: GameData)
        ensures
            gd@ == GameView::initial(secret_word@),
            gd@.wf(),
    {
        let gd = GameData {
            secret_word,
            discovered_letters: String::new(),
            lives: MAX_LIVES,
            phase: GamePhase::Playing,
            status: String::new(),
        };
        proof {
            assert(gd@.discovered_letters =~= Seq::<char>::empty());
            assert(gd@.status =~= Seq::<char>::empty());
        }
        gd
    }

    /// The word to be guessed.
    pub fn secret_word(&self) -> (word: &str)
        ensures
            word@ == self@.secret_word,
    {
        self.secret_word.as_str()
    }

    /// Every letter that was played, in the order of play.
    pub fn discovered_letters(&self) -> (letters: &str)
        ensures
            letters@ == self@.discovered_letters,
    {
        self.discovered_letters.as_str()
    }

    /// The wrong guesses that are still allowed.
    pub fn lives(&self) -> (lives: i32)
        ensures
            lives == self@.lives,
    {
        self.lives
    }

    /// Where the game stands.
    pub fn phase(&self) -> (phase: GamePhase)
        ensures
            phase == self@.phase,
    {
        self.phase
    }

    /// The message of the last turn.
    pub fn status(&self) -> (status: &str)
        ensures
            status@ == self@.status,
    {
        self.status.as_str()
    }

    /// The word as the player sees it.
    pub fn masked_word(&self) -> (shown: String)
        ensures
            shown@ == self@.displayed_word(),
    {
        match self.phase {
            GamePhase::Lost => format_masked_string(
                self.secret_word.as_str(),
                self.secret_word.as_str(),
            ),
            _ => format_masked_string(self.secret_word.as_str(), self.discovered_letters.as_str()),
        }
    }

    /// Plays the letter `guess`. A letter played before changes the message
    /// only. A new letter is recorded; one that the word holds wins the game
    /// if it completes the word, one that it does not hold costs a life and
    /// loses the game with the last.
    pub fn apply_guess(&mut self, guess: char) -> (outcome: TurnOutcome)
        requires
            old(self)@.wf(),
            old(self)@.phase == GamePhase::Playing,
        ensures
            outcome == old(self)@.outcome_of_guess(guess),
            final(self)@ == old(self)@.after_guess(guess),
            final(self)@.wf(),
            0 <= final(self)@.lives <= old(self)@.lives,
    {
        let outcome = match check_user_guess(self, guess) {
            UserInputStatus::AlreadyDiscovered => TurnOutcome::AlreadyDiscovered(guess),
            UserInputStatus::LetterGuessed => {
                self.discovered_letters.push(guess);
                if is_revealed(self.secret_word.as_str(), self.discovered_letters.as_str()) {
                    self.phase = GamePhase::Won;
                    TurnOutcome::Won
                } else {
                    TurnOutcome::Discovered(guess)
                }
            },
            UserInputStatus::LetterMissed => {
                self.discovered_letters.push(guess);
                self.lives = self.lives - 1;
                if self.lives == 0 {
                    self.phase = GamePhase::Lost;
                    TurnOutcome::Lost
                } else {
                    TurnOutcome::Missed(guess)
                }
            },
        };
        self.status = status_message(outcome);
        proof {
            lemma_after_guess_wf(old(self)@, guess);
        }
        outcome
    }

    /// Plays one turn on the raw input `input`. Input that is no letter
    /// changes the message and nothing else; a letter is brought to lower
    /// case and played.
    pub fn take_turn(&mut self, input: Option<char>) -> (outcome: TurnOutcome)
        requires
            old(self)@.wf(),
            old(self)@.phase == GamePhase::Playing,
        ensures
            outcome == old(self)@.outcome_of_turn(input),
            final(self)@ == old(self)@.after_turn(input),
            final(self)@.wf(),
            0 <= final(self)@.lives <= old(self)@.lives,
            !valid_guess(input) ==> {
                &&& outcome == TurnOutcome::NotALetter
                &&& final(self)@.lives == old(self)@.lives
                &&& final(self)@.discovered_letters == old(self)@.discovered_letters
                &&& final(self)@.phase == old(self)@.phase
                &&& final(self)@.secret_word == old(self)@.secret_word
            },
    {
        if validate_user_guess(input) {
            let letter = normalize_guess(input.unwrap());
            self.apply_guess(letter)
        } else {
            self.status = status_message(TurnOutcome::NotALetter);
            TurnOutcome::NotALetter
        }
    }
}

} // verus!
