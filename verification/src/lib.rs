//! The logic of a word-guessing game for one player: a secret word is drawn
//! from a word list, the player guesses one letter at a time, every wrong
//! guess costs a life, and the game ends when the word is complete or the
//! lives are spent.
//!
//! The library holds the state of a game and what a guess does to it; it
//! reads nothing and prints nothing. A caller hands it the text of the word
//! list and the player's lines, and puts the screen it composes on a
//! terminal.

pub mod game;
pub mod input;
pub mod laws;
pub mod masking;
pub mod screen;
pub mod words;
