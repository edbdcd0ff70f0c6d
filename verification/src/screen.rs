//! What the player is shown: the text of the screen, line by line. Putting
//! it on a terminal is left to the caller.

use crate::game::{GameData, GameView, MAX_LIVES};
use crate::words::line_views;
use vstd::prelude::*;
use vstd::string::StringExecFns;

verus! {

/// The number of rows of the figure.
pub const FIGURE_HEIGHT: usize = 7;

/// The number of columns of the figure.
pub const FIGURE_WIDTH: usize = 13;

/// The stage of the figure that goes with a number of lives: one for each of
/// the counts below the full number, and one for a game in which nothing is
/// lost yet.
pub open spec fn figure_stage(lives: int) -> int {
    if 0 <= lives < MAX_LIVES {
        lives
    } else {
        MAX_LIVES as int
    }
}

/// The rows of the figure at each stage, from the hanged man of stage zero
/// to the free man of the last stage.
pub open spec fn figure_rows(stage: int) -> Seq<Seq<char>> {
    if stage == 0 {
        seq![
            " _________   "@,
            "|         |  "@,
            "|         XO "@,
            "|        /|\\ "@,
            "|        / \\ "@,
            "|            "@,
            "|            "@,
        ]
    } else if stage == 1 {
        seq![
            " _________   "@,
            "|         |  "@,
            "|         O  "@,
            "|        /|\\ "@,
            "|        / \\ "@,
            "|        ||| "@,
            "|        ||| "@,
        ]
    } else if stage == 2 {
        seq![
            " _________   "@,
            "|            "@,
            "|         O  "@,
            "|        /|\\ "@,
            "|        / \\ "@,
            "|        ||| "@,
            "|        ||| "@,
        ]
    } else if stage == 3 {
        seq![
            " _________   "@,
            "|            "@,
            "|            "@,
            "|         O  "@,
            "|        /|\\ "@,
            "|        / \\ "@,
            "|        ||| "@,
        ]
    } else if stage == 4 {
        seq![
            " _________   "@,
            "|            "@,
            "|            "@,
            "|            "@,
            "|         O  "@,
            "|        /|\\ "@,
            "|        / \\ "@,
        ]
    } else {
        seq![
            "             "@,
            "             "@,
            "             "@,
            "             "@,
            "          O  "@,
            "         /|\\ "@,
            "         / \\ "@,
        ]
    }
}

/// The contents of a list of rows.
pub open spec fn row_views(rows: Seq<&'static str>) -> Seq<Seq<char>> {
    Seq::new(rows.len(), |i: int| rows[i]@)
}

/// The figure that goes with `lives` lives.
pub fn hangman_figure(lives: i32) -> (rows: [&'static str; 7])
    ensures
        row_views(rows@) == figure_rows(figure_stage(lives as int)),
{
    let rows = match lives {
        0 => [
            " _________   ",
            "|         |  ",
            "|         XO ",
            "|        /|\\ ",
            "|        / \\ ",
            "|            ",
            "|            ",
        ],
        1 => [
            " _________   ",
            "|         |  ",
            "|         O  ",
            "|        /|\\ ",
            "|        / \\ ",
            "|        ||| ",
            "|        ||| ",
        ],
        2 => [
            " _________   ",
            "|            ",
            "|         O  ",
            "|        /|\\ ",
            "|        / \\ ",
            "|        ||| ",
            "|        ||| ",
        ],
        3 => [
            " _________   ",
            "|            ",
            "|            ",
            "|         O  ",
            "|        /|\\ ",
            "|        / \\ ",
            "|        ||| ",
        ],
        4 => [
            " _________   ",
            "|            ",
            "|            ",
            "|            ",
            "|         O  ",
            "|        /|\\ ",
            "|        / \\ ",
        ],
        _ => [
            "             ",
            "             ",
            "             ",
            "             ",
            "          O  ",
            "         /|\\ ",
            "         / \\ ",
        ],
    };
    assert(row_views(rows@) =~= figure_rows(figure_stage(lives as int)));
    rows
}

/// The decimal digit that stands for `n`, a number below ten.
pub open spec fn digit_char(n: int) -> char {
    (n + '0' as int) as char
}

/// Writes the decimal digit that stands for `n`.
pub fn digit_of(n: i32) -> (digit: char)
    requires
        0 <= n <= 9,
    ensures
        digit == digit_char(n as int),
{
    let code: u8 = n as u8 + 48;
    code as char
}

/// The line that tells the lives left and the letters played.
pub open spec fn summary_line(state: GameView) -> Seq<char> {
    "Lives: "@.push(digit_char(state.lives)) + ". Discovered letters: "@ + state.discovered_letters
}

/// The screen of a game, from top to bottom: the title, the lives and the
/// letters played, the figure, the word as far as it is discovered, and the
/// message of the last turn.
pub open spec fn screen_text(state: GameView) -> Seq<Seq<char>> {
    seq!["HANGMAN: CAN YOU GUESS THE WORD?"@, summary_line(state)] + figure_rows(
        figure_stage(state.lives),
    ) + seq![state.displayed_word(), state.status]
}

/// Writes the screen of the game, one line in each string.
pub fn screen_lines(gd: &GameData) -> (lines: Vec<String>)
    requires
        gd@.wf(),
    ensures
        line_views(lines@) == screen_text(gd@),
{
    let mut lines: Vec<String> = Vec::new();
    lines.push("HANGMAN: CAN YOU GUESS THE WORD?".to_owned());
    let mut summary = "Lives: ".to_owned();
    summary.push(digit_of(gd.lives()));
    summary.append(". Discovered letters: ");
    summary.append(gd.discovered_letters());
    lines.push(summary);
    let figure = hangman_figure(gd.lives());
    let ghost head = lines@;
    for i in 0..FIGURE_HEIGHT
        invariant
            lines@.len() == 2 + i,
            lines@.take(2) == head,
            row_views(figure@) == figure_rows(figure_stage(gd@.lives)),
            forall|j: int| 0 <= j < i ==> (#[trigger] lines@[2 + j])@ == figure@[j]@,
    {
        assert(row_views(figure@)[i as int] == figure@[i as int]@);
        lines.push(figure[i].to_owned());
    }
    let ghost drawn = lines@;
    lines.push(gd.masked_word());
    lines.push(gd.status().to_owned());
    proof {
        let shown = line_views(lines@);
        let wanted = screen_text(gd@);
        let rows = figure_rows(figure_stage(gd@.lives));
        assert(rows.len() == 7);
        assert(shown.len() == wanted.len());
        assert forall|k: int| 0 <= k < shown.len() implies shown[k] == wanted[k] by {
            if k < 2 {
                assert(lines@[k] == drawn[k]);
                assert(drawn[k] == drawn.take(2)[k]);
                assert(head[k] == lines@[k]);
            } else if k < 9 {
                assert(lines@[k] == drawn[2 + (k - 2)]);
                assert(drawn[2 + (k - 2)]@ == figure@[k - 2]@);
                assert(row_views(figure@)[k - 2] == figure@[k - 2]@);
                assert(wanted[k] == rows[k - 2]);
            } else if k == 9 {
                assert(wanted[k] == gd@.displayed_word());
            } else {
                assert(wanted[k] == gd@.status);
            }
        }
        assert(shown =~= wanted);
    }
    lines
}

} // verus!
