use hangman::game::GameData;
use hangman::screen::{digit_of, hangman_figure, screen_lines, FIGURE_HEIGHT, FIGURE_WIDTH};

#[test]
fn figure_of_a_lost_game() {
    assert_eq!(
        hangman_figure(0),
        [
            " _________   ",
            "|         |  ",
            "|         XO ",
            "|        /|\\ ",
            "|        / \\ ",
            "|            ",
            "|            ",
        ]
    );
}

#[test]
fn figure_with_one_life() {
    assert_eq!(
        hangman_figure(1),
        [
            " _________   ",
            "|         |  ",
            "|         O  ",
            "|        /|\\ ",
            "|        / \\ ",
            "|        ||| ",
            "|        ||| ",
        ]
    );
}

#[test]
fn figure_with_two_lives() {
    assert_eq!(
        hangman_figure(2),
        [
            " _________   ",
            "|            ",
            "|         O  ",
            "|        /|\\ ",
            "|        / \\ ",
            "|        ||| ",
            "|        ||| ",
        ]
    );
}

#[test]
fn figure_with_three_lives() {
    assert_eq!(
        hangman_figure(3),
        [
            " _________   ",
            "|            ",
            "|            ",
            "|         O  ",
            "|        /|\\ ",
            "|        / \\ ",
            "|        ||| ",
        ]
    );
}

#[test]
fn figure_with_four_lives() {
    assert_eq!(
        hangman_figure(4),
        [
            " _________   ",
            "|            ",
            "|            ",
            "|            ",
            "|         O  ",
            "|        /|\\ ",
            "|        / \\ ",
        ]
    );
}

#[test]
fn figure_with_all_lives() {
    let free = [
        "             ",
        "             ",
        "             ",
        "             ",
        "          O  ",
        "         /|\\ ",
        "         / \\ ",
    ];
    assert_eq!(hangman_figure(5), free);
    assert_eq!(hangman_figure(6), free);
    assert_eq!(hangman_figure(-1), free);
    assert_eq!(hangman_figure(i32::MAX), free);
    assert_eq!(hangman_figure(i32::MIN), free);
}

#[test]
fn every_figure_has_the_same_shape() {
    let mut lives: i32 = -1;
    while lives <= 6 {
        let rows = hangman_figure(lives);
        assert_eq!(rows.len(), FIGURE_HEIGHT);
        for row in rows {
            assert_eq!(row.chars().count(), FIGURE_WIDTH);
        }
        lives += 1;
    }
}

#[test]
fn digits_are_decimal() {
    assert_eq!(digit_of(0), '0');
    assert_eq!(digit_of(1), '1');
    assert_eq!(digit_of(5), '5');
    assert_eq!(digit_of(9), '9');
}

#[test]
fn screen_of_a_new_game() {
    let gd = GameData::new("cat".to_string());
    let lines = screen_lines(&gd);
    let expected = vec![
        "HANGMAN: CAN YOU GUESS THE WORD?",
        "Lives: 5. Discovered letters: ",
        "             ",
        "             ",
        "             ",
        "             ",
        "          O  ",
        "         /|\\ ",
        "         / \\ ",
        "_ _ _ ",
        "",
    ];
    assert_eq!(lines, expected);
}

#[test]
fn screen_after_a_hit_and_a_miss() {
    let mut gd = GameData::new("cat".to_string());
    gd.apply_guess('c');
    gd.apply_guess('z');
    let lines = screen_lines(&gd);
    let expected = vec![
        "HANGMAN: CAN YOU GUESS THE WORD?",
        "Lives: 4. Discovered letters: cz",
        " _________   ",
        "|            ",
        "|            ",
        "|            ",
        "|         O  ",
        "|        /|\\ ",
        "|        / \\ ",
        "c _ _ ",
        "Unfortunately, no z",
    ];
    assert_eq!(lines, expected);
}

#[test]
fn screen_of_a_lost_game_shows_the_word() {
    let mut gd = GameData::new("ox".to_string());
    for guess in ['a', 'b', 'c', 'd', 'e'] {
        gd.apply_guess(guess);
    }
    let lines = screen_lines(&gd);
    let expected = vec![
        "HANGMAN: CAN YOU GUESS THE WORD?",
        "Lives: 0. Discovered letters: abcde",
        " _________   ",
        "|         |  ",
        "|         XO ",
        "|        /|\\ ",
        "|        / \\ ",
        "|            ",
        "|            ",
        "o x ",
        "You lost!",
    ];
    assert_eq!(lines, expected);
}

#[test]
fn screen_of_a_won_game() {
    let mut gd = GameData::new("ox".to_string());
    gd.apply_guess('x');
    gd.apply_guess('o');
    let lines = screen_lines(&gd);
    assert_eq!(lines.len(), 11);
    assert_eq!(lines[1], "Lives: 5. Discovered letters: xo");
    assert_eq!(lines[9], "o x ");
    assert_eq!(lines[10], "You won!");
}
