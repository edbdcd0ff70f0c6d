use hangman::words::{choose_word, get_random_word, split_lines, word_at, WordSourceError};
use std::io::BufRead;

fn owned(words: &[&str]) -> Vec<String> {
    words.iter().map(|w| w.to_string()).collect()
}

#[test]
fn lines_end_at_line_feeds() {
    assert_eq!(split_lines("cat\ndog\n"), owned(&["cat", "dog"]));
    assert_eq!(split_lines("cat\ndog"), owned(&["cat", "dog"]));
    assert_eq!(split_lines("cat"), owned(&["cat"]));
}

#[test]
fn empty_text_has_no_line() {
    assert_eq!(split_lines(""), Vec::<String>::new());
}

#[test]
fn empty_lines_are_lines() {
    assert_eq!(split_lines("\n"), owned(&[""]));
    assert_eq!(split_lines("a\n\nb\n"), owned(&["a", "", "b"]));
    assert_eq!(split_lines("\n\n"), owned(&["", ""]));
}

#[test]
fn carriage_return_before_line_feed_is_dropped() {
    assert_eq!(split_lines("cat\r\ndog\r\n"), owned(&["cat", "dog"]));
    assert_eq!(split_lines("\r\n"), owned(&[""]));
    assert_eq!(split_lines("a\r\r\n"), owned(&["a\r"]));
}

#[test]
fn other_carriage_returns_are_kept() {
    assert_eq!(split_lines("a\rb\n"), owned(&["a\rb"]));
    assert_eq!(split_lines("a\r"), owned(&["a\r"]));
    assert_eq!(split_lines("\r"), owned(&["\r"]));
    assert_eq!(split_lines("a\n\r"), owned(&["a", "\r"]));
}

#[test]
fn case_and_spaces_are_kept_as_stored() {
    assert_eq!(split_lines("Ice Cream\n  x \n"), owned(&["Ice Cream", "  x "]));
}

#[test]
fn lines_agree_with_the_buffered_reader() {
    let texts = [
        "",
        "\n",
        "a",
        "a\n",
        "a\nb",
        "a\r\nb\r\n",
        "a\r",
        "\r",
        "\r\n\r\n",
        "a\r\r\nb",
        "one\n\ntwo\n\n",
        "é\nß\r\n京",
        "x\n\r",
    ];
    for text in texts {
        let expected: Vec<String> =
            std::io::Cursor::new(text).lines().map(|l| l.unwrap()).collect();
        assert_eq!(split_lines(text), expected, "text {:?}", text);
    }
}

#[test]
fn word_at_gives_the_word_drawn() {
    let words = owned(&["cat", "dog", "ox"]);
    assert_eq!(word_at(&words, Some(0)), Ok("cat".to_string()));
    assert_eq!(word_at(&words, Some(2)), Ok("ox".to_string()));
}

#[test]
fn word_at_without_a_draw_is_empty_source() {
    let words = owned(&[]);
    assert_eq!(word_at(&words, None), Err(WordSourceError::EmptySource));
}

#[test]
fn no_word_can_be_drawn_from_nothing() {
    assert_eq!(choose_word(&owned(&[])), Err(WordSourceError::EmptySource));
}

#[test]
fn the_only_word_is_always_drawn() {
    let words = owned(&["cat"]);
    for _ in 0..20 {
        assert_eq!(choose_word(&words), Ok("cat".to_string()));
    }
}

#[test]
fn every_draw_is_one_of_the_words() {
    let words = owned(&["cat", "dog", "ox"]);
    for _ in 0..200 {
        let word = choose_word(&words).unwrap();
        assert!(words.contains(&word));
    }
}

#[test]
fn every_word_is_drawn_sooner_or_later() {
    let words = owned(&["cat", "dog"]);
    let mut seen_cat = false;
    let mut seen_dog = false;
    for _ in 0..400 {
        match choose_word(&words).unwrap().as_str() {
            "cat" => seen_cat = true,
            "dog" => seen_dog = true,
            other => panic!("drew {:?}", other),
        }
    }
    assert!(seen_cat && seen_dog);
}

#[test]
fn unreadable_source_is_unavailable() {
    assert_eq!(get_random_word(None), Err(WordSourceError::SourceUnavailable));
}

#[test]
fn source_without_lines_is_empty() {
    assert_eq!(get_random_word(Some("")), Err(WordSourceError::EmptySource));
}

#[test]
fn random_word_is_a_line_of_the_source() {
    for _ in 0..100 {
        let word = get_random_word(Some("cat\ndog\r\nox")).unwrap();
        assert!(word == "cat" || word == "dog" || word == "ox");
    }
}

#[test]
fn blank_line_can_be_drawn() {
    assert_eq!(get_random_word(Some("\n")), Ok(String::new()));
}
