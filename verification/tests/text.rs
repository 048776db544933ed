use kvstore::text::{is_whitespace, join_from, split_words};

fn list(items: &[&str]) -> Vec<String> {
    items.iter().map(|x| x.to_string()).collect()
}

#[test]
fn is_whitespace_agrees_with_char() {
    for n in 0..=0x10FFFFu32 {
        if let Some(c) = char::from_u32(n) {
            assert_eq!(is_whitespace(c), c.is_whitespace(), "U+{:04X}", n);
        }
    }
}

#[test]
fn is_whitespace_on_named_characters() {
    assert!(is_whitespace(' '));
    assert!(is_whitespace('\t'));
    assert!(is_whitespace('\n'));
    assert!(is_whitespace('\r'));
    assert!(is_whitespace('\u{0B}'));
    assert!(is_whitespace('\u{0C}'));
    assert!(is_whitespace('\u{85}'));
    assert!(is_whitespace('\u{A0}'));
    assert!(is_whitespace('\u{3000}'));
    assert!(!is_whitespace('a'));
    assert!(!is_whitespace('\u{08}'));
    assert!(!is_whitespace('\u{0E}'));
    assert!(!is_whitespace('\u{200B}'));
    assert!(!is_whitespace('\u{1F}'));
}

#[test]
fn split_words_of_empty_and_blank_lines() {
    assert!(split_words("").is_empty());
    assert!(split_words("   ").is_empty());
    assert!(split_words(" \t \r\n").is_empty());
}

#[test]
fn split_words_drops_runs_of_white_space() {
    assert_eq!(split_words("SET name Alice"), list(&["SET", "name", "Alice"]));
    assert_eq!(split_words("  SET   name \t Alice  "), list(&["SET", "name", "Alice"]));
    assert_eq!(split_words("one"), list(&["one"]));
    assert_eq!(split_words("a b"), list(&["a", "b"]));
    assert_eq!(split_words("x\u{3000}y\u{A0}z"), list(&["x", "y", "z"]));
}

#[test]
fn split_words_keeps_other_characters() {
    assert_eq!(split_words("clé=é ☃ 日本語"), list(&["clé=é", "☃", "日本語"]));
    assert_eq!(split_words("a\u{200B}b"), list(&["a\u{200B}b"]));
}

#[test]
fn split_words_agrees_with_split_whitespace() {
    let lines = [
        "",
        " ",
        "a",
        " a",
        "a ",
        "set  k   v1 v2",
        "\tGET\tkey\n",
        "x\u{2028}y\u{205F}z\u{1680}w",
        "é è\u{85}ê",
    ];
    for line in lines {
        let expected: Vec<String> = line.split_whitespace().map(|w| w.to_string()).collect();
        assert_eq!(split_words(line), expected);
    }
}

#[test]
fn join_from_puts_one_space_between_words() {
    let words = list(&["SET", "full", "name", "John", "Smith"]);
    assert_eq!(join_from(&words, 2), "name John Smith");
    assert_eq!(join_from(&words, 4), "Smith");
    assert_eq!(join_from(&words, 5), "");
    assert_eq!(join_from(&words, 0), "SET full name John Smith");
    assert_eq!(join_from(&Vec::new(), 0), "");
}

#[test]
fn joined_words_split_into_the_same_words() {
    let words = list(&["name", "John", "Smith", "é", "x=y"]);
    for from in 0..=words.len() {
        let joined = join_from(&words, from);
        assert_eq!(split_words(&joined), words[from..].to_vec());
    }
    let line = "  a \t b\u{3000}c  ";
    let once = split_words(line);
    assert_eq!(join_from(&once, 0), "a b c");
    assert_eq!(split_words(&join_from(&once, 0)), once);
}
