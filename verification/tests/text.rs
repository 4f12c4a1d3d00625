use fling::text::{chars_of, contains_chars, find_trim, find_word, first_chars, last_chars, same_text};

fn chars(text: &str) -> Vec<char> {
    text.chars().collect()
}

fn word(text: &str, n: usize) -> Option<String> {
    let all = chars(text);
    find_word(&all, n).map(|(start, end)| all[start..end].iter().collect())
}

fn trim(text: &str) -> String {
    let all = chars(text);
    let (start, end) = find_trim(&all);
    all[start..end].iter().collect()
}

#[test]
fn characters_come_out_in_order() {
    assert_eq!(chars_of("a\u{e9}\u{65e5}z"), vec!['a', '\u{e9}', '\u{65e5}', 'z']);
    assert!(chars_of("").is_empty());
}

#[test]
fn first_and_last_characters_degrade_gracefully() {
    assert_eq!(first_chars("hello", 2), "he");
    assert_eq!(first_chars("h", 2), "h");
    assert_eq!(first_chars("", 2), "");
    assert_eq!(first_chars("hello", 0), "");
    assert_eq!(first_chars("hello", 5), "hello");
    assert_eq!(first_chars("\u{e9}\u{e8}\u{ea}", 2), "\u{e9}\u{e8}");
    assert_eq!(last_chars("hello", 2), "lo");
    assert_eq!(last_chars("h", 2), "h");
    assert_eq!(last_chars("", 2), "");
    assert_eq!(last_chars("hello", 0), "");
    assert_eq!(last_chars("hello", 5), "hello");
    assert_eq!(last_chars("\u{e9}\u{e8}\u{ea}", 2), "\u{e8}\u{ea}");
    assert_eq!(last_chars("hello", usize::MAX), "hello");
}

#[test]
fn texts_are_compared_by_their_characters() {
    assert!(same_text("", ""));
    assert!(same_text("abc", "abc"));
    assert!(!same_text("abc", "abd"));
    assert!(!same_text("abc", "ab"));
    assert!(!same_text("ab", "abc"));
    assert!(!same_text("abc", "ABC"));
    assert!(same_text("\u{e9}", "\u{e9}"));
}

#[test]
fn words_are_runs_without_white_space() {
    assert_eq!(word("one two  three", 0), Some("one".to_string()));
    assert_eq!(word("one two  three", 1), Some("two".to_string()));
    assert_eq!(word("one two  three", 2), Some("three".to_string()));
    assert_eq!(word("one two  three", 3), None);
    assert_eq!(word("  \t one\n", 0), Some("one".to_string()));
    assert_eq!(word("  \t one\n", 1), None);
    assert_eq!(word("", 0), None);
    assert_eq!(word(" \n ", 0), None);
    assert_eq!(word("x", usize::MAX), None);
}

#[test]
fn words_agree_with_split_whitespace() {
    let samples = [
        "",
        " ",
        "a",
        " a ",
        "a b",
        "Controller 5C:F3:70:8B:2A:11 mybox [default]\n",
        "\u{2003}em\u{2003}space\u{3000}ideographic\u{a0}no-break",
        "tabs\tand\r\nnewlines\u{b}vertical\u{c}feed\u{85}next\u{1680}ogham",
        "\u{200b}zero width is no space\u{feff}",
    ];
    for sample in samples {
        let expected: Vec<&str> = sample.split_whitespace().collect();
        for n in 0..expected.len() + 2 {
            assert_eq!(word(sample, n).as_deref(), expected.get(n).copied());
        }
    }
}

#[test]
fn trimming_agrees_with_trim() {
    let samples = ["", " ", "a", " a ", "  a b \t\n", "\u{a0}x\u{3000}", "x\r\n", "\n\n", "a  "];
    for sample in samples {
        assert_eq!(trim(sample), sample.trim());
    }
}

#[test]
fn containment_agrees_with_contains() {
    let hays = ["", "a", "ab", "abcabd", "10.42.0.7 dev wlan0 lladdr", "aaa", "\u{e9}t\u{e9}"];
    let needles = ["", "a", "b", "ab", "abd", "abcabd", "abcabde", "10.42.0.", "lladdr", "aaaa", "t\u{e9}"];
    for hay in hays {
        for needle in needles {
            assert_eq!(
                contains_chars(&chars(hay), &chars(needle)),
                hay.contains(needle),
                "{:?} in {:?}",
                needle,
                hay
            );
        }
    }
}
