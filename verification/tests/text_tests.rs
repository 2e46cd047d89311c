use kisan_ai::text::{chars_of, contains, count_occurrences, matches_at, same_text, split_words, trim};

fn chars(text: &str) -> Vec<char> {
    text.chars().collect()
}

#[test]
fn chars_of_keeps_every_character() {
    assert_eq!(chars_of("भाव ok"), chars("भाव ok"));
    assert_eq!(chars_of(""), Vec::<char>::new());
}

#[test]
fn same_text_compares_contents() {
    assert!(same_text("hi", "hi"));
    assert!(!same_text("hi", "Hi"));
    assert!(!same_text("hi", "hi "));
}

#[test]
fn matches_at_checks_one_position() {
    assert!(matches_at(&chars("tomato"), &chars("mat"), 2));
    assert!(!matches_at(&chars("tomato"), &chars("mat"), 1));
    assert!(!matches_at(&chars("tomato"), &chars("mat"), 4));
    assert!(!matches_at(&chars("ab"), &chars("abc"), 0));
}

#[test]
fn contains_agrees_with_std() {
    let cases = [("tomato farming", "farm"), ("tomato", "tomatoes"), ("", ""), ("abc", ""), ("", "a"),
        ("आज टमाटर का भाव", "भाव"), ("aab", "ab")];
    for (hay, needle) in cases {
        assert_eq!(contains(&chars(hay), &chars(needle)), hay.contains(needle), "{hay:?} {needle:?}");
    }
}

#[test]
fn occurrences_do_not_overlap() {
    assert_eq!(count_occurrences(&chars("aaaa"), &chars("aa")), 2);
    assert_eq!(count_occurrences(&chars("aaa"), &chars("aa")), 1);
    assert_eq!(count_occurrences(&chars("abababa"), &chars("aba")), 2);
    assert_eq!(count_occurrences(&chars("rice and rice"), &chars("rice")), 2);
    assert_eq!(count_occurrences(&chars("rice"), &chars("wheat")), 0);
    assert_eq!(count_occurrences(&chars("abc"), &chars("")), 4);
}

#[test]
fn occurrences_agree_with_std() {
    let cases = [("the cat sat on the mat", "at"), ("xxxxx", "xx"), ("mississippi", "issi"),
        ("भाव भाव भाव", "भाव"), ("abc", "abcd")];
    for (hay, needle) in cases {
        assert_eq!(count_occurrences(&chars(hay), &chars(needle)), hay.matches(needle).count());
    }
}

#[test]
fn trim_agrees_with_std() {
    let cases = ["  hello  ", "hello", "", "   ", "\t\n x y \r\n", "\u{a0}wide\u{3000}", " आज "];
    for text in cases {
        assert_eq!(trim(text), text.trim(), "{text:?}");
    }
}

#[test]
fn split_words_agrees_with_std() {
    let cases = ["tomato price today", "  two   spaces ", "", "   ", "one", "a\tb\nc", "आज टमाटर"];
    for text in cases {
        let expected: Vec<Vec<char>> = text.split_whitespace().map(chars).collect();
        assert_eq!(split_words(&chars(text)), expected, "{text:?}");
    }
}
