use ad4m_core::lists::{insert_sorted, less};
use ad4m_core::text::{contains_str, decimal, replace, split, str_eq};

fn strings(items: &[&str]) -> Vec<String> {
    items.iter().map(|s| s.to_string()).collect()
}

#[test]
fn split_keeps_empty_pieces() {
    assert_eq!(split("a\nb", '\n'), strings(&["a", "b"]));
    assert_eq!(split("", '\n'), strings(&[""]));
    assert_eq!(split("a\n", '\n'), strings(&["a", ""]));
    assert_eq!(split("\na\n\nb", '\n'), strings(&["", "a", "", "b"]));
    assert_eq!(split("no separator", '\n'), strings(&["no separator"]));
}

#[test]
fn split_agrees_with_std() {
    for text in ["x\ny\nz", "\n\n", "é\nü", "one line", "trailing\n"] {
        let expected: Vec<String> = text.split('\n').map(|s| s.to_string()).collect();
        assert_eq!(split(text, '\n'), expected);
    }
}

#[test]
fn decimal_renders_every_sign() {
    assert_eq!(decimal(0), "0");
    assert_eq!(decimal(7), "7");
    assert_eq!(decimal(10), "10");
    assert_eq!(decimal(-1), "-1");
    assert_eq!(decimal(1672531200000), "1672531200000");
    assert_eq!(decimal(i64::MAX), "9223372036854775807");
    assert_eq!(decimal(i64::MIN), "-9223372036854775808");
}

#[test]
fn replace_replaces_every_occurrence() {
    assert_eq!(replace("this is this", "this", "that"), "that is that");
    assert_eq!(replace("aaa", "aa", "b"), "ba");
    assert_eq!(replace("abc", "x", "y"), "abc");
    assert_eq!(replace("", "x", "y"), "");
    assert_eq!(replace("abc", "abc", ""), "");
    assert_eq!(replace("ab", "abc", "x"), "ab");
}

#[test]
fn replace_with_empty_pattern_interleaves() {
    assert_eq!(replace("abc", "", "-"), "-a-b-c-");
    assert_eq!(replace("", "", "-"), "-");
}

#[test]
fn replace_agrees_with_std() {
    let cases = [
        ("this://x/this", "this", "base"),
        ("ababab", "aba", "c"),
        ("ééé", "é", "e"),
        ("abc", "", "é"),
        ("thisthis", "this", "this"),
    ];
    for (text, pattern, replacement) in cases {
        assert_eq!(replace(text, pattern, replacement), text.replace(pattern, replacement));
    }
}

#[test]
fn str_eq_compares_characters() {
    assert!(str_eq("", ""));
    assert!(str_eq("abc", "abc"));
    assert!(!str_eq("abc", "abd"));
    assert!(!str_eq("abc", "ab"));
    assert!(str_eq("é", "é"));
    assert!(!str_eq("é", "e"));
}

#[test]
fn contains_str_finds_equal_string() {
    let items = strings(&["a", "b", "*"]);
    assert!(contains_str(&items, "*"));
    assert!(contains_str(&items, "a"));
    assert!(!contains_str(&items, "c"));
    assert!(!contains_str(&Vec::new(), "a"));
}

#[test]
fn less_is_the_order_of_strings() {
    let samples = ["", "a", "ab", "b", "B", "é", "z", "aa", "\u{10000}", "\u{ffff}"];
    for a in samples {
        for b in samples {
            assert_eq!(less(a, b), a < b, "{:?} {:?}", a, b);
        }
    }
}

#[test]
fn insert_sorted_keeps_order_and_skips_duplicates() {
    let mut items: Vec<String> = Vec::new();
    for s in ["m", "a", "z", "m", "b", "a"] {
        insert_sorted(&mut items, s.to_string());
    }
    assert_eq!(items, strings(&["a", "b", "m", "z"]));
}
