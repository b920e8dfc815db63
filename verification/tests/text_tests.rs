use mini_claude_code::order::sort_strings;
use mini_claude_code::text::{decimal_string, trim_str};

#[test]
fn decimal_rendering() {
    assert_eq!(decimal_string(0), "0");
    assert_eq!(decimal_string(7), "7");
    assert_eq!(decimal_string(10), "10");
    assert_eq!(decimal_string(u128::MAX), u128::MAX.to_string());
}

#[test]
fn trimming_matches_std() {
    for s in ["", "  ", " a ", "\u{3000}x\u{a0}", "\t\nab c\r\n", "x"] {
        assert_eq!(trim_str(s), s.trim());
    }
}

#[test]
fn sorting_matches_std() {
    let input: Vec<String> = ["b", "a", "", "ab", "é", "Z", "a"].iter().map(|s| s.to_string()).collect();
    let mut expected = input.clone();
    expected.sort();
    assert_eq!(sort_strings(input), expected);
}
