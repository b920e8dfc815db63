use mini_claude_code::highlight::{highlight_code, lines_with_endings};

#[test]
fn test_highlight_rust() {
    let code = "fn main() {\n    println!(\"hello\");\n}";
    let result = highlight_code(code, "rust");
    // Should contain ANSI escape codes
    assert!(result.contains("\x1b["));
    // Should contain the actual code
    assert!(result.contains("main"));
}

#[test]
fn test_highlight_unknown_lang() {
    let code = "some plain text";
    let result = highlight_code(code, "nonexistent_lang_xyz");
    assert!(result.contains("some plain text"));
}

#[test]
fn highlight_ends_with_reset() {
    assert!(highlight_code("x = 1\n", "py").ends_with("\x1b[0m"));
    assert_eq!(highlight_code("", "rust"), "\x1b[0m");
}

#[test]
fn lines_keep_their_endings() {
    assert_eq!(lines_with_endings("a\nb"), vec!["a\n", "b"]);
    assert_eq!(lines_with_endings("a\n\n"), vec!["a\n", "\n"]);
    assert!(lines_with_endings("").is_empty());
}

#[test]
fn lines_rejoin_to_the_text() {
    for text in ["", "a", "a\nb", "a\n\n", "\n", "one\ntwo\nthree\n", "你\n好"] {
        assert_eq!(lines_with_endings(text).concat(), text);
    }
}
