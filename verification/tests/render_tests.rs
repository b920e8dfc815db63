use mini_claude_code::render::{count_display_lines, rewind_output, separator_line};

#[test]
fn display_lines() {
    assert_eq!(count_display_lines("", 80), 1);
    assert_eq!(count_display_lines("abc", 80), 1);
    assert_eq!(count_display_lines("a\n\nb", 80), 3);
    assert_eq!(count_display_lines("a\n", 80), 2);
    assert_eq!(count_display_lines(&"x".repeat(161), 80), 3);
    // Bytes, not characters, decide the wrapping.
    assert_eq!(count_display_lines("你好", 3), 2);
}

#[test]
fn display_lines_of_blank_text_at_zero_width() {
    // Blank lines take one row each whatever the width.
    assert_eq!(count_display_lines("\n\n", 0), 3);
    assert_eq!(count_display_lines("", 0), 1);
}

#[test]
fn separator_and_rewind() {
    assert_eq!(separator_line(3), "\x1b[2m\u{2500}\u{2500}\u{2500}\x1b[0m");
    assert_eq!(separator_line(500).chars().filter(|c| *c == '\u{2500}').count(), 60);
    assert_eq!(rewind_output(0), "");
    assert_eq!(rewind_output(2), "\x1b[A\x1b[2K\x1b[A\x1b[2K\x1b[2K\r");
}
