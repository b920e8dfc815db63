use mini_claude_code::repl::tool_input;
use mini_claude_code::tools::bash::BashTool;
use mini_claude_code::tools::edit::EditTool;
use mini_claude_code::tools::glob::GlobTool;
use mini_claude_code::tools::grep::GrepTool;
use mini_claude_code::tools::read::ReadTool;
use mini_claude_code::tools::write::WriteTool;

fn edit_input(old: &str, new: &str) -> mini_claude_code::json::JsonValue {
    let text = format!(
        "{{\"file_path\": \"/tmp/test.txt\", \"old_string\": {:?}, \"new_string\": {:?}}}",
        old, new
    );
    tool_input(&text)
}

#[test]
fn test_edit_replace() {
    let args = EditTool::args(&edit_input("foo bar", "baz qux")).unwrap();
    let result = EditTool::apply("hello world\nfoo bar\n", &args);
    assert_eq!(result.unwrap(), "hello world\nbaz qux\n");
    let done = EditTool::edited(&args.file_path);
    assert!(!done.is_error);
    assert_eq!(done.content, "Successfully edited /tmp/test.txt");
}

#[test]
fn test_edit_string_not_found() {
    let args = EditTool::args(&edit_input("not here", "replacement")).unwrap();
    let result = EditTool::apply("hello world\n", &args).unwrap_err();
    assert!(result.is_error);
    assert_eq!(result.content, "Error: old_string not found in file");
}

#[test]
fn test_edit_multiple_matches_fails() {
    let args = EditTool::args(&edit_input("aaa", "bbb")).unwrap();
    let result = EditTool::apply("aaa\naaa\n", &args).unwrap_err();
    assert!(result.is_error);
    assert!(result.content.contains("multiple"));
    assert_eq!(
        result.content,
        "Error: old_string found multiple times (2 matches). Provide a more unique string."
    );
}

#[test]
fn edit_counts_non_overlapping_matches() {
    let args = EditTool::args(&edit_input("aa", "b")).unwrap();
    // "aaa" holds one non-overlapping "aa" (as str::matches counts).
    assert_eq!(EditTool::apply("aaa", &args).unwrap(), "ba");
    let err = EditTool::apply("aaaa", &args).unwrap_err();
    assert!(err.content.contains("(2 matches)"));
}

#[test]
fn edit_with_empty_old_string() {
    let args = EditTool::args(&edit_input("", "new")).unwrap();
    assert_eq!(EditTool::apply("", &args).unwrap(), "new");
    let err = EditTool::apply("ab", &args).unwrap_err();
    assert!(err.content.contains("(3 matches)"));
}

#[test]
fn edit_multibyte_text() {
    let args = EditTool::args(&edit_input("世界", "world")).unwrap();
    assert_eq!(EditTool::apply("你好世界!", &args).unwrap(), "你好world!");
}

#[test]
fn edit_field_errors_in_order() {
    let err = EditTool::args(&tool_input("{}")).unwrap_err();
    assert_eq!(err.content, "Error: 'file_path' field is required");
    let err = EditTool::args(&tool_input("{\"file_path\": \"x\", \"new_string\": \"y\"}"))
        .unwrap_err();
    assert_eq!(err.content, "Error: 'old_string' field is required");
    let err = EditTool::args(&tool_input("{\"file_path\": \"x\", \"old_string\": 3}"))
        .unwrap_err();
    assert_eq!(err.content, "Error: 'old_string' field is required");
    let err = EditTool::args(&tool_input("{\"file_path\": \"x\", \"old_string\": \"y\"}"))
        .unwrap_err();
    assert!(err.is_error);
    assert_eq!(err.content, "Error: 'new_string' field is required");
    let read = EditTool::read_error("No such file or directory (os error 2)");
    assert_eq!(read.content, "Error reading file: No such file or directory (os error 2)");
    assert!(read.is_error);
}

#[test]
fn test_missing_command_field() {
    let result = BashTool::command(&tool_input("{}")).unwrap_err();
    assert!(result.is_error);
    assert_eq!(result.content, "Error: 'command' field is required");
}

#[test]
fn test_failing_command() {
    let result = BashTool::output_result("", "", false);
    assert!(result.is_error);
}

#[test]
fn bash_output_combines_streams() {
    assert_eq!(BashTool::output_result("hello\n", "", true).content, "hello\n");
    assert_eq!(BashTool::output_result("", "oops", false).content, "oops");
    let both = BashTool::output_result("out", "err", true);
    assert_eq!(both.content, "out\nerr");
    assert!(!both.is_error);
    assert_eq!(
        BashTool::timeout_result().content,
        "Error: command timed out after 120 seconds"
    );
    let cmd = BashTool::command(&tool_input("{\"command\": \"echo hello\"}")).unwrap();
    assert_eq!(cmd, "echo hello");
}

#[test]
fn test_glob_no_matches() {
    let result = GlobTool::listing_result(Vec::new());
    assert!(!result.is_error);
    assert!(result.content.contains("No files found"));
}

#[test]
fn glob_lists_sorted_paths() {
    let files = vec!["/d/b.txt".to_string(), "/d/a.txt".to_string(), "/d/B.txt".to_string()];
    let result = GlobTool::listing_result(files);
    assert!(!result.is_error);
    assert_eq!(result.content, "/d/B.txt\n/d/a.txt\n/d/b.txt");
    let args = GlobTool::args(&tool_input("{\"pattern\": \"*.txt\"}")).unwrap();
    assert_eq!(args.pattern, "*.txt");
    assert_eq!(args.path, ".");
    let err = GlobTool::build_error("unclosed");
    assert_eq!(err.content, "Error building glob: unclosed");
}

#[test]
fn test_grep_no_matches() {
    let result = GrepTool::output_result(Some(1), "", "");
    assert!(!result.is_error);
    assert!(result.content.contains("No matches"));
}

#[test]
fn grep_outcomes_and_arguments() {
    let found = GrepTool::output_result(Some(0), "a.txt:1:hello world\n", "");
    assert!(!found.is_error);
    assert_eq!(found.content, "a.txt:1:hello world\n");
    let bad = GrepTool::output_result(Some(2), "", "regex parse error");
    assert!(bad.is_error);
    assert_eq!(bad.content, "Error running rg: regex parse error");
    let killed = GrepTool::output_result(None, "", "");
    assert!(killed.is_error);
    let args = GrepTool::args(&tool_input("{\"pattern\": \"hello\", \"path\": \"/d\", \"glob\": \"*.rs\"}"))
        .unwrap();
    assert_eq!(
        GrepTool::command_args(&args),
        vec!["--no-heading", "--line-number", "--color=never", "--max-count=50", "--glob", "*.rs", "hello", "/d"]
    );
    let plain = GrepTool::args(&tool_input("{\"pattern\": \"x\"}")).unwrap();
    assert_eq!(
        GrepTool::command_args(&plain),
        vec!["--no-heading", "--line-number", "--color=never", "--max-count=50", "x", "."]
    );
}

#[test]
fn write_messages() {
    let args = WriteTool::args(&tool_input("{\"file_path\": \"/tmp/a\", \"content\": \"hi\"}")).unwrap();
    assert_eq!(args.content, "hi");
    let ok = WriteTool::write_result(&args.file_path, None);
    assert_eq!(ok.content, "Successfully wrote to /tmp/a");
    assert!(!ok.is_error);
    let bad = WriteTool::write_result("/tmp/a", Some("Permission denied"));
    assert_eq!(bad.content, "Error writing file: Permission denied");
    assert!(bad.is_error);
    let missing = WriteTool::args(&tool_input("{\"file_path\": \"/tmp/a\"}")).unwrap_err();
    assert_eq!(missing.content, "Error: 'content' field is required");
}

#[test]
fn tool_names() {
    assert_eq!(ReadTool.name(), "read");
    assert_eq!(BashTool.name(), "bash");
    assert_eq!(EditTool.name(), "edit");
    assert_eq!(GlobTool.name(), "glob");
    assert_eq!(GrepTool.name(), "grep");
    assert_eq!(WriteTool.name(), "write");
}

#[test]
fn read_numbers_the_lines() {
    let args = ReadTool::args(&tool_input("{\"file_path\": \"/tmp/f\"}")).unwrap();
    assert_eq!(args.file_path, "/tmp/f");
    assert_eq!(args.offset, 0);
    assert_eq!(args.limit, None);
    let r = ReadTool::listing("line one\nline two\n", &args);
    assert!(!r.is_error);
    assert!(r.content.contains("1\tline one"));
    assert!(r.content.contains("2\tline two"));
    assert_eq!(r.content, "1\tline one\n2\tline two");
}

#[test]
fn read_with_offset_and_limit() {
    let content: String = (1..=10).map(|i| format!("line {}\n", i)).collect();
    let args = ReadTool::args(&tool_input("{\"file_path\": \"/tmp/f\", \"offset\": 3, \"limit\": 2}"))
        .unwrap();
    assert_eq!((args.offset, args.limit), (3, Some(2)));
    let r = ReadTool::listing(&content, &args);
    assert!(!r.is_error);
    assert!(r.content.contains("4\tline 4"));
    assert!(r.content.contains("5\tline 5"));
    assert!(!r.content.contains("line 3"));
    assert!(!r.content.contains("line 6"));
    assert_eq!(r.content, "4\tline 4\n5\tline 5");
}

#[test]
fn read_edges() {
    let all = ReadTool::args(&tool_input("{\"file_path\": \"f\", \"offset\": -1, \"limit\": 1.5}")).unwrap();
    assert_eq!((all.offset, all.limit), (0, None));
    assert_eq!(ReadTool::listing("a\r\nb\rc\n\nlast", &all).content, "1\ta\n2\tb\rc\n3\t\n4\tlast");
    assert_eq!(ReadTool::listing("", &all).content, "");
    let beyond = ReadTool::args(&tool_input("{\"file_path\": \"f\", \"offset\": 7}")).unwrap();
    assert_eq!(ReadTool::listing("a\nb\n", &beyond).content, "");
    let none = ReadTool::args(&tool_input("{\"file_path\": \"f\", \"limit\": 0}")).unwrap();
    assert_eq!(ReadTool::listing("a\nb\n", &none).content, "");
    let missing = ReadTool::args(&tool_input("{}")).unwrap_err();
    assert!(missing.is_error);
    assert_eq!(missing.content, "Error: 'file_path' field is required");
    let err = ReadTool::read_error("No such file or directory (os error 2)");
    assert!(err.is_error);
    assert_eq!(err.content, "Error reading file: No such file or directory (os error 2)");
}
