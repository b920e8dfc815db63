use mini_claude_code::json::JsonValue;
use mini_claude_code::repl::{
    tool_input, tool_result_block, tool_round_results, truncate_utf8, Conversation, ToolOutcome, TurnAssembler, TurnStep,
    MAX_TOOL_RESULT_CHARS,
};
use mini_claude_code::tools::ToolResult;
use mini_claude_code::types::{
    ApiError, ContentBlock, ContentBlockStartData, DeltaData, Role, SseEvent, StreamEvent,
};

#[test]
fn test_truncate_utf8_ascii() {
    let s = "hello world";
    assert_eq!(truncate_utf8(s, 5), "hello...");
}

#[test]
fn test_truncate_utf8_no_truncation() {
    let s = "hello";
    assert_eq!(truncate_utf8(s, 10), "hello");
}

#[test]
fn test_truncate_utf8_multibyte() {
    let s = "你好世界测试";
    assert_eq!(truncate_utf8(s, 4), "你好世界...");
}

#[test]
fn truncate_at_exact_length_keeps_text() {
    assert_eq!(truncate_utf8("abcde", 5), "abcde");
    assert_eq!(truncate_utf8("", 0), "");
    assert_eq!(truncate_utf8("a", 0), "...");
}

fn start_text(text: &str) -> SseEvent {
    SseEvent::Event(StreamEvent::ContentBlockStart {
        index: 0,
        content_block: ContentBlockStartData::Text { text: text.to_string() },
    })
}

fn start_tool(id: &str, name: &str) -> SseEvent {
    SseEvent::Event(StreamEvent::ContentBlockStart {
        index: 1,
        content_block: ContentBlockStartData::ToolUse { id: id.to_string(), name: name.to_string() },
    })
}

fn text_delta(text: &str) -> SseEvent {
    SseEvent::Event(StreamEvent::ContentBlockDelta {
        index: 0,
        delta: DeltaData::TextDelta { text: text.to_string() },
    })
}

fn json_delta(json: &str) -> SseEvent {
    SseEvent::Event(StreamEvent::ContentBlockDelta {
        index: 1,
        delta: DeltaData::InputJsonDelta { partial_json: json.to_string() },
    })
}

fn stop() -> SseEvent {
    SseEvent::Event(StreamEvent::ContentBlockStop { index: 0 })
}

#[test]
fn assembles_text_then_tool_call() {
    let mut turn = TurnAssembler::new();
    assert!(matches!(turn.step(start_text("")), TurnStep::Continue));
    match turn.step(text_delta("Let me ")) {
        TurnStep::ShowText(t) => assert_eq!(t, "Let me "),
        other => panic!("unexpected {:?}", other),
    }
    turn.step(text_delta("look."));
    match turn.step(start_tool("toolu_1", "bash")) {
        TurnStep::ShowTool(name) => assert_eq!(name, "bash"),
        other => panic!("unexpected {:?}", other),
    }
    turn.step(json_delta("{\"command\":"));
    turn.step(json_delta(" \"ls\"}"));
    turn.step(stop());
    assert!(matches!(turn.step(SseEvent::Done), TurnStep::Finished));
    assert_eq!(turn.content.len(), 2);
    match &turn.content[0] {
        ContentBlock::Text { text } => assert_eq!(text, "Let me look."),
        other => panic!("unexpected {:?}", other),
    }
    match &turn.content[1] {
        ContentBlock::ToolUse { id, name, input } => {
            assert_eq!(id, "toolu_1");
            assert_eq!(name, "bash");
            assert_eq!(input.str_field("command"), Some("ls".to_string()));
        }
        other => panic!("unexpected {:?}", other),
    }
}

#[test]
fn invalid_tool_json_becomes_empty_object() {
    let mut turn = TurnAssembler::new();
    turn.step(start_tool("toolu_2", "glob"));
    turn.step(json_delta("{\"pattern\""));
    turn.step(stop());
    match &turn.content[0] {
        ContentBlock::ToolUse { input: JsonValue::Object(members), .. } => assert!(members.is_empty()),
        other => panic!("unexpected {:?}", other),
    }
}

#[test]
fn error_event_fails_the_answer() {
    let mut turn = TurnAssembler::new();
    turn.step(start_text("partial"));
    let step = turn.step(SseEvent::Event(StreamEvent::Error {
        error: ApiError { error_type: "overloaded_error".to_string(), message: "Overloaded".to_string() },
    }));
    match step {
        TurnStep::Failed(m) => assert_eq!(m, "Overloaded"),
        other => panic!("unexpected {:?}", other),
    }
    assert!(turn.content.is_empty());
}

#[test]
fn empty_text_block_is_not_recorded() {
    let mut turn = TurnAssembler::new();
    turn.step(start_text(""));
    turn.step(stop());
    assert!(turn.content.is_empty());
    assert!(matches!(turn.step(SseEvent::Event(StreamEvent::Ping)), TurnStep::Continue));
}

#[test]
fn failed_request_restores_history() {
    let mut conv = Conversation::new();
    conv.push_user_text("first".to_string());
    let mut content = Vec::new();
    content.push(ContentBlock::Text { text: "answer".to_string() });
    let calls = conv.push_assistant(content);
    assert!(calls.is_empty());
    assert_eq!(conv.messages.len(), 2);
    conv.push_user_text("second".to_string());
    conv.drop_last_message();
    assert_eq!(conv.messages.len(), 2);
    assert_eq!(conv.messages[1].role, Role::Assistant);
}

#[test]
fn tool_calls_are_found_in_order() {
    let mut conv = Conversation::new();
    let content = vec![
        ContentBlock::Text { text: "a".to_string() },
        ContentBlock::ToolUse { id: "t1".to_string(), name: "bash".to_string(), input: JsonValue::empty_object() },
        ContentBlock::Text { text: "b".to_string() },
        ContentBlock::ToolUse { id: "t2".to_string(), name: "grep".to_string(), input: JsonValue::empty_object() },
    ];
    let calls = conv.push_assistant(content);
    assert_eq!(calls, vec![1, 3]);
}

#[test]
fn tool_results_are_truncated_and_flagged() {
    let long = "x".repeat(MAX_TOOL_RESULT_CHARS + 10);
    let block = tool_result_block(
        "t1".to_string(),
        "bash",
        ToolOutcome::Finished(ToolResult { content: long, is_error: false }),
    );
    match block {
        ContentBlock::ToolResult { tool_use_id, content, is_error } => {
            assert_eq!(tool_use_id, "t1");
            assert_eq!(content.chars().count(), MAX_TOOL_RESULT_CHARS + 3);
            assert!(content.ends_with("..."));
            assert_eq!(is_error, None);
        }
        other => panic!("unexpected {:?}", other),
    }
    match tool_result_block("t2".to_string(), "bash", ToolOutcome::Failed("boom".to_string())) {
        ContentBlock::ToolResult { content, is_error, .. } => {
            assert_eq!(content, "Error: boom");
            assert_eq!(is_error, Some(true));
        }
        other => panic!("unexpected {:?}", other),
    }
    match tool_result_block("t3".to_string(), "nope", ToolOutcome::Unknown) {
        ContentBlock::ToolResult { content, is_error, .. } => {
            assert_eq!(content, "Error: unknown tool 'nope'");
            assert_eq!(is_error, Some(true));
        }
        other => panic!("unexpected {:?}", other),
    }
    match tool_result_block(
        "t4".to_string(),
        "edit",
        ToolOutcome::Finished(ToolResult { content: "bad".to_string(), is_error: true }),
    ) {
        ContentBlock::ToolResult { content, is_error, .. } => {
            assert_eq!(content, "bad");
            assert_eq!(is_error, Some(true));
        }
        other => panic!("unexpected {:?}", other),
    }
}

#[test]
fn json_lookups() {
    let v = tool_input("{\"a\": {\"b\": \"c\"}, \"n\": 3}");
    assert_eq!(v.get("a").and_then(|x| x.str_field("b")), Some("c".to_string()));
    assert_eq!(v.str_field("n"), None);
    assert!(v.get("missing").is_none());
    // Text that is not JSON gives an empty object.
    assert!(matches!(tool_input("not json"), JsonValue::Object(ref m) if m.is_empty()));
    assert!(matches!(tool_input(""), JsonValue::Object(ref m) if m.is_empty()));
}

#[test]
fn tool_round_answers_each_call_in_order() {
    let content = vec![
        ContentBlock::Text { text: "looking".to_string() },
        ContentBlock::ToolUse { id: "a".to_string(), name: "bash".to_string(), input: JsonValue::empty_object() },
        ContentBlock::Text { text: "and".to_string() },
        ContentBlock::ToolUse { id: "b".to_string(), name: "nope".to_string(), input: JsonValue::empty_object() },
        ContentBlock::ToolUse { id: "c".to_string(), name: "read".to_string(), input: JsonValue::empty_object() },
    ];
    let outcomes = vec![
        ToolOutcome::Finished(ToolResult { content: "ok".to_string(), is_error: false }),
        ToolOutcome::Unknown,
        ToolOutcome::Failed("boom".to_string()),
    ];
    let results = tool_round_results(&content, outcomes);
    let got: Vec<(String, String, Option<bool>)> = results
        .into_iter()
        .map(|b| match b {
            ContentBlock::ToolResult { tool_use_id, content, is_error } => (tool_use_id, content, is_error),
            other => panic!("unexpected {:?}", other),
        })
        .collect();
    assert_eq!(
        got,
        vec![
            ("a".to_string(), "ok".to_string(), None),
            ("b".to_string(), "Error: unknown tool 'nope'".to_string(), Some(true)),
            ("c".to_string(), "Error: boom".to_string(), Some(true)),
        ]
    );
}
