use std::path::PathBuf;
use std::time::{Duration, SystemTime, UNIX_EPOCH};

use mini_claude_code::session::{
    format_elapsed, format_relative_time, is_session_file, relative_time_at, line_entry, load_session,
    most_recent_session, project_dir_name, session_dir_parts, session_info, session_title, sort_sessions, SessionEntry, SessionInfo,
};
use mini_claude_code::types::{ContentBlock, Message, Role};

fn nanos(t: SystemTime) -> u128 {
    t.duration_since(UNIX_EPOCH).unwrap().as_nanos()
}

fn text_message(role: Role, text: &str) -> Message {
    Message { role, content: vec![ContentBlock::Text { text: text.to_string() }] }
}

#[test]
fn test_format_relative_time() {
    let now = SystemTime::now();
    assert_eq!(format_relative_time(nanos(now)), "just now");

    let one_hour_ago = now - Duration::from_secs(3600);
    assert_eq!(format_relative_time(nanos(one_hour_ago)), "1 hour ago");

    let two_days_ago = now - Duration::from_secs(86400 * 2);
    assert_eq!(format_relative_time(nanos(two_days_ago)), "2 days ago");
}

#[test]
fn elapsed_thresholds() {
    assert_eq!(format_elapsed(0), "just now");
    assert_eq!(format_elapsed(59), "just now");
    assert_eq!(format_elapsed(60), "1 min ago");
    assert_eq!(format_elapsed(119), "1 min ago");
    assert_eq!(format_elapsed(120), "2 mins ago");
    assert_eq!(format_elapsed(3599), "59 mins ago");
    assert_eq!(format_elapsed(7200), "2 hours ago");
    assert_eq!(format_elapsed(86399), "23 hours ago");
    assert_eq!(format_elapsed(86400), "1 day ago");
    assert_eq!(format_relative_time(nanos(SystemTime::now() + Duration::from_secs(500))), "just now");
}

#[test]
fn relative_time_measures_from_the_time_to_now() {
    let s: u128 = 1_000_000_000;
    let now = 1_700_000_000 * s;
    assert_eq!(relative_time_at(now, now), "just now");
    assert_eq!(relative_time_at(now, now - 59 * s - 999_999_999), "just now");
    assert_eq!(relative_time_at(now, now - 60 * s), "1 min ago");
    assert_eq!(relative_time_at(now, now - 3 * 3600 * s), "3 hours ago");
    assert_eq!(relative_time_at(now, now - 2 * 86400 * s), "2 days ago");
    // A time after the reading counts as no time at all.
    assert_eq!(relative_time_at(now, now + 10 * 86400 * s), "just now");
    assert_eq!(relative_time_at(now, 0), "19675 days ago");
}

#[test]
fn test_append_and_load() {
    let entries = vec![
        SessionEntry::Meta { model: "haiku".to_string() },
        SessionEntry::Message(text_message(Role::User, "hello")),
    ];
    let (model, messages) = load_session(entries).unwrap();
    assert_eq!(model, "haiku");
    assert_eq!(messages.len(), 1);
}

#[test]
fn resume_restores_messages_appended_after_resume() {
    // Saved: metadata and two messages; after resuming, one more was appended.
    let entries = vec![
        SessionEntry::Meta { model: "haiku".to_string() },
        SessionEntry::Message(text_message(Role::User, "first")),
        SessionEntry::Message(text_message(Role::Assistant, "second")),
        SessionEntry::Message(text_message(Role::User, "third")),
    ];
    let (model, messages) = load_session(entries).unwrap();
    assert_eq!(model, "haiku");
    assert_eq!(messages.len(), 3);
    let texts: Vec<String> = messages
        .iter()
        .map(|m| match &m.content[0] {
            ContentBlock::Text { text } => text.clone(),
            other => panic!("unexpected {:?}", other),
        })
        .collect();
    assert_eq!(texts, vec!["first", "second", "third"]);
    assert_eq!(messages[1].role, Role::Assistant);
}

#[test]
fn load_keeps_last_model_and_skips_lines() {
    let entries = vec![
        SessionEntry::Skipped,
        SessionEntry::Meta { model: "a".to_string() },
        SessionEntry::Message(text_message(Role::User, "one")),
        SessionEntry::Skipped,
        SessionEntry::Message(text_message(Role::Assistant, "two")),
        SessionEntry::Meta { model: "b".to_string() },
    ];
    let (model, messages) = load_session(entries).unwrap();
    assert_eq!(model, "b");
    assert_eq!(messages.len(), 2);
    assert_eq!(messages[1].role, Role::Assistant);
    let err = load_session(vec![SessionEntry::Message(text_message(Role::User, "x"))]).unwrap_err();
    assert_eq!(err, "Session file missing metadata");
    assert!(load_session(vec![SessionEntry::Meta { model: String::new() }]).is_err());
}

#[test]
fn titles() {
    let long = "x".repeat(80);
    let msgs = vec![
        Message { role: Role::User, content: vec![] },
        text_message(Role::User, ""),
        text_message(Role::User, &long),
        text_message(Role::Assistant, "later"),
    ];
    assert_eq!(session_title(&msgs), "x".repeat(50));
    assert_eq!(session_title(&vec![]), "(empty session)");
    let info = session_info(PathBuf::from("/s/a.jsonl"), 7, &msgs);
    assert_eq!(info.message_count, 4);
    assert_eq!(info.modified, 7);
}

fn info(name: &str, modified: u128) -> SessionInfo {
    SessionInfo { path: PathBuf::from(name), title: name.to_string(), modified, message_count: 0 }
}

#[test]
fn sessions_newest_first() {
    let sorted = sort_sessions(vec![info("a", 5), info("b", 9), info("c", 5), info("d", 9)]);
    let names: Vec<&str> = sorted.iter().map(|s| s.title.as_str()).collect();
    assert_eq!(names, vec!["b", "d", "a", "c"]);
    let newest = most_recent_session(vec![info("a", 5), info("b", 9), info("d", 9)]);
    assert_eq!(newest, Some(PathBuf::from("b")));
    assert_eq!(most_recent_session(vec![]), None);
}

#[test]
fn project_directory_name() {
    assert_eq!(project_dir_name("/Users/petr/code"), "-Users-petr-code");
    assert_eq!(project_dir_name(""), "");
}

#[test]
fn session_files_and_lines() {
    assert_eq!(
        session_dir_parts("/Users/petr/proj"),
        vec![".mini-code", "projects", "-Users-petr-proj"]
    );
    assert!(is_session_file(Some("jsonl")));
    assert!(!is_session_file(Some("json")));
    assert!(!is_session_file(Some("JSONL")));
    assert!(!is_session_file(None));
    assert!(matches!(line_entry("   ", Some(SessionEntry::Meta { model: "m".to_string() })), SessionEntry::Skipped));
    assert!(matches!(line_entry("{bad", None), SessionEntry::Skipped));
    match line_entry("{\"type\":\"meta\"}", Some(SessionEntry::Meta { model: "m".to_string() })) {
        SessionEntry::Meta { model } => assert_eq!(model, "m"),
        other => panic!("unexpected {:?}", other),
    }
}
