use mini_claude_code::picker::{picker_line, PickerKey, PickerStep, SessionPicker};

#[test]
fn picker_moves_and_stops_at_the_ends() {
    let mut p = SessionPicker::new(3);
    assert_eq!(p.selected_index(), 0);
    assert_eq!(p.key(PickerKey::Up), PickerStep::Stay);
    assert_eq!(p.selected_index(), 0);
    assert_eq!(p.key(PickerKey::Down), PickerStep::Stay);
    assert_eq!(p.key(PickerKey::Down), PickerStep::Stay);
    assert_eq!(p.key(PickerKey::Down), PickerStep::Stay);
    assert_eq!(p.selected_index(), 2);
    assert_eq!(p.key(PickerKey::Up), PickerStep::Stay);
    assert_eq!(p.key(PickerKey::Other), PickerStep::Stay);
    assert_eq!(p.key(PickerKey::Enter), PickerStep::Choose(1));
}

#[test]
fn picker_escape_and_empty_list_start_new() {
    let mut p = SessionPicker::new(2);
    assert_eq!(p.key(PickerKey::Escape), PickerStep::StartNew);
    let mut empty = SessionPicker::new(0);
    assert_eq!(empty.key(PickerKey::Down), PickerStep::Stay);
    assert_eq!(empty.key(PickerKey::Enter), PickerStep::StartNew);
}

#[test]
fn picker_lines() {
    assert_eq!(
        picker_line("Fix authentication bug", "2 hours ago", 12, true),
        format!("  > Fix authentication bug{}  2 hours ago \u{b7} 12 messages", " ".repeat(18))
    );
    let long = "x".repeat(45);
    assert_eq!(
        picker_line(&long, "just now", 1, false),
        format!("    {}  just now \u{b7} 1 message", "x".repeat(40))
    );
}
