use mini_claude_code::input::{InputState, InputStep, Key, KeyPress};

fn press(key: Key) -> KeyPress {
    KeyPress { key, control: false }
}

fn typed(state: &mut InputState, text: &str) {
    for c in text.chars() {
        let step = state.key(press(Key::Char(c)));
        match step {
            InputStep::Echo(e) => assert_eq!(e, c.to_string()),
            other => panic!("unexpected {:?}", other),
        }
    }
}

#[test]
fn enter_twice_submits_trimmed() {
    let mut state = InputState::new();
    typed(&mut state, "  hi");
    match state.key(press(Key::Enter)) {
        InputStep::Echo(e) => assert_eq!(e, "\r\n\x1b[1;34m. \x1b[0m"),
        other => panic!("unexpected {:?}", other),
    }
    typed(&mut state, "there ");
    assert!(matches!(state.key(press(Key::Enter)), InputStep::Echo(_)));
    match state.key(press(Key::Enter)) {
        InputStep::Submit(s) => assert_eq!(s, "hi\nthere"),
        other => panic!("unexpected {:?}", other),
    }
}

#[test]
fn control_keys_exit() {
    let mut state = InputState::new();
    assert!(matches!(state.key(KeyPress { key: Key::Char('d'), control: true }), InputStep::Exit));
    let mut state = InputState::new();
    typed(&mut state, "x");
    // Ctrl+D with text typed inserts the letter.
    assert!(matches!(state.key(KeyPress { key: Key::Char('d'), control: true }), InputStep::Echo(_)));
    assert!(matches!(state.key(KeyPress { key: Key::Char('c'), control: true }), InputStep::Exit));
}

#[test]
fn backspace_edits() {
    let mut state = InputState::new();
    assert!(matches!(state.key(press(Key::Backspace)), InputStep::Continue));
    typed(&mut state, "ab");
    match state.key(press(Key::Backspace)) {
        InputStep::Echo(e) => assert_eq!(e, "\x1b[D \x1b[D"),
        other => panic!("unexpected {:?}", other),
    }
    state.key(press(Key::Enter));
    match state.key(press(Key::Backspace)) {
        InputStep::Echo(e) => assert_eq!(e, "\x1b[A\x1b[999C"),
        other => panic!("unexpected {:?}", other),
    }
    assert!(matches!(state.key(press(Key::Other)), InputStep::Continue));
    state.key(press(Key::Enter));
    match state.key(press(Key::Enter)) {
        InputStep::Submit(s) => assert_eq!(s, "a"),
        other => panic!("unexpected {:?}", other),
    }
}

#[test]
fn blank_input_submits_empty() {
    let mut state = InputState::new();
    state.key(press(Key::Enter));
    match state.key(press(Key::Enter)) {
        InputStep::Submit(s) => assert_eq!(s, ""),
        other => panic!("unexpected {:?}", other),
    }
}
