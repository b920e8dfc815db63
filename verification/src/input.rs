//! Reading a multi-line message from key presses: Enter twice sends it,
//! Ctrl+C leaves.

use vstd::prelude::*;
use crate::text::{chars_of, trim, trim_chars, string_from_chars};

verus! {

/// The key of a key press, as far as input reading tells keys apart.
#[derive(Debug, Clone, Copy, PartialEq, Eq)]
pub enum Key {
    Char(char),
    Enter,
    Backspace,
    Other,
}

/// A key press; `control` holds when Control is the only modifier held.
#[derive(Debug, Clone, Copy, PartialEq, Eq)]
pub struct KeyPress {
    pub key: Key,
    pub control: bool,
}

/// What the reader does after a key press.
#[derive(Debug)]
pub enum InputStep {
    /// Nothing to show; keep reading.
    Continue,
    /// Write this to the terminal, then keep reading.
    Echo(String),
    /// The user left; no message.
    Exit,
    /// The user sent this message (already trimmed).
    Submit(String),
}

/// `InputStep` with texts as character sequences.
pub enum InputOutcome {
    Continue,
    Echo(Seq<char>),
    Exit,
    Submit(Seq<char>),
}

impl InputStep {
    pub open spec fn outcome(self) -> InputOutcome {
        match self {
            InputStep::Continue => InputOutcome::Continue,
            InputStep::Echo(s) => InputOutcome::Echo(s@),
            InputStep::Exit => InputOutcome::Exit,
            InputStep::Submit(s) => InputOutcome::Submit(s@),
        }
    }
}

/// The message typed so far and the number of Enter presses since the last
/// character.
pub struct InputState {
    input: Vec<char>,
    consecutive_newlines: usize,
}

/// What is written for the first Enter: a new line with a continuation prompt.
pub open spec fn newline_echo() -> Seq<char> {
    "\r\n\x1b[1;34m. \x1b[0m"@
}

/// What is written when a backspace removes a line break: the cursor goes
/// up to the end of the previous line.
pub open spec fn join_line_echo() -> Seq<char> {
    "\x1b[A\x1b[999C"@
}

/// What is written when a backspace removes a character.
pub open spec fn erase_echo() -> Seq<char> {
    "\x1b[D \x1b[D"@
}

/// The reader's answer to `key` in state (`input`, `newlines`), with the text
/// and count after it. Enter ends the message when it follows another Enter;
/// a character or a backspace over a line break resets the count.
pub open spec fn key_outcome(input: Seq<char>, newlines: nat, key: KeyPress) -> (
    InputOutcome,
    Seq<char>,
    nat,
) {
    match key.key {
        Key::Char(c) => if key.control && c == 'c' {
            (InputOutcome::Exit, input, newlines)
        } else if key.control && c == 'd' && input.len() == 0 {
            (InputOutcome::Exit, input, newlines)
        } else {
            (InputOutcome::Echo(seq![c]), input.push(c), 0)
        },
        Key::Enter => if newlines + 1 >= 2 {
            (InputOutcome::Submit(trim(input)), input, newlines + 1)
        } else {
            (InputOutcome::Echo(newline_echo()), input.push('\n'), newlines + 1)
        },
        Key::Backspace => if input.len() > 0 && input.last() == '\n' {
            (InputOutcome::Echo(join_line_echo()), input.drop_last(), 0)
        } else if input.len() > 0 {
            (InputOutcome::Echo(erase_echo()), input.drop_last(), newlines)
        } else {
            (InputOutcome::Continue, input, newlines)
        },
        Key::Other => (InputOutcome::Continue, input, newlines),
    }
}

fn text_string(s: &str) -> (r: String)
    ensures
        r@ == s@,
{
    s.to_owned()
}

impl InputState {
    /// The message typed so far.
    pub closed spec fn text(&self) -> Seq<char> {
        self.input@
    }

    /// Enter presses since the last character.
    pub closed spec fn newlines(&self) -> nat {
        self.consecutive_newlines as nat
    }

    /// Nothing typed yet.
    pub fn new() -> (r: InputState)
        ensures
            r.text().len() == 0,
            r.newlines() == 0,
    {
        InputState { input: Vec::new(), consecutive_newlines: 0 }
    }

    /// Takes in one key press. Once it answered `Exit` or `Submit`, reading is
    /// over.
    pub fn key(&mut self, key: KeyPress) -> (r: InputStep)
        requires
            old(self).newlines() < 2,
        ensures
            (r.outcome(), final(self).text(), final(self).newlines()) == key_outcome(
                old(self).text(),
                old(self).newlines(),
                key,
            ),
    {
        proof {
            reveal_strlit("\r\n\x1b[1;34m. \x1b[0m");
            reveal_strlit("\x1b[A\x1b[999C");
            reveal_strlit("\x1b[D \x1b[D");
        }
        match key.key {
            Key::Char(c) => {
                if key.control && c == 'c' {
                    InputStep::Exit
                } else if key.control && c == 'd' && self.input.len() == 0 {
                    InputStep::Exit
                } else {
                    self.consecutive_newlines = 0;
                    self.input.push(c);
                    let mut v: Vec<char> = Vec::new();
                    v.push(c);
                    InputStep::Echo(string_from_chars(&v))
                }
            },
            Key::Enter => {
                self.consecutive_newlines = self.consecutive_newlines + 1;
                if self.consecutive_newlines >= 2 {
                    let t = trim_chars(&self.input);
                    InputStep::Submit(string_from_chars(&t))
                } else {
                    self.input.push('\n');
                    InputStep::Echo(text_string("\r\n\x1b[1;34m. \x1b[0m"))
                }
            },
            Key::Backspace => {
                let n = self.input.len();
                if n > 0 && self.input[n - 1] == '\n' {
                    self.input.pop();
                    self.consecutive_newlines = 0;
                    InputStep::Echo(text_string("\x1b[A\x1b[999C"))
                } else if n > 0 {
                    self.input.pop();
                    InputStep::Echo(text_string("\x1b[D \x1b[D"))
                } else {
                    InputStep::Continue
                }
            },
            Key::Other => InputStep::Continue,
        }
    }
}

/// Enter twice in a row sends the message typed so far, trimmed; one Enter
/// after a character only starts a new line.
pub proof fn law_enter_twice_sends(input: Seq<char>, c: char)
    ensures
        ({
            let (o1, t1, n1) = key_outcome(input, 0, KeyPress { key: Key::Char(c), control: false });
            let (o2, t2, n2) = key_outcome(t1, n1, KeyPress { key: Key::Enter, control: false });
            let (o3, t3, n3) = key_outcome(t2, n2, KeyPress { key: Key::Enter, control: false });
            &&& o2 == InputOutcome::Echo(newline_echo())
            &&& o3 == InputOutcome::Submit(trim(input.push(c).push('\n')))
        }),
{
}

/// Ctrl+C leaves whatever was typed.
pub proof fn law_ctrl_c_exits(input: Seq<char>, newlines: nat)
    ensures
        key_outcome(input, newlines, KeyPress { key: Key::Char('c'), control: true }).0
            == InputOutcome::Exit,
{
}

/// A backspace right after typing a character takes it back.
pub proof fn law_backspace_undoes_char(input: Seq<char>, newlines: nat, c: char)
    requires
        c != '\n',
    ensures
        ({
            let (o1, t1, n1) = key_outcome(
                input,
                newlines,
                KeyPress { key: Key::Char(c), control: false },
            );
            let (o2, t2, n2) = key_outcome(t1, n1, KeyPress { key: Key::Backspace, control: false });
            t2 == input
        }),
{
    assert(input.push(c).drop_last() =~= input);
}

/// Removing a line break with a backspace starts the Enter count over: the
/// line break and the count go, and the next Enter only starts a new line
/// again, whatever the count was.
pub proof fn law_backspace_over_line_break_resets_enter(input: Seq<char>, newlines: nat)
    ensures
        ({
            let (o1, t1, n1) = key_outcome(
                input.push('\n'),
                newlines,
                KeyPress { key: Key::Backspace, control: false },
            );
            let (o2, t2, n2) = key_outcome(t1, n1, KeyPress { key: Key::Enter, control: false });
            &&& t1 == input
            &&& n1 == 0
            &&& o2 == InputOutcome::Echo(newline_echo())
            &&& t2 == input.push('\n')
        }),
{
    assert(input.push('\n').drop_last() =~= input);
}

/// An Enter taken back by a backspace does not count: typing a character,
/// Enter, Backspace and Enter again starts a new line instead of sending.
pub proof fn law_enter_undone_does_not_send(input: Seq<char>, c: char)
    requires
        c != '\n',
    ensures
        ({
            let (o1, t1, n1) = key_outcome(input, 0, KeyPress { key: Key::Char(c), control: false });
            let (o2, t2, n2) = key_outcome(t1, n1, KeyPress { key: Key::Enter, control: false });
            let (o3, t3, n3) = key_outcome(t2, n2, KeyPress { key: Key::Backspace, control: false });
            let (o4, t4, n4) = key_outcome(t3, n3, KeyPress { key: Key::Enter, control: false });
            &&& t3 == input.push(c)
            &&& o4 == InputOutcome::Echo(newline_echo())
            &&& t4 == input.push(c).push('\n')
        }),
{
    assert(input.push(c).push('\n').drop_last() =~= input.push(c));
}

} // verus!
