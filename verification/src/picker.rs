//! Choosing a saved session to resume: moving through the list, choosing
//! one or starting anew, and the line shown for each session.

use vstd::prelude::*;
use crate::text::{chars_of, decimal, push_decimal, push_range, push_spaces, push_str, spaces, string_from_chars};

verus! {

/// A key as the picker sees it.
#[derive(Debug, Clone, Copy, PartialEq, Eq, Structural)]
pub enum PickerKey {
    Up,
    Down,
    Enter,
    Escape,
    Other,
}

/// What the picker does after a key.
#[derive(Debug, Clone, Copy, PartialEq, Eq, Structural)]
pub enum PickerStep {
    /// Keep showing the list.
    Stay,
    /// Resume the session at this position of the list.
    Choose(usize),
    /// Start a new session.
    StartNew,
}

/// The position highlighted in a list of `count` sessions.
pub struct SessionPicker {
    selected: usize,
    count: usize,
}

/// After `key`, with `selected` highlighted among `count` sessions: what the
/// picker does and what is highlighted then. Up and Down move by one and stop
/// at the ends; Enter chooses the highlighted session (a new session when
/// the list is empty); Escape starts a new session; other keys do nothing.
pub open spec fn picker_step(selected: nat, count: nat, key: PickerKey) -> (PickerStep, nat) {
    match key {
        PickerKey::Up => (PickerStep::Stay, if selected > 0 {
            (selected - 1) as nat
        } else {
            selected
        }),
        PickerKey::Down => (PickerStep::Stay, if selected + 1 < count {
            selected + 1
        } else {
            selected
        }),
        PickerKey::Enter => if count > 0 {
            (PickerStep::Choose(selected as usize), selected)
        } else {
            (PickerStep::StartNew, selected)
        },
        PickerKey::Escape => (PickerStep::StartNew, selected),
        PickerKey::Other => (PickerStep::Stay, selected),
    }
}

impl SessionPicker {
    /// The highlighted position.
    pub closed spec fn selected(&self) -> nat {
        self.selected as nat
    }

    /// How many sessions are listed.
    pub closed spec fn count(&self) -> nat {
        self.count as nat
    }

    /// The highlighted position lies in the list, when the list is not empty.
    pub open spec fn wf(&self) -> bool {
        self.count() == 0 || self.selected() < self.count()
    }

    /// A picker over `count` sessions with the first highlighted.
    pub fn new(count: usize) -> (r: SessionPicker)
        ensures
            r.selected() == 0,
            r.count() == count,
            r.wf(),
    {
        SessionPicker { selected: 0, count }
    }

    /// The highlighted position.
    pub fn selected_index(&self) -> (r: usize)
        ensures
            r == self.selected(),
    {
        self.selected
    }

    /// Takes in one key.
    pub fn key(&mut self, key: PickerKey) -> (r: PickerStep)
        requires
            old(self).wf(),
        ensures
            final(self).wf(),
            final(self).count() == old(self).count(),
            (r, final(self).selected()) == picker_step(old(self).selected(), old(self).count(), key),
    {
        match key {
            PickerKey::Up => {
                if self.selected > 0 {
                    self.selected = self.selected - 1;
                }
                PickerStep::Stay
            },
            PickerKey::Down => {
                if self.count > 0 && self.selected < self.count - 1 {
                    self.selected = self.selected + 1;
                }
                PickerStep::Stay
            },
            PickerKey::Enter => {
                if self.count > 0 {
                    PickerStep::Choose(self.selected)
                } else {
                    PickerStep::StartNew
                }
            },
            PickerKey::Escape => PickerStep::StartNew,
            PickerKey::Other => PickerStep::Stay,
        }
    }
}

/// Characters of a title shown.
pub const TITLE_WIDTH: usize = 40;

/// `s` left-aligned in a field of `width` characters.
pub open spec fn pad_right(s: Seq<char>, width: nat) -> Seq<char> {
    if s.len() < width {
        s + spaces((width - s.len()) as nat)
    } else {
        s
    }
}

/// The line for a session: a `>` before the highlighted one, its title cut
/// to `TITLE_WIDTH` characters and padded to that width, when it was last
/// changed, and its number of messages ("1 message", "2 messages").
pub open spec fn picker_line_text(title: Seq<char>, when: Seq<char>, messages: nat, highlighted: bool) -> Seq<char> {
    (if highlighted {
        "  > "@
    } else {
        "    "@
    }) + pad_right(
        if title.len() > TITLE_WIDTH {
            title.take(TITLE_WIDTH as int)
        } else {
            title
        },
        TITLE_WIDTH as nat,
    ) + "  "@ + when + " \u{b7} "@ + decimal(messages) + (if messages == 1 {
        " message"@
    } else {
        " messages"@
    })
}

/// The line shown for a session in the picker.
pub fn picker_line(title: &str, when: &str, messages: usize, highlighted: bool) -> (r: String)
    ensures
        r@ == picker_line_text(title@, when@, messages as nat, highlighted),
{
    let t = chars_of(title);
    let mut out: Vec<char> = Vec::new();
    if highlighted {
        push_str(&mut out, "  > ");
    } else {
        push_str(&mut out, "    ");
    }
    let ghost head = out@;
    let shown = if t.len() > TITLE_WIDTH {
        TITLE_WIDTH
    } else {
        t.len()
    };
    push_range(&mut out, &t, 0, shown);
    if shown < TITLE_WIDTH {
        push_spaces(&mut out, TITLE_WIDTH - shown);
    }
    proof {
        let cut = if title@.len() > TITLE_WIDTH {
            title@.take(TITLE_WIDTH as int)
        } else {
            title@
        };
        assert(t@.subrange(0, shown as int) =~= cut);
        assert(out@ =~= head + pad_right(cut, TITLE_WIDTH as nat));
    }
    push_str(&mut out, "  ");
    push_str(&mut out, when);
    push_str(&mut out, " \u{b7} ");
    push_decimal(&mut out, messages as u128);
    if messages == 1 {
        push_str(&mut out, " message");
    } else {
        push_str(&mut out, " messages");
    }
    string_from_chars(&out)
}

} // verus!
