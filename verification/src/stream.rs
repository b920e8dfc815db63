//! Server-sent events: cutting the received text into messages, and finding
//! the data a message carries.

use vstd::prelude::*;
use crate::types::SseEvent;
use crate::text::{lemma_find_from_bounds, lemma_find_from_result, chars_of, find, find_from, contains, occurs_at, find_chars_from, push_range, string_from_chars, starts_with_chars, chars_eq};

verus! {

/// Text received but not yet cut into messages.
pub struct SseBuffer {
    buffer: Vec<char>,
}

/// The blank line that ends a message.
pub open spec fn message_end() -> Seq<char> {
    seq!['\n', '\n']
}

/// The complete messages in received text, in order: the text is cut at
/// each first blank line in turn.
pub open spec fn messages_in(p: Seq<char>) -> Seq<Seq<char>>
    decreases p.len(),
{
    match find(p, message_end()) {
        Some(i) => if 0 <= i && i + 2 <= p.len() {
            seq![p.take(i)] + messages_in(p.skip(i + 2))
        } else {
            Seq::empty()
        },
        None => Seq::empty(),
    }
}

/// What is left of received text once its complete messages are cut off.
pub open spec fn rest_after_messages(p: Seq<char>) -> Seq<char>
    decreases p.len(),
{
    match find(p, message_end()) {
        Some(i) => if 0 <= i && i + 2 <= p.len() {
            rest_after_messages(p.skip(i + 2))
        } else {
            p
        },
        None => p,
    }
}

proof fn lemma_find_from_extended(p: Seq<char>, c: Seq<char>, sep: Seq<char>, from: int)
    requires
        0 <= from,
        find_from(p, sep, from) is Some,
    ensures
        find_from(p + c, sep, from) == find_from(p, sep, from),
    decreases p.len() + 1 - from,
{
    lemma_find_from_bounds(p, sep, from);
    if occurs_at(p, sep, from) {
        assert((p + c).subrange(from, from + sep.len()) =~= p.subrange(from, from + sep.len()));
    } else {
        assert(!occurs_at(p + c, sep, from)) by {
            if from + sep.len() <= p.len() {
                assert((p + c).subrange(from, from + sep.len()) =~= p.subrange(
                    from,
                    from + sep.len(),
                ));
            }
        }
        lemma_find_from_extended(p, c, sep, from + 1);
    }
}

proof fn lemma_messages_of_extended(p: Seq<char>, c: Seq<char>)
    ensures
        messages_in(p + c) == messages_in(p) + messages_in(rest_after_messages(p) + c),
        rest_after_messages(p + c) == rest_after_messages(rest_after_messages(p) + c),
    decreases p.len(),
{
    lemma_find_from_bounds(p, message_end(), 0);
    match find(p, message_end()) {
        Some(i) => {
            lemma_find_from_extended(p, c, message_end(), 0);
            lemma_find_from_bounds(p + c, message_end(), 0);
            assert((p + c).take(i) =~= p.take(i));
            assert((p + c).skip(i + 2) =~= p.skip(i + 2) + c);
            lemma_messages_of_extended(p.skip(i + 2), c);
            assert(seq![p.take(i)] + (messages_in(p.skip(i + 2)) + messages_in(
                rest_after_messages(p.skip(i + 2)) + c,
            )) =~= seq![p.take(i)] + messages_in(p.skip(i + 2)) + messages_in(
                rest_after_messages(p.skip(i + 2)) + c,
            ));
        },
        None => {
            assert(Seq::<Seq<char>>::empty() + messages_in(p + c) =~= messages_in(p + c));
        },
    }
}

/// Messages do not depend on how the stream is cut into chunks: cutting the
/// messages off after each chunk, and cutting them from the whole text at
/// once, give the same messages in the same order and leave the same text.
pub proof fn law_messages_independent_of_chunks(chunks: Seq<Seq<char>>)
    ensures
        chunk_messages(Seq::empty(), chunks).0 == messages_in(joined(chunks)),
        chunk_messages(Seq::empty(), chunks).1 == rest_after_messages(joined(chunks)),
    decreases chunks.len(),
{
    if chunks.len() == 0 {
        lemma_find_from_bounds(Seq::<char>::empty(), message_end(), 0);
    } else {
        law_messages_independent_of_chunks(chunks.drop_last());
        lemma_messages_of_extended(joined(chunks.drop_last()), chunks.last());
    }
}

/// The chunks' text, one after another.
pub open spec fn joined(chunks: Seq<Seq<char>>) -> Seq<char>
    decreases chunks.len(),
{
    if chunks.len() == 0 {
        Seq::empty()
    } else {
        joined(chunks.drop_last()) + chunks.last()
    }
}

/// The messages taken out, and the text left, when a buffer holding
/// `pending` receives `chunks` one by one and gives up its complete messages
/// after each.
pub open spec fn chunk_messages(pending: Seq<char>, chunks: Seq<Seq<char>>) -> (
    Seq<Seq<char>>,
    Seq<char>,
)
    decreases chunks.len(),
{
    if chunks.len() == 0 {
        (Seq::empty(), pending)
    } else {
        let (before, left) = chunk_messages(pending, chunks.drop_last());
        let text = left + chunks.last();
        (before + messages_in(text), rest_after_messages(text))
    }
}

impl SseBuffer {
    /// The text waiting to be cut into messages.
    pub closed spec fn pending(&self) -> Seq<char> {
        self.buffer@
    }

    /// An empty buffer.
    pub fn new() -> (r: SseBuffer)
        ensures
            r.pending().len() == 0,
    {
        SseBuffer { buffer: Vec::new() }
    }

    /// Appends received text.
    pub fn push_text(&mut self, text: &str)
        ensures
            final(self).pending() == old(self).pending() + text@,
    {
        crate::text::push_str(&mut self.buffer, text);
    }

    /// Cuts off the first complete message: the text before the first blank
    /// line. The message and the blank line leave the buffer, nothing else
    /// does, and the message holds no blank line itself. Without a complete
    /// message the buffer is left as it is.
    pub fn next_message(&mut self) -> (r: Option<String>)
        ensures
            match find(old(self).pending(), message_end()) {
                Some(i) => r matches Some(m) && m@ == old(self).pending().take(i)
                    && final(self).pending() == old(self).pending().skip(i + 2),
                None => r is None && final(self).pending() == old(self).pending(),
            },
            r matches Some(m) ==> old(self).pending() == m@ + message_end() + final(self).pending()
                && !contains(m@, message_end()),
            r is None ==> !contains(old(self).pending(), message_end()),
    {
        let mut sep: Vec<char> = Vec::new();
        sep.push('\n');
        sep.push('\n');
        assert(sep@ =~= message_end());
        proof {
            lemma_find_from_result(self.buffer@, message_end(), 0);
        }
        match find_chars_from(&self.buffer, &sep, 0) {
            Some(i) => {
                let ghost old_buf = self.buffer@;
                let mut msg: Vec<char> = Vec::new();
                push_range(&mut msg, &self.buffer, 0, i);
                let mut rest: Vec<char> = Vec::new();
                let n = self.buffer.len();
                push_range(&mut rest, &self.buffer, i + 2, n);
                self.buffer = rest;
                proof {
                    assert(msg@ =~= old_buf.take(i as int));
                    assert(self.buffer@ =~= old_buf.skip(i + 2));
                    assert(old_buf.subrange(i as int, i + 2) == message_end());
                    assert(old_buf =~= msg@ + message_end() + self.buffer@);
                    assert forall|k: int| !occurs_at(msg@, message_end(), k) by {
                        if occurs_at(msg@, message_end(), k) {
                            assert(old_buf.subrange(k, k + 2) =~= msg@.subrange(k, k + 2));
                            assert(occurs_at(old_buf, message_end(), k));
                        }
                    }
                }
                Some(string_from_chars(&msg))
            },
            None => None,
        }
    }

    /// Cuts off every complete message, in order, and keeps the rest.
    pub fn take_messages(&mut self) -> (r: Vec<String>)
        ensures
            r@.map_values(|m: String| m@) == messages_in(old(self).pending()),
            final(self).pending() == rest_after_messages(old(self).pending()),
    {
        let ghost orig = self.pending();
        let mut out: Vec<String> = Vec::new();
        loop
            invariant
                orig == old(self).pending(),
                out@.map_values(|m: String| m@) + messages_in(self.pending()) == messages_in(orig),
                rest_after_messages(self.pending()) == rest_after_messages(orig),
            decreases self.pending().len(),
        {
            let ghost before = self.pending();
            proof {
                lemma_find_from_bounds(before, message_end(), 0);
            }
            match self.next_message() {
                Some(m) => {
                    let ghost done = out@.map_values(|x: String| x@);
                    out.push(m);
                    proof {
                        let i = find(before, message_end())->0;
                        assert(out@.map_values(|x: String| x@) =~= done.push(m@));
                        assert(done.push(m@) + messages_in(self.pending()) =~= done + (seq![m@]
                            + messages_in(self.pending())));
                    }
                },
                None => {
                    assert(find(before, message_end()) is None);
                    assert(messages_in(before) =~= Seq::<Seq<char>>::empty());
                    assert(rest_after_messages(before) == before);
                    assert(out@.map_values(|x: String| x@) + Seq::<Seq<char>>::empty()
                        =~= out@.map_values(|x: String| x@));
                    return out;
                },
            }
        }
    }
}

// ---------------------------------------------------------------------------
// The data of a message
// ---------------------------------------------------------------------------

/// What a message's data says.
#[derive(Debug, PartialEq, Eq)]
pub enum SseData {
    /// `[DONE]`: the stream is over.
    Done,
    /// JSON text describing an event.
    Json(String),
}

/// A line without its ending: the newline, and a carriage return before it.
pub open spec fn strip_cr(l: Seq<char>) -> Seq<char> {
    if l.len() > 0 && l.last() == '\r' {
        l.drop_last()
    } else {
        l
    }
}

/// The lines of `s` from index `pos` on, as `str::lines` yields them: split
/// after each newline, without the newline and a carriage return before it; a
/// last piece without newline is kept as it is, and there is no empty last
/// line.
pub open spec fn lines_from(s: Seq<char>, pos: int) -> Seq<Seq<char>>
    decreases s.len() - pos,
{
    if pos < 0 || pos >= s.len() {
        Seq::empty()
    } else {
        match find_from(s, seq!['\n'], pos) {
            Some(j) => if pos <= j && j < s.len() {
                seq![strip_cr(s.subrange(pos, j))] + lines_from(s, j + 1)
            } else {
                Seq::empty()
            },
            None => seq![s.skip(pos)],
        }
    }
}

/// The lines of `s` (as `str::lines`).
pub open spec fn lines(s: Seq<char>) -> Seq<Seq<char>> {
    lines_from(s, 0)
}

/// The prefix that marks a data line.
pub open spec fn data_prefix() -> Seq<char> {
    seq!['d', 'a', 't', 'a', ':', ' ']
}

/// The text after `data: ` on the last line that starts with it.
pub open spec fn last_data(ls: Seq<Seq<char>>) -> Option<Seq<char>>
    decreases ls.len(),
{
    if ls.len() == 0 {
        None
    } else if ls.last().len() >= 6 && ls.last().take(6) == data_prefix() {
        Some(ls.last().skip(6))
    } else {
        last_data(ls.drop_last())
    }
}

/// The marker of the end of the stream.
pub open spec fn done_marker() -> Seq<char> {
    seq!['[', 'D', 'O', 'N', 'E', ']']
}

fn strip_cr_range(s: &Vec<char>, lo: usize, hi: usize) -> (r: Vec<char>)
    requires
        lo <= hi <= s.len(),
    ensures
        r@ == strip_cr(s@.subrange(lo as int, hi as int)),
{
    let mut end = hi;
    if hi > lo && s[hi - 1] == '\r' {
        end = hi - 1;
    }
    let mut r: Vec<char> = Vec::new();
    push_range(&mut r, s, lo, end);
    assert(r@ =~= strip_cr(s@.subrange(lo as int, hi as int)));
    r
}

fn data_of_line(line: &Vec<char>, prefix: &Vec<char>) -> (r: Option<Vec<char>>)
    requires
        prefix@ == data_prefix(),
    ensures
        (line@.len() >= 6 && line@.take(6) == data_prefix()) ==> (r matches Some(d) && d@
            == line@.skip(6)),
        !(line@.len() >= 6 && line@.take(6) == data_prefix()) ==> r is None,
{
    if starts_with_chars(line, prefix) {
        assert(line@.subrange(0, 6) == line@.take(6));
        let mut d: Vec<char> = Vec::new();
        let n = line.len();
        push_range(&mut d, line, 6, n);
        assert(d@ =~= line@.skip(6));
        Some(d)
    } else {
        proof {
            if line@.len() >= 6 && line@.take(6) == data_prefix() {
                assert(line@.subrange(0, 6) == line@.take(6));
            }
        }
        None
    }
}

/// The data of one message: `None` when no line starts with `data: `;
/// otherwise the text after that prefix on the last such line, which is
/// either the end-of-stream marker `[DONE]` or JSON text for the caller to
/// decode.
pub fn parse_sse_data(message: &str) -> (r: Option<SseData>)
    ensures
        match last_data(lines(message@)) {
            None => r is None,
            Some(d) => if d == done_marker() {
                r == Some(SseData::Done)
            } else {
                r matches Some(SseData::Json(j)) && j@ == d
            },
        },
{
    let s = chars_of(message);
    let mut prefix: Vec<char> = Vec::new();
    crate::text::push_str(&mut prefix, "data: ");
    proof {
        reveal_strlit("data: ");
    }
    assert(prefix@ =~= data_prefix());
    let mut nl: Vec<char> = Vec::new();
    nl.push('\n');
    let mut data: Option<Vec<char>> = None;
    let ghost mut seen: Seq<Seq<char>> = Seq::empty();
    let mut pos: usize = 0;
    while pos < s.len()
        invariant
            pos <= s.len(),
            prefix@ == data_prefix(),
            nl@ == seq!['\n'],
            lines(s@) == seen + lines_from(s@, pos as int),
            match last_data(seen) {
                None => data is None,
                Some(d) => data matches Some(v) && v@ == d,
            },
        decreases s.len() - pos,
    {
        proof {
            lemma_find_from_bounds(s@, seq!['\n'], pos as int);
        }
        let ghost old_pos = pos;
        let line: Vec<char>;
        match find_chars_from(&s, &nl, pos) {
            Some(j) => {
                line = strip_cr_range(&s, pos, j);
                pos = j + 1;
            },
            None => {
                let n = s.len();
                let mut whole: Vec<char> = Vec::new();
                push_range(&mut whole, &s, pos, n);
                line = whole;
                assert(line@ =~= s@.skip(old_pos as int));
                pos = n;
            },
        }
        proof {
            assert(lines_from(s@, old_pos as int) == seq![line@] + lines_from(s@, pos as int));
            assert(seen.push(line@) + lines_from(s@, pos as int) =~= seen + lines_from(
                s@,
                old_pos as int,
            ));
            assert(seen.push(line@).drop_last() =~= seen);
            seen = seen.push(line@);
        }
        match data_of_line(&line, &prefix) {
            Some(d) => {
                data = Some(d);
            },
            None => {},
        }
    }
    proof {
        assert(lines_from(s@, pos as int) =~= Seq::<Seq<char>>::empty());
        assert(seen + Seq::<Seq<char>>::empty() =~= seen);
    }
    match data {
        None => None,
        Some(d) => {
            let mut done: Vec<char> = Vec::new();
            crate::text::push_str(&mut done, "[DONE]");
            proof {
                reveal_strlit("[DONE]");
            }
            assert(done@ =~= done_marker());
            if chars_eq(&d, &done) {
                Some(SseData::Done)
            } else {
                Some(SseData::Json(string_from_chars(&d)))
            }
        },
    }
}

// ---------------------------------------------------------------------------
// Forwarding the stream
// ---------------------------------------------------------------------------

/// What happened while reading the stream.
#[derive(Debug)]
pub enum StreamInput {
    /// A message was read: nothing in it (`None`), its event, or the error
    /// met decoding it.
    Message(Option<Result<SseEvent, String>>),
    /// Reading the response failed with this message.
    ReadFailed(String),
    /// The response ended.
    Ended,
}

/// What to hand on to the reader of the events.
#[derive(Debug)]
pub enum StreamOutput {
    /// Nothing.
    Nothing,
    /// This event.
    Event(SseEvent),
    /// This error.
    Error(String),
}

/// `out` is what is handed on after `input`, and `stop` says whether reading
/// ends there: a message's event is handed on and reading goes on; the first
/// error, of decoding or of reading (as `Stream error: ` and its message), is
/// handed on and ends the reading; the end of the response hands on `Done`.
pub open spec fn forwarded(input: StreamInput, out: StreamOutput, stop: bool) -> bool {
    match input {
        StreamInput::Message(None) => out is Nothing && !stop,
        StreamInput::Message(Some(Ok(e))) => out == StreamOutput::Event(e) && !stop,
        StreamInput::Message(Some(Err(m))) => out == StreamOutput::Error(m) && stop,
        StreamInput::ReadFailed(m) => (out matches StreamOutput::Error(t) && t@ == "Stream error: "@
            + m@) && stop,
        StreamInput::Ended => (out matches StreamOutput::Event(e) && e is Done) && stop,
    }
}

/// What to hand on after `input`, and whether reading stops there.
pub fn forward_step(input: StreamInput) -> (r: (StreamOutput, bool))
    ensures
        forwarded(input, r.0, r.1),
{
    match input {
        StreamInput::Message(None) => (StreamOutput::Nothing, false),
        StreamInput::Message(Some(Ok(e))) => (StreamOutput::Event(e), false),
        StreamInput::Message(Some(Err(m))) => (StreamOutput::Error(m), true),
        StreamInput::ReadFailed(m) => {
            let mut out: Vec<char> = Vec::new();
            crate::text::push_str(&mut out, "Stream error: ");
            crate::text::push_str(&mut out, m.as_str());
            (StreamOutput::Error(string_from_chars(&out)), true)
        },
        StreamInput::Ended => (StreamOutput::Event(SseEvent::Done), true),
    }
}

} // verus!
