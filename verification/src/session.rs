//! Saved sessions: what a session file's lines amount to, how sessions are
//! titled and ordered, and how their age is shown.

use vstd::prelude::*;
use std::path::PathBuf;
use std::time::{SystemTime, UNIX_EPOCH};
use crate::text::{decimal, push_decimal, push_str, string_from_chars, chars_of, replace_char, replace_char_str, str_eq, trim, trim_str, views};
use crate::types::{ContentBlock, Message};

verus! {

/// `std::path::PathBuf`, carried opaquely.
#[verifier::external_type_specification]
#[verifier::external_body]
pub struct ExPathBuf(PathBuf);

// ---------------------------------------------------------------------------
// Relative times
// ---------------------------------------------------------------------------

/// `count` of `unit` (made plural unless it is one) followed by ` ago`.
pub open spec fn ago(count: nat, unit: Seq<char>) -> Seq<char> {
    decimal(count) + seq![' '] + unit + (if count == 1 {
        Seq::empty()
    } else {
        seq!['s']
    }) + " ago"@
}

/// How long ago something happened, given the seconds since: under a minute
/// is "just now", then whole minutes, hours and days.
pub open spec fn elapsed_text(secs: nat) -> Seq<char> {
    if secs < 60 {
        "just now"@
    } else if secs < 3600 {
        ago(secs / 60, "min"@)
    } else if secs < 86400 {
        ago(secs / 3600, "hour"@)
    } else {
        ago(secs / 86400, "day"@)
    }
}

fn push_ago(out: &mut Vec<char>, count: u128, unit: &str)
    ensures
        final(out)@ == old(out)@ + ago(count as nat, unit@),
{
    let ghost start = out@;
    push_decimal(out, count);
    out.push(' ');
    push_str(out, unit);
    if count != 1 {
        out.push('s');
    }
    push_str(out, " ago");
    assert(out@ =~= start + ago(count as nat, unit@));
}

/// How long ago something happened, given the seconds since.
pub fn format_elapsed(secs: u128) -> (r: String)
    ensures
        r@ == elapsed_text(secs as nat),
{
    let mut out: Vec<char> = Vec::new();
    if secs < 60 {
        push_str(&mut out, "just now");
    } else if secs < 3600 {
        push_ago(&mut out, secs / 60, "min");
    } else if secs < 86400 {
        push_ago(&mut out, secs / 3600, "hour");
    } else {
        push_ago(&mut out, secs / 86400, "day");
    }
    string_from_chars(&out)
}

/// Whole seconds from `time` to `now`, both in nanoseconds since the Unix
/// epoch; zero when `time` is the later one.
pub open spec fn seconds_since(now: u128, time: u128) -> nat {
    if now >= time {
        ((now - time) / 1_000_000_000) as nat
    } else {
        0
    }
}

/// How long before `now` the moment `time` was, both in nanoseconds since
/// the Unix epoch.
pub fn relative_time_at(now: u128, time: u128) -> (r: String)
    ensures
        r@ == elapsed_text(seconds_since(now, time)),
{
    let secs = if now >= time {
        (now - time) / 1_000_000_000
    } else {
        0
    };
    format_elapsed(secs)
}

/// The clock's reading in nanoseconds since the Unix epoch (std
/// `SystemTime::now`, measured with `duration_since(UNIX_EPOCH)`), zero for a
/// clock set before the epoch. Nothing is promised of the reading.
#[verifier::external_body]
fn clock_nanos() -> u128 {
    SystemTime::now().duration_since(UNIX_EPOCH).map(|d| d.as_nanos()).unwrap_or(0)
}

/// How long ago `time` (nanoseconds since the Unix epoch) was, as the clock
/// reads now: the text for the whole seconds from `time` to the clock's
/// reading, whatever that reading is.
pub fn format_relative_time(time: u128) -> (r: String)
    ensures
        exists|now: u128| r@ == elapsed_text(seconds_since(now, time)),
{
    let now = clock_nanos();
    relative_time_at(now, time)
}

// ---------------------------------------------------------------------------
// Session files
// ---------------------------------------------------------------------------

/// What one line of a session file holds.
#[derive(Debug)]
pub enum SessionEntry {
    /// The session's metadata, naming its model.
    Meta { model: String },
    /// A message of the conversation.
    Message(Message),
    /// A blank or unreadable line, which is skipped.
    Skipped,
}

/// The model named by the last metadata line, or nothing.
pub open spec fn entries_model(e: Seq<SessionEntry>) -> Seq<char>
    decreases e.len(),
{
    if e.len() == 0 {
        Seq::empty()
    } else {
        match e.last() {
            SessionEntry::Meta { model } => model@,
            _ => entries_model(e.drop_last()),
        }
    }
}

/// The messages of the entries, in order.
pub open spec fn entries_messages(e: Seq<SessionEntry>) -> Seq<Message>
    decreases e.len(),
{
    if e.len() == 0 {
        Seq::empty()
    } else {
        match e.last() {
            SessionEntry::Message(m) => entries_messages(e.drop_last()).push(m),
            _ => entries_messages(e.drop_last()),
        }
    }
}

/// The error for a session without a model.
pub open spec fn missing_metadata_text() -> Seq<char> {
    "Session file missing metadata"@
}

/// Restores a session from its lines: the model of the last metadata line
/// and the messages in order. A session without a (non-empty) model is
/// refused.
pub fn load_session(entries: Vec<SessionEntry>) -> (r: Result<(String, Vec<Message>), String>)
    ensures
        entries_model(entries@).len() == 0 ==> (r matches Err(e) && e@ == missing_metadata_text()),
        entries_model(entries@).len() > 0 ==> (r matches Ok((model, messages)) && model@
            == entries_model(entries@) && messages@ == entries_messages(entries@)),
{
    let ghost orig = entries@;
    let mut rest = entries;
    let mut model = String::new();
    let mut messages: Vec<Message> = Vec::new();
    let mut done: usize = 0;
    assert(orig.len() == rest.len());
    while rest.len() > 0
        invariant
            done + rest@.len() == orig.len(),
            orig.len() <= usize::MAX,
            rest@ == orig.skip(done as int),
            model@ == entries_model(orig.take(done as int)),
            messages@ == entries_messages(orig.take(done as int)),
        decreases rest.len(),
    {
        let ghost before = rest@;
        let e = rest.remove(0);
        proof {
            assert(e == orig[done as int]);
            assert(orig.take(done + 1).drop_last() =~= orig.take(done as int));
            assert(orig.take(done + 1).last() == orig[done as int]);
            assert(rest@ =~= orig.skip(done + 1));
        }
        match e {
            SessionEntry::Meta { model: m } => {
                model = m;
            },
            SessionEntry::Message(msg) => {
                messages.push(msg);
            },
            SessionEntry::Skipped => {},
        }
        done = done + 1;
    }
    assert(orig.take(done as int) =~= orig);
    if model.as_str().is_empty() {
        return Err("Session file missing metadata".to_owned());
    }
    Ok((model, messages))
}

/// The lines a session writes: its metadata, then one line per message.
pub open spec fn written_entries(model: String, messages: Seq<Message>) -> Seq<SessionEntry> {
    seq![SessionEntry::Meta { model }] + messages.map_values(|m: Message| SessionEntry::Message(m))
}

proof fn lemma_entries_of_messages(head: Seq<SessionEntry>, messages: Seq<Message>)
    ensures
        entries_model(head + messages.map_values(|m: Message| SessionEntry::Message(m)))
            == entries_model(head),
        entries_messages(head + messages.map_values(|m: Message| SessionEntry::Message(m)))
            == entries_messages(head) + messages,
    decreases messages.len(),
{
    let tail = messages.map_values(|m: Message| SessionEntry::Message(m));
    if messages.len() == 0 {
        assert(head + tail =~= head);
        assert(entries_messages(head) + messages =~= entries_messages(head));
    } else {
        let shorter = messages.drop_last();
        lemma_entries_of_messages(head, shorter);
        let short_tail = shorter.map_values(|m: Message| SessionEntry::Message(m));
        assert((head + tail).drop_last() =~= head + short_tail);
        assert((head + tail).last() == SessionEntry::Message(messages.last()));
        assert(entries_messages(head) + messages =~= (entries_messages(head) + shorter).push(
            messages.last(),
        ));
    }
}

/// Resuming gives back what was saved: a session whose lines are its
/// metadata followed by its messages, including those appended after an
/// earlier resume, loads with that model and exactly those messages in order.
pub proof fn law_resume_restores_history(model: String, messages: Seq<Message>, more: Seq<Message>)
    ensures
        entries_model(written_entries(model, messages + more)) == model@,
        entries_messages(written_entries(model, messages + more)) == messages + more,
        written_entries(model, messages) + more.map_values(|m: Message| SessionEntry::Message(m))
            == written_entries(model, messages + more),
{
    let head = seq![SessionEntry::Meta { model }];
    lemma_entries_of_messages(head, messages + more);
    assert(entries_model(head) == model@) by {
        assert(head.drop_last() =~= Seq::<SessionEntry>::empty());
    }
    assert(entries_messages(head) =~= Seq::<Message>::empty()) by {
        assert(head.drop_last() =~= Seq::<SessionEntry>::empty());
        assert(entries_messages(Seq::<SessionEntry>::empty()) =~= Seq::<Message>::empty());
        assert(head.last() is Meta);
    }
    assert(Seq::<Message>::empty() + (messages + more) =~= messages + more);
    let f = |m: Message| SessionEntry::Message(m);
    assert(messages.map_values(f) + more.map_values(f) =~= (messages + more).map_values(f));
    assert(written_entries(model, messages) + more.map_values(f) =~= written_entries(
        model,
        messages + more,
    ));
}

/// The name of the directory holding a project's sessions: its working
/// directory with every `/` turned into `-`.
pub fn project_dir_name(cwd: &str) -> (r: String)
    ensures
        r@ == replace_char(cwd@, '/', '-'),
{
    replace_char_str(cwd, '/', '-')
}

/// Where a project's sessions live below the home directory: the base
/// directory, `projects`, then the project's directory name.
pub open spec fn session_dir_parts_of(cwd: Seq<char>) -> Seq<Seq<char>> {
    seq![".mini-code"@, "projects"@, replace_char(cwd, '/', '-')]
}

/// The path components, below the home directory, of the directory holding
/// the sessions of the project in `cwd`.
pub fn session_dir_parts(cwd: &str) -> (r: Vec<String>)
    ensures
        views(r@) == session_dir_parts_of(cwd@),
{
    let mut r: Vec<String> = Vec::new();
    r.push(".mini-code".to_owned());
    r.push("projects".to_owned());
    r.push(project_dir_name(cwd));
    assert(views(r@) =~= session_dir_parts_of(cwd@));
    r
}

/// A file with this extension holds a session: only `jsonl` does.
pub fn is_session_file(extension: Option<&str>) -> (r: bool)
    ensures
        r == (extension matches Some(e) && e@ == "jsonl"@),
{
    match extension {
        Some(e) => str_eq(e, "jsonl"),
        None => false,
    }
}

/// What a line of a session file holds: a blank line is skipped; otherwise
/// the entry the line was read as, or nothing when it could not be read.
pub fn line_entry(line: &str, parsed: Option<SessionEntry>) -> (r: SessionEntry)
    ensures
        trim(line@).len() == 0 ==> r is Skipped,
        trim(line@).len() > 0 ==> r == (match parsed {
            Some(e) => e,
            None => SessionEntry::Skipped,
        }),
{
    let t = trim_str(line);
    if t.as_str().is_empty() {
        SessionEntry::Skipped
    } else {
        match parsed {
            Some(e) => e,
            None => SessionEntry::Skipped,
        }
    }
}

// ---------------------------------------------------------------------------
// Listing sessions
// ---------------------------------------------------------------------------

/// A saved session as listed for resuming.
#[derive(Debug)]
pub struct SessionInfo {
    pub path: PathBuf,
    pub title: String,
    /// When the file was last modified, in nanoseconds since the Unix epoch.
    pub modified: u128,
    pub message_count: usize,
}

/// The text of the first text block of a message.
pub open spec fn first_text(c: Seq<ContentBlock>) -> Option<Seq<char>>
    decreases c.len(),
{
    if c.len() == 0 {
        None
    } else {
        match c[0] {
            ContentBlock::Text { text } => Some(text@),
            _ => first_text(c.drop_first()),
        }
    }
}

/// Most characters of a session's title.
pub const TITLE_CHARS: usize = 50;

/// The title found in the messages: the first 50 characters of the first
/// non-empty text that opens a message's text blocks.
pub open spec fn found_title(msgs: Seq<Message>) -> Seq<char>
    decreases msgs.len(),
{
    if msgs.len() == 0 {
        Seq::empty()
    } else {
        let t = found_title(msgs.drop_last());
        if t.len() > 0 {
            t
        } else {
            match first_text(msgs.last().content@) {
                Some(x) => if x.len() <= TITLE_CHARS {
                    x
                } else {
                    x.take(TITLE_CHARS as int)
                },
                None => Seq::empty(),
            }
        }
    }
}

/// A session's title: the title found in its messages, or
/// `(empty session)`.
pub open spec fn title_text(msgs: Seq<Message>) -> Seq<char> {
    if found_title(msgs).len() == 0 {
        "(empty session)"@
    } else {
        found_title(msgs)
    }
}

fn first_text_of(c: &Vec<ContentBlock>) -> (r: Option<&String>)
    ensures
        r is Some == first_text(c@) is Some,
        r matches Some(t) ==> t@ == first_text(c@)->0,
{
    let mut i: usize = 0;
    assert(c@.skip(0) =~= c@);
    while i < c.len()
        invariant
            i <= c.len(),
            first_text(c@) == first_text(c@.skip(i as int)),
        decreases c.len() - i,
    {
        assert(c@.skip(i as int).drop_first() =~= c@.skip(i + 1));
        if let ContentBlock::Text { text } = &c[i] {
            return Some(text);
        }
        i = i + 1;
    }
    None
}

/// The title of a session with these messages.
pub fn session_title(messages: &Vec<Message>) -> (r: String)
    ensures
        r@ == title_text(messages@),
{
    let mut title: Vec<char> = Vec::new();
    let mut i: usize = 0;
    while i < messages.len()
        invariant
            i <= messages.len(),
            title@ == found_title(messages@.take(i as int)),
        decreases messages.len() - i,
    {
        proof {
            assert(messages@.take(i + 1).drop_last() =~= messages@.take(i as int));
        }
        if title.len() == 0 {
            match first_text_of(&messages[i].content) {
                Some(text) => {
                    let t = chars_of(text.as_str());
                    let n = if t.len() <= TITLE_CHARS {
                        t.len()
                    } else {
                        TITLE_CHARS
                    };
                    crate::text::push_range(&mut title, &t, 0, n);
                    assert(title@ =~= (if t@.len() <= TITLE_CHARS {
                        t@
                    } else {
                        t@.take(TITLE_CHARS as int)
                    }));
                },
                None => {},
            }
        }
        i = i + 1;
    }
    assert(messages@.take(messages.len() as int) =~= messages@);
    if title.len() == 0 {
        return "(empty session)".to_owned();
    }
    string_from_chars(&title)
}

/// The listing entry for the session file at `path`, last modified at
/// `modified`, holding `messages`.
pub fn session_info(path: PathBuf, modified: u128, messages: &Vec<Message>) -> (r: SessionInfo)
    ensures
        r.path == path,
        r.modified == modified,
        r.title@ == title_text(messages@),
        r.message_count == messages@.len(),
{
    SessionInfo { path, title: session_title(messages), modified, message_count: messages.len() }
}

/// The position of the most recently modified session among the first `n`;
/// the first such when several were modified at the same time.
pub open spec fn newest_index(s: Seq<SessionInfo>, n: int) -> int
    decreases n,
{
    if n <= 1 {
        0
    } else {
        let m = newest_index(s, n - 1);
        if s[n - 1].modified > s[m].modified {
            n - 1
        } else {
            m
        }
    }
}

proof fn lemma_newest_index(s: Seq<SessionInfo>, n: int)
    requires
        1 <= n <= s.len(),
    ensures
        0 <= newest_index(s, n) < n,
        forall|j: int| 0 <= j < n ==> (#[trigger] s[j]).modified <= s[newest_index(s, n)].modified,
        forall|j: int|
            0 <= j < newest_index(s, n) ==> (#[trigger] s[j]).modified < s[newest_index(
                s,
                n,
            )].modified,
    decreases n,
{
    if n > 1 {
        lemma_newest_index(s, n - 1);
    }
}

/// The sessions newest first; sessions modified at the same time keep their
/// order (as a stable sort by modification time, descending).
pub open spec fn by_recency(s: Seq<SessionInfo>) -> Seq<SessionInfo>
    decreases s.len(),
{
    if s.len() == 0 {
        Seq::empty()
    } else {
        let m = newest_index(s, s.len() as int);
        if 0 <= m < s.len() {
            seq![s[m]] + by_recency(s.remove(m))
        } else {
            Seq::empty()
        }
    }
}

fn newest_position(s: &Vec<SessionInfo>) -> (m: usize)
    requires
        s.len() > 0,
    ensures
        m == newest_index(s@, s@.len() as int),
        m < s.len(),
{
    let mut m: usize = 0;
    let mut k: usize = 1;
    while k < s.len()
        invariant
            1 <= k <= s.len(),
            m < k,
            m == newest_index(s@, k as int),
        decreases s.len() - k,
    {
        if s[k].modified > s[m].modified {
            m = k;
        }
        k = k + 1;
    }
    m
}

/// Orders sessions newest first.
pub fn sort_sessions(sessions: Vec<SessionInfo>) -> (r: Vec<SessionInfo>)
    ensures
        r@ == by_recency(sessions@),
{
    let ghost orig = sessions@;
    let mut rest = sessions;
    let mut out: Vec<SessionInfo> = Vec::new();
    while rest.len() > 0
        invariant
            by_recency(orig) == out@ + by_recency(rest@),
        decreases rest.len(),
    {
        let m = newest_position(&rest);
        let ghost before = rest@;
        let x = rest.remove(m);
        proof {
            assert(by_recency(before) == seq![x] + by_recency(rest@));
        }
        let ghost out_before = out@;
        out.push(x);
        assert(out@ + by_recency(rest@) =~= out_before + (seq![x] + by_recency(rest@)));
    }
    assert(out@ + by_recency(rest@) =~= out@);
    out
}

/// The path of the most recently modified session, if there is any.
pub fn most_recent_session(sessions: Vec<SessionInfo>) -> (r: Option<PathBuf>)
    ensures
        sessions@.len() == 0 ==> r is None,
        sessions@.len() > 0 ==> r == Some(
            sessions@[newest_index(sessions@, sessions@.len() as int)].path,
        ),
{
    if sessions.len() == 0 {
        return None;
    }
    let mut sessions = sessions;
    let m = newest_position(&sessions);
    let s = sessions.remove(m);
    Some(s.path)
}

/// The most recent session is the first in the listing ordered newest first.
pub proof fn law_most_recent_is_first(s: Seq<SessionInfo>)
    requires
        s.len() > 0,
    ensures
        by_recency(s)[0] == s[newest_index(s, s.len() as int)],
{
    lemma_newest_index(s, s.len() as int);
}

proof fn lemma_by_recency(s: Seq<SessionInfo>)
    ensures
        by_recency(s).len() == s.len(),
        by_recency(s).to_multiset() == s.to_multiset(),
        forall|i: int, j: int|
            0 <= i < j < by_recency(s).len() ==> (#[trigger] by_recency(s)[i]).modified
                >= (#[trigger] by_recency(s)[j]).modified,
    decreases s.len(),
{
    if s.len() == 0 {
        assert(by_recency(s) =~= s);
    } else {
        let n = s.len() as int;
        lemma_newest_index(s, n);
        let m = newest_index(s, n);
        let x = s[m];
        let rest = s.remove(m);
        lemma_by_recency(rest);
        let r = by_recency(rest);
        let b = by_recency(s);
        assert(b == seq![x] + r);
        // Same elements: `x` and the rest.
        vstd::seq_lib::to_multiset_remove(s, m);
        vstd::seq_lib::to_multiset_remove(b, 0);
        assert(b.remove(0) =~= r);
        vstd::seq_lib::to_multiset_contains(s, x);
        vstd::seq_lib::to_multiset_contains(b, x);
        assert(s.contains(x)) by {
            assert(s[m] == x);
        }
        assert(b.contains(x)) by {
            assert(b[0] == x);
        }
        assert forall|v: SessionInfo| #[trigger] b.to_multiset().count(v) == s.to_multiset().count(
            v,
        ) by {
            assert(b.to_multiset().remove(x).count(v) == s.to_multiset().remove(x).count(v));
            if v == x {
                assert(b.to_multiset().count(x) > 0 && s.to_multiset().count(x) > 0);
            }
        }
        assert(b.to_multiset() =~= s.to_multiset());
        // Newest first: `x` is at least as recent as everything after it.
        assert forall|j: int| 0 <= j < r.len() implies (#[trigger] r[j]).modified <= x.modified by {
            vstd::seq_lib::to_multiset_contains(r, r[j]);
            vstd::seq_lib::to_multiset_contains(rest, r[j]);
            assert(r.contains(r[j]));
            let k = choose|k: int| 0 <= k < rest.len() && rest[k] == r[j];
            if k < m {
                assert(rest[k] == s[k]);
            } else {
                assert(rest[k] == s[k + 1]);
            }
        }
        assert forall|i: int, j: int| 0 <= i < j < b.len() implies (#[trigger] b[i]).modified
            >= (#[trigger] b[j]).modified by {
            if i == 0 {
                assert(b[j] == r[j - 1]);
            } else {
                assert(b[i] == r[i - 1]);
                assert(b[j] == r[j - 1]);
            }
        }
    }
}

/// The listing is newest first throughout and holds exactly the sessions it
/// was given: every session comes before all those modified earlier, and
/// none is lost or repeated.
pub proof fn law_sessions_newest_first(s: Seq<SessionInfo>)
    ensures
        by_recency(s).to_multiset() == s.to_multiset(),
        by_recency(s).len() == s.len(),
        forall|i: int, j: int|
            0 <= i < j < s.len() ==> (#[trigger] by_recency(s)[i]).modified
                >= (#[trigger] by_recency(s)[j]).modified,
{
    lemma_by_recency(s);
}

} // verus!
