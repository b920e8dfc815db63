//! The conversation loop's decisions: how a streamed answer becomes content
//! blocks, how the history grows and shrinks, and what a tool call reports.

use vstd::prelude::*;
use crate::json::{JsonValue, json_parse, parse_json};
use crate::text::{truncated, truncate_chars, push_str, string_from_chars};
use crate::tools::ToolResult;
use crate::types::{ContentBlock, ContentBlockStartData, DeltaData, Message, Role, SseEvent, StreamEvent};

verus! {

/// Most characters of a tool's output kept in the conversation history.
pub const MAX_TOOL_RESULT_CHARS: usize = 40_000;

/// Most characters of a tool's output shown as a preview.
pub const RESULT_PREVIEW_CHARS: usize = 200;

/// At most `max_chars` characters of `s`, cut at a character boundary and
/// followed by `...` when anything was cut.
pub fn truncate_utf8(s: &str, max_chars: usize) -> (r: String)
    ensures
        r@ == truncated(s@, max_chars as nat),
{
    truncate_chars(s, max_chars)
}

// ---------------------------------------------------------------------------
// Assembling one streamed answer
// ---------------------------------------------------------------------------

/// The state of an answer being streamed: the blocks completed so far and the
/// block in progress.
pub struct TurnAssembler {
    pub content: Vec<ContentBlock>,
    pub current_text: String,
    pub current_tool_id: String,
    pub current_tool_name: String,
    pub current_tool_input_json: String,
}

/// What the loop does after an event.
#[derive(Debug)]
pub enum TurnStep {
    /// Keep reading events.
    Continue,
    /// Print this text as it arrives, then keep reading.
    ShowText(String),
    /// Announce that the named tool is being called, then keep reading.
    ShowTool(String),
    /// The stream reported an error with this message; the answer is dropped.
    Failed(String),
    /// The stream ended; the answer is complete.
    Finished,
}

/// `b` is a text block holding `t`.
pub open spec fn is_text_block(b: ContentBlock, t: Seq<char>) -> bool {
    b matches ContentBlock::Text { text } && text@ == t
}

/// The input a tool call gets from the JSON text streamed for it: the parsed
/// document, or an empty object when the text is not valid JSON.
pub open spec fn is_tool_input(v: JsonValue, json: Seq<char>) -> bool {
    match json_parse(json) {
        Some(p) => v == p,
        None => v matches JsonValue::Object(entries) && entries@.len() == 0,
    }
}

/// `b` is the call of tool `name` with id `id` and the input read from `json`.
pub open spec fn is_tool_use_block(b: ContentBlock, id: Seq<char>, name: Seq<char>, json: Seq<char>) -> bool {
    b matches ContentBlock::ToolUse { id: i, name: n, input } && i@ == id && n@ == name
        && is_tool_input(input, json)
}

/// `new` is `old` with one more block at the end.
pub open spec fn grew_by_one(new: Seq<ContentBlock>, old: Seq<ContentBlock>) -> bool {
    new.len() == old.len() + 1 && new.take(old.len() as int) == old
}

/// The tool input for the JSON text streamed for a tool call.
pub fn tool_input(json: &str) -> (r: JsonValue)
    ensures
        is_tool_input(r, json@),
{
    match parse_json(json) {
        Some(v) => v,
        None => JsonValue::empty_object(),
    }
}

/// The two states agree on everything but the text in progress.
pub open spec fn same_but_text(new: TurnAssembler, old: TurnAssembler) -> bool {
    &&& new.content == old.content
    &&& new.current_tool_id == old.current_tool_id
    &&& new.current_tool_name == old.current_tool_name
    &&& new.current_tool_input_json == old.current_tool_input_json
}

/// The pending text, when there is any, became the last completed block and
/// the text in progress is empty; otherwise the blocks are unchanged.
pub open spec fn flushed_text(new: TurnAssembler, old: TurnAssembler) -> bool {
    &&& new.current_text@.len() == 0
    &&& if old.current_text@.len() == 0 {
        new.content == old.content
    } else {
        grew_by_one(new.content@, old.content@) && is_text_block(
            new.content@.last(),
            old.current_text@,
        )
    }
}

/// One step of assembling an answer: `new` and `r` are what `event` makes of
/// `old` (see `TurnAssembler::step`).
pub open spec fn stepped(old: TurnAssembler, event: SseEvent, new: TurnAssembler, r: TurnStep) -> bool {
    match event {
        SseEvent::Done => r is Finished && new == old,
        SseEvent::Event(ev) => match ev {
            StreamEvent::Error { error } => r matches TurnStep::Failed(m) && m == error.message
                && new == old,
            StreamEvent::ContentBlockStart { content_block, .. } => match content_block {
                ContentBlockStartData::Text { text } => {
                    &&& r is Continue
                    &&& new.current_text == text
                    &&& same_but_text(new, old)
                },
                ContentBlockStartData::ToolUse { id, name } => {
                    &&& r matches TurnStep::ShowTool(shown) && shown@ == name@
                    &&& new.current_tool_id == id
                    &&& new.current_tool_name == name
                    &&& new.current_tool_input_json@.len() == 0
                    &&& flushed_text(new, old)
                },
            },
            StreamEvent::ContentBlockDelta { delta, .. } => match delta {
                DeltaData::TextDelta { text } => {
                    &&& r matches TurnStep::ShowText(shown) && shown == text
                    &&& new.current_text@ == old.current_text@ + text@
                    &&& same_but_text(new, old)
                },
                DeltaData::InputJsonDelta { partial_json } => {
                    &&& r is Continue
                    &&& new.current_tool_input_json@ == old.current_tool_input_json@
                        + partial_json@
                    &&& new.content == old.content
                    &&& new.current_text == old.current_text
                    &&& new.current_tool_id == old.current_tool_id
                    &&& new.current_tool_name == old.current_tool_name
                },
            },
            StreamEvent::ContentBlockStop { .. } => {
                &&& r is Continue
                &&& if old.current_tool_name@.len() > 0 {
                    &&& grew_by_one(new.content@, old.content@)
                    &&& is_tool_use_block(
                        new.content@.last(),
                        old.current_tool_id@,
                        old.current_tool_name@,
                        old.current_tool_input_json@,
                    )
                    &&& new.current_tool_name@.len() == 0
                    &&& new.current_text == old.current_text
                    &&& new.current_tool_id == old.current_tool_id
                    &&& new.current_tool_input_json == old.current_tool_input_json
                } else {
                    &&& flushed_text(new, old)
                    &&& new.current_tool_name == old.current_tool_name
                    &&& new.current_tool_id == old.current_tool_id
                    &&& new.current_tool_input_json == old.current_tool_input_json
                }
            },
            _ => r is Continue && new == old,
        },
    }
}

impl TurnAssembler {
    /// Nothing streamed yet.
    pub fn new() -> (r: TurnAssembler)
        ensures
            r.content@.len() == 0,
            r.current_text@.len() == 0,
            r.current_tool_id@.len() == 0,
            r.current_tool_name@.len() == 0,
            r.current_tool_input_json@.len() == 0,
    {
        TurnAssembler {
            content: Vec::new(),
            current_text: String::new(),
            current_tool_id: String::new(),
            current_tool_name: String::new(),
            current_tool_input_json: String::new(),
        }
    }

    /// Takes in one event of the stream.
    ///
    /// A text block's start sets the text in progress; a tool block's start
    /// first completes a pending non-empty text, then opens the call. Deltas
    /// extend the text or the call's JSON input. A block's stop completes the
    /// open tool call, or else the pending non-empty text. An error event fails
    /// the answer and the end of the stream finishes it; other events change
    /// nothing.
    pub fn step(&mut self, event: SseEvent) -> (r: TurnStep)
        ensures
            stepped(*old(self), event, *final(self), r),
    {
        match event {
            SseEvent::Done => TurnStep::Finished,
            SseEvent::Event(ev) => match ev {
                StreamEvent::Error { error } => TurnStep::Failed(error.message),
                StreamEvent::ContentBlockStart { content_block, .. } => match content_block {
                    ContentBlockStartData::Text { text } => {
                        self.current_text = text;
                        TurnStep::Continue
                    },
                    ContentBlockStartData::ToolUse { id, name } => {
                        if !self.current_text.as_str().is_empty() {
                            let pending = self.current_text.clone();
                            let ghost before = self.content@;
                            self.content.push(ContentBlock::Text { text: pending });
                            assert(self.content@.take(before.len() as int) =~= before);
                            self.current_text = String::new();
                        }
                        let shown = name.clone();
                        self.current_tool_id = id;
                        self.current_tool_name = name;
                        self.current_tool_input_json = String::new();
                        TurnStep::ShowTool(shown)
                    },
                },
                StreamEvent::ContentBlockDelta { delta, .. } => match delta {
                    DeltaData::TextDelta { text } => {
                        let mut t: Vec<char> = crate::text::chars_of(self.current_text.as_str());
                        push_str(&mut t, text.as_str());
                        self.current_text = string_from_chars(&t);
                        TurnStep::ShowText(text)
                    },
                    DeltaData::InputJsonDelta { partial_json } => {
                        let mut t: Vec<char> = crate::text::chars_of(
                            self.current_tool_input_json.as_str(),
                        );
                        push_str(&mut t, partial_json.as_str());
                        self.current_tool_input_json = string_from_chars(&t);
                        TurnStep::Continue
                    },
                },
                StreamEvent::ContentBlockStop { .. } => {
                    if !self.current_tool_name.as_str().is_empty() {
                        let input = tool_input(self.current_tool_input_json.as_str());
                        let block = ContentBlock::ToolUse {
                            id: self.current_tool_id.clone(),
                            name: self.current_tool_name.clone(),
                            input,
                        };
                        let ghost before = self.content@;
                        self.content.push(block);
                        assert(self.content@.take(before.len() as int) =~= before);
                        self.current_tool_name = String::new();
                    } else if !self.current_text.as_str().is_empty() {
                        let block = ContentBlock::Text { text: self.current_text.clone() };
                        let ghost before = self.content@;
                        self.content.push(block);
                        assert(self.content@.take(before.len() as int) =~= before);
                        self.current_text = String::new();
                    }
                    TurnStep::Continue
                },
                _ => TurnStep::Continue,
            },
        }
    }
}

/// Streamed text is shown piece by piece as it arrives: a text delta shows
/// exactly its own text, whatever was streamed before it, so that what is
/// shown over a block adds up to the block's text. After a block opened with
/// `first` and deltas `a` then `b`, the pieces shown are `a` and `b`, and
/// `first`, `a` and `b` together are the text in progress.
pub proof fn law_text_delta_shows_only_the_piece(
    s0: TurnAssembler,
    s1: TurnAssembler,
    s2: TurnAssembler,
    s3: TurnAssembler,
    r1: TurnStep,
    r2: TurnStep,
    r3: TurnStep,
    index: usize,
    first: String,
    a: String,
    b: String,
)
    requires
        stepped(
            s0,
            SseEvent::Event(
                StreamEvent::ContentBlockStart {
                    index,
                    content_block: ContentBlockStartData::Text { text: first },
                },
            ),
            s1,
            r1,
        ),
        stepped(
            s1,
            SseEvent::Event(
                StreamEvent::ContentBlockDelta { index, delta: DeltaData::TextDelta { text: a } },
            ),
            s2,
            r2,
        ),
        stepped(
            s2,
            SseEvent::Event(
                StreamEvent::ContentBlockDelta { index, delta: DeltaData::TextDelta { text: b } },
            ),
            s3,
            r3,
        ),
    ensures
        r1 is Continue,
        r2 matches TurnStep::ShowText(shown) && shown@ == a@,
        r3 matches TurnStep::ShowText(shown) && shown@ == b@,
        s3.current_text@ == first@ + a@ + b@,
{
}

/// A text delta shows its own text and nothing else, in any state.
pub proof fn law_any_text_delta_shows_its_text(
    old: TurnAssembler,
    new: TurnAssembler,
    r: TurnStep,
    index: usize,
    text: String,
)
    requires
        stepped(
            old,
            SseEvent::Event(
                StreamEvent::ContentBlockDelta { index, delta: DeltaData::TextDelta { text } },
            ),
            new,
            r,
        ),
    ensures
        r matches TurnStep::ShowText(shown) && shown@ == text@,
        new.current_text@ == old.current_text@ + text@,
{
}

/// Text streamed into a block is recorded whole: a text block opened with
/// `first`, extended by `a` and then `b`, and stopped, ends the content with
/// one text block holding `first`, `a` and `b` in order (when that is not
/// empty and no tool call is open).
pub proof fn law_streamed_text_recorded_whole(
    s0: TurnAssembler,
    s1: TurnAssembler,
    s2: TurnAssembler,
    s3: TurnAssembler,
    s4: TurnAssembler,
    r1: TurnStep,
    r2: TurnStep,
    r3: TurnStep,
    r4: TurnStep,
    index: usize,
    first: String,
    a: String,
    b: String,
)
    requires
        s0.current_tool_name@.len() == 0,
        stepped(
            s0,
            SseEvent::Event(
                StreamEvent::ContentBlockStart {
                    index,
                    content_block: ContentBlockStartData::Text { text: first },
                },
            ),
            s1,
            r1,
        ),
        stepped(
            s1,
            SseEvent::Event(
                StreamEvent::ContentBlockDelta { index, delta: DeltaData::TextDelta { text: a } },
            ),
            s2,
            r2,
        ),
        stepped(
            s2,
            SseEvent::Event(
                StreamEvent::ContentBlockDelta { index, delta: DeltaData::TextDelta { text: b } },
            ),
            s3,
            r3,
        ),
        stepped(s3, SseEvent::Event(StreamEvent::ContentBlockStop { index }), s4, r4),
        first@.len() + a@.len() + b@.len() > 0,
    ensures
        grew_by_one(s4.content@, s0.content@),
        is_text_block(s4.content@.last(), first@ + a@ + b@),
        s4.current_text@.len() == 0,
{
}

/// A tool call is recorded with the JSON input streamed for it, pieces
/// joined in order: a tool block opened, given input `a` then `b`, and
/// stopped, ends the content with the call of that tool on the input read
/// from `a` followed by `b`.
pub proof fn law_streamed_tool_call_recorded(
    s0: TurnAssembler,
    s1: TurnAssembler,
    s2: TurnAssembler,
    s3: TurnAssembler,
    s4: TurnAssembler,
    r1: TurnStep,
    r2: TurnStep,
    r3: TurnStep,
    r4: TurnStep,
    index: usize,
    id: String,
    name: String,
    a: String,
    b: String,
)
    requires
        name@.len() > 0,
        stepped(
            s0,
            SseEvent::Event(
                StreamEvent::ContentBlockStart {
                    index,
                    content_block: ContentBlockStartData::ToolUse { id, name },
                },
            ),
            s1,
            r1,
        ),
        stepped(
            s1,
            SseEvent::Event(
                StreamEvent::ContentBlockDelta {
                    index,
                    delta: DeltaData::InputJsonDelta { partial_json: a },
                },
            ),
            s2,
            r2,
        ),
        stepped(
            s2,
            SseEvent::Event(
                StreamEvent::ContentBlockDelta {
                    index,
                    delta: DeltaData::InputJsonDelta { partial_json: b },
                },
            ),
            s3,
            r3,
        ),
        stepped(s3, SseEvent::Event(StreamEvent::ContentBlockStop { index }), s4, r4),
    ensures
        s4.content@.len() >= 1,
        is_tool_use_block(s4.content@.last(), id@, name@, a@ + b@),
        s4.current_tool_name@.len() == 0,
{
    assert(Seq::<char>::empty() + a@ + b@ =~= a@ + b@);
}

// ---------------------------------------------------------------------------
// The conversation history
// ---------------------------------------------------------------------------

/// The messages exchanged so far.
pub struct Conversation {
    pub messages: Vec<Message>,
}

/// `new` is `old` followed by a user message holding just the text `text`.
pub open spec fn added_user_text(new: Seq<Message>, old: Seq<Message>, text: Seq<char>) -> bool {
    &&& new.len() == old.len() + 1
    &&& new.take(old.len() as int) == old
    &&& new.last().role == Role::User
    &&& new.last().content@.len() == 1
    &&& is_text_block(new.last().content@[0], text)
}

/// `new` is `old` without its last message (or `old` itself when empty).
pub open spec fn dropped_last(new: Seq<Message>, old: Seq<Message>) -> bool {
    if old.len() == 0 {
        new == old
    } else {
        new == old.drop_last()
    }
}

/// The positions of the tool calls among the first `n` blocks, in order.
pub open spec fn tool_use_positions(c: Seq<ContentBlock>, n: int) -> Seq<usize>
    decreases n,
{
    if n <= 0 {
        Seq::empty()
    } else if c[n - 1] is ToolUse {
        tool_use_positions(c, n - 1).push((n - 1) as usize)
    } else {
        tool_use_positions(c, n - 1)
    }
}

impl Conversation {
    /// An empty history.
    pub fn new() -> (r: Conversation)
        ensures
            r.messages@.len() == 0,
    {
        Conversation { messages: Vec::new() }
    }

    /// Records what the user typed.
    pub fn push_user_text(&mut self, text: String)
        ensures
            added_user_text(final(self).messages@, old(self).messages@, text@),
    {
        let mut content: Vec<ContentBlock> = Vec::new();
        content.push(ContentBlock::Text { text });
        self.messages.push(Message { role: Role::User, content });
        assert(self.messages@.take(old(self).messages@.len() as int) =~= old(self).messages@);
    }

    /// Forgets the last message: what a failed request does, so that the
    /// user can try again.
    pub fn drop_last_message(&mut self)
        ensures
            dropped_last(final(self).messages@, old(self).messages@),
    {
        self.messages.pop();
    }

    /// Records the model's completed answer and returns the positions of the
    /// tool calls in it; the loop goes on to call tools exactly when there
    /// are any.
    pub fn push_assistant(&mut self, content: Vec<ContentBlock>) -> (calls: Vec<usize>)
        ensures
            final(self).messages@ == old(self).messages@.push(
                Message { role: Role::Assistant, content },
            ),
            calls@ == tool_use_positions(content@, content@.len() as int),
    {
        let calls = tool_use_positions_of(&content);
        self.messages.push(Message { role: Role::Assistant, content });
        calls
    }

    /// Records the results of the tool calls as a user message.
    pub fn push_tool_results(&mut self, results: Vec<ContentBlock>)
        ensures
            final(self).messages@ == old(self).messages@.push(
                Message { role: Role::User, content: results },
            ),
    {
        self.messages.push(Message { role: Role::User, content: results });
    }
}

/// The loop asks for tool results exactly when the answer holds a tool call,
/// and the positions it gets are those of the calls, in order.
pub proof fn law_tool_round_iff_tool_calls(c: Seq<ContentBlock>, n: int)
    requires
        0 <= n <= c.len(),
        c.len() <= usize::MAX,
    ensures
        tool_use_positions(c, n).len() == 0 <==> forall|i: int| 0 <= i < n ==> !(#[trigger] c[i] is ToolUse),
        forall|k: int|
            0 <= k < tool_use_positions(c, n).len() ==> {
                let p = #[trigger] tool_use_positions(c, n)[k];
                0 <= p < n && c[p as int] is ToolUse
            },
        forall|k: int, l: int|
            0 <= k < l < tool_use_positions(c, n).len() ==> #[trigger] tool_use_positions(c, n)[k]
                < #[trigger] tool_use_positions(c, n)[l],
    decreases n,
{
    if n > 0 {
        law_tool_round_iff_tool_calls(c, n - 1);
        let prev = tool_use_positions(c, n - 1);
        if c[n - 1] is ToolUse {
            let cur = prev.push((n - 1) as usize);
            assert(cur == tool_use_positions(c, n));
            assert forall|k: int, l: int| 0 <= k < l < cur.len() implies #[trigger] cur[k]
                < #[trigger] cur[l] by {
                if l == cur.len() - 1 {
                    assert(cur[k] == prev[k]);
                } else {
                    assert(cur[k] == prev[k] && cur[l] == prev[l]);
                }
            }
            assert forall|k: int| 0 <= k < cur.len() implies {
                let p = #[trigger] cur[k];
                0 <= p < n && c[p as int] is ToolUse
            } by {
                if k < prev.len() {
                    assert(cur[k] == prev[k]);
                }
            }
        }
    }
}

/// The positions of the tool calls in `content`, in order.
pub fn tool_use_positions_of(content: &Vec<ContentBlock>) -> (r: Vec<usize>)
    ensures
        r@ == tool_use_positions(content@, content@.len() as int),
{
    let mut r: Vec<usize> = Vec::new();
    let mut i: usize = 0;
    while i < content.len()
        invariant
            i <= content.len(),
            r@ == tool_use_positions(content@, i as int),
        decreases content.len() - i,
    {
        if let ContentBlock::ToolUse { .. } = &content[i] {
            r.push(i);
        }
        i = i + 1;
    }
    r
}

/// Failing to send a request, or a failing stream, right after the user's
/// message leaves the history as it was before that message.
pub proof fn law_failed_request_restores_history(
    before: Seq<Message>,
    with_input: Seq<Message>,
    after: Seq<Message>,
    text: Seq<char>,
)
    requires
        added_user_text(with_input, before, text),
        dropped_last(after, with_input),
    ensures
        after == before,
{
    assert(with_input.drop_last() =~= with_input.take(before.len() as int));
}

// ---------------------------------------------------------------------------
// Tool results
// ---------------------------------------------------------------------------

/// How a tool call went.
#[derive(Debug)]
pub enum ToolOutcome {
    /// The tool ran and reported this result.
    Finished(ToolResult),
    /// The tool could not run; this is the error's message.
    Failed(String),
    /// No tool has the requested name.
    Unknown,
}

/// The result block for a tool call: a finished tool's output is cut to
/// `MAX_TOOL_RESULT_CHARS` characters and flagged only when it is an error;
/// failures and unknown tools are always flagged.
pub open spec fn is_tool_result_block(
    b: ContentBlock,
    id: Seq<char>,
    tool_name: Seq<char>,
    outcome: ToolOutcome,
) -> bool {
    b matches ContentBlock::ToolResult { tool_use_id, content, is_error } && tool_use_id@ == id
        && match outcome {
        ToolOutcome::Finished(res) => content@ == truncated(
            res.content@,
            MAX_TOOL_RESULT_CHARS as nat,
        ) && is_error == (if res.is_error {
            Some(true)
        } else {
            None
        }),
        ToolOutcome::Failed(e) => content@ == "Error: "@ + e@ && is_error == Some(true),
        ToolOutcome::Unknown => content@ == "Error: unknown tool '"@ + tool_name + "'"@ && is_error
            == Some(true),
    }
}

/// The block answering the tool call `tool_use_id` of tool `tool_name`.
pub fn tool_result_block(tool_use_id: String, tool_name: &str, outcome: ToolOutcome) -> (r:
    ContentBlock)
    ensures
        is_tool_result_block(r, tool_use_id@, tool_name@, outcome),
{
    match outcome {
        ToolOutcome::Finished(res) => {
            let content = truncate_utf8(res.content.as_str(), MAX_TOOL_RESULT_CHARS);
            let is_error = if res.is_error {
                Some(true)
            } else {
                None
            };
            ContentBlock::ToolResult { tool_use_id, content, is_error }
        },
        ToolOutcome::Failed(e) => {
            let mut out: Vec<char> = Vec::new();
            push_str(&mut out, "Error: ");
            push_str(&mut out, e.as_str());
            ContentBlock::ToolResult {
                tool_use_id,
                content: string_from_chars(&out),
                is_error: Some(true),
            }
        },
        ToolOutcome::Unknown => {
            let mut out: Vec<char> = Vec::new();
            push_str(&mut out, "Error: unknown tool '");
            push_str(&mut out, tool_name);
            push_str(&mut out, "'");
            ContentBlock::ToolResult {
                tool_use_id,
                content: string_from_chars(&out),
                is_error: Some(true),
            }
        },
    }
}

/// `results` answer the tool calls of `content`, one block per call in the
/// order of the calls, each built from the call's id and tool name and from
/// how that call went (`outcomes`, in the same order).
pub open spec fn answers_calls(
    results: Seq<ContentBlock>,
    content: Seq<ContentBlock>,
    outcomes: Seq<ToolOutcome>,
) -> bool {
    let calls = tool_use_positions(content, content.len() as int);
    &&& results.len() == calls.len()
    &&& forall|k: int|
        0 <= k < results.len() ==> match #[trigger] content[calls[k] as int] {
            ContentBlock::ToolUse { id, name, .. } => is_tool_result_block(
                results[k],
                id@,
                name@,
                outcomes[k],
            ),
            _ => false,
        }
}

/// The results of a round of tool calls: one block per call of `content`, in
/// call order, from the outcome of that call.
pub fn tool_round_results(content: &Vec<ContentBlock>, outcomes: Vec<ToolOutcome>) -> (r: Vec<
    ContentBlock,
>)
    requires
        outcomes@.len() == tool_use_positions(content@, content@.len() as int).len(),
    ensures
        answers_calls(r@, content@, outcomes@),
{
    let calls = tool_use_positions_of(content);
    let ghost all = outcomes@;
    assert(content@.len() == content.len());
    proof {
        law_tool_round_iff_tool_calls(content@, content@.len() as int);
    }
    let mut rest = outcomes;
    let mut results: Vec<ContentBlock> = Vec::new();
    let mut k: usize = 0;
    while k < calls.len()
        invariant
            k <= calls.len(),
            calls@ == tool_use_positions(content@, content@.len() as int),
            all.len() == calls.len(),
            rest@ == all.skip(k as int),
            results@.len() == k,
            forall|j: int|
                0 <= j < calls@.len() ==> {
                    let p = #[trigger] calls@[j];
                    0 <= p < content@.len() && content@[p as int] is ToolUse
                },
            forall|j: int|
                0 <= j < k ==> match #[trigger] content@[calls@[j] as int] {
                    ContentBlock::ToolUse { id, name, .. } => is_tool_result_block(
                        results@[j],
                        id@,
                        name@,
                        all[j],
                    ),
                    _ => false,
                },
        decreases calls.len() - k,
    {
        let outcome = rest.remove(0);
        assert(outcome == all[k as int]);
        assert(rest@ =~= all.skip(k + 1));
        let p = calls[k];
        assert(content@[p as int] is ToolUse);
        match &content[p] {
            ContentBlock::ToolUse { id, name, .. } => {
                let block = tool_result_block(id.clone(), name.as_str(), outcome);
                results.push(block);
            },
            _ => {
                assert(false);
            },
        }
        k = k + 1;
    }
    results
}

} // verus!
