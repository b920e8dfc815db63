//! Conversation and streaming-event data, as plain values.

use vstd::prelude::*;
use crate::json::JsonValue;

verus! {

/// Who wrote a message.
#[derive(Debug, Clone, Copy, PartialEq, Eq, Structural)]
pub enum Role {
    User,
    Assistant,
}

/// One block of a message's content.
#[derive(Debug)]
pub enum ContentBlock {
    Text { text: String },
    ToolUse { id: String, name: String, input: JsonValue },
    ToolResult { tool_use_id: String, content: String, is_error: Option<bool> },
}

/// A message of the conversation history.
#[derive(Debug)]
pub struct Message {
    pub role: Role,
    pub content: Vec<ContentBlock>,
}

/// A tool as it is announced to the model.
#[derive(Debug)]
pub struct ToolDefinition {
    pub name: String,
    pub description: String,
    pub input_schema: JsonValue,
}

/// An event of the model's streamed answer.
#[derive(Debug)]
#[allow(inconsistent_fields)]
pub enum StreamEvent {
    MessageStart { message: MessageStartData },
    ContentBlockStart { index: usize, content_block: ContentBlockStartData },
    ContentBlockDelta { index: usize, delta: DeltaData },
    ContentBlockStop { index: usize },
    MessageDelta { delta: MessageDeltaData },
    MessageStop,
    Ping,
    Error { error: ApiError },
}

/// The `message` of a `message_start` event.
#[derive(Debug)]
pub struct MessageStartData {
    pub id: String,
    pub model: String,
}

/// The block a `content_block_start` event opens.
#[derive(Debug)]
pub enum ContentBlockStartData {
    Text { text: String },
    ToolUse { id: String, name: String },
}

/// The payload of a `content_block_delta` event.
#[derive(Debug)]
pub enum DeltaData {
    TextDelta { text: String },
    InputJsonDelta { partial_json: String },
}

/// The `delta` of a `message_delta` event.
#[derive(Debug)]
pub struct MessageDeltaData {
    pub stop_reason: Option<String>,
}

/// An error reported inside the stream.
#[derive(Debug)]
pub struct ApiError {
    pub error_type: String,
    pub message: String,
}

/// A server-sent event: a decoded stream event, or the end of the stream.
#[derive(Debug)]
pub enum SseEvent {
    Event(StreamEvent),
    Done,
}

} // verus!
