//! The decisions of the built-in tools: argument checks, result texts and the
//! text transformations they perform. Running processes and touching files
//! is left to the caller.

use vstd::prelude::*;
use crate::json::JsonValue;
use crate::text::{push_str, string_from_chars};

pub mod bash;
pub mod edit;
pub mod glob;
pub mod grep;
pub mod read;
pub mod write;

verus! {

/// What a tool reports back to the model.
#[derive(Debug)]
pub struct ToolResult {
    pub content: String,
    pub is_error: bool,
}

/// The message for a missing or non-string required field.
pub open spec fn missing_field_text(key: Seq<char>) -> Seq<char> {
    "Error: '"@ + key + "' field is required"@
}

/// A tool result with the given text and error flag.
pub open spec fn is_result(r: ToolResult, content: Seq<char>, is_error: bool) -> bool {
    r.content@ == content && r.is_error == is_error
}

/// The string field `key` of a tool's input, or the error result the tool
/// answers with when it is absent or not a string.
pub fn required_str_field(input: &JsonValue, key: &str) -> (r: Result<String, ToolResult>)
    ensures
        match input.str_member(key@) {
            Some(s) => r matches Ok(v) && v@ == s,
            None => r matches Err(e) && is_result(e, missing_field_text(key@), true),
        },
{
    match input.str_field(key) {
        Some(s) => Ok(s),
        None => {
            let mut out: Vec<char> = Vec::new();
            push_str(&mut out, "Error: '");
            push_str(&mut out, key);
            push_str(&mut out, "' field is required");
            Err(ToolResult { content: string_from_chars(&out), is_error: true })
        },
    }
}

/// The string field `key` of a tool's input, or `default` when it is absent
/// or not a string.
pub fn str_field_or(input: &JsonValue, key: &str, default: &str) -> (r: String)
    ensures
        r@ == (match input.str_member(key@) {
            Some(s) => s,
            None => default@,
        }),
{
    match input.str_field(key) {
        Some(s) => s,
        None => default.to_owned(),
    }
}

/// A tool result made of the characters in `content`.
pub fn result_from(content: &Vec<char>, is_error: bool) -> (r: ToolResult)
    ensures
        is_result(r, content@, is_error),
{
    ToolResult { content: string_from_chars(content), is_error }
}

} // verus!
