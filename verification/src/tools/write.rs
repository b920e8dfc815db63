//! The write tool: create or overwrite a file.

use vstd::prelude::*;
use crate::json::JsonValue;
use crate::text::push_str;
use crate::tools::{ToolResult, required_str_field, missing_field_text, is_result, result_from};

verus! {

/// Writes content to a file, creating it or overwriting it.
pub struct WriteTool;

/// The checked arguments of a write.
#[derive(Debug)]
pub struct WriteArgs {
    pub file_path: String,
    pub content: String,
}

impl WriteTool {
    /// The tool's name.
    pub fn name(&self) -> (r: &'static str)
        ensures
            r@ == "write"@,
    {
        "write"
    }

    /// The tool's description for the model.
    pub fn description(&self) -> (r: &'static str)
        ensures
            r@ == "Write content to a file. Creates the file if it doesn't exist, overwrites if it does."@,
    {
        "Write content to a file. Creates the file if it doesn't exist, overwrites if it does."
    }

    /// Checks the input fields `file_path` and `content`, in that order.
    pub fn args(input: &JsonValue) -> (r: Result<WriteArgs, ToolResult>)
        ensures
            match (input.str_member("file_path"@), input.str_member("content"@)) {
                (Some(f), Some(c)) => r matches Ok(a) && a.file_path@ == f && a.content@ == c,
                (None, _) => r matches Err(e) && is_result(
                    e,
                    missing_field_text("file_path"@),
                    true,
                ),
                (Some(_), None) => r matches Err(e) && is_result(
                    e,
                    missing_field_text("content"@),
                    true,
                ),
            },
    {
        let file_path = match required_str_field(input, "file_path") {
            Ok(s) => s,
            Err(e) => return Err(e),
        };
        let content = match required_str_field(input, "content") {
            Ok(s) => s,
            Err(e) => return Err(e),
        };
        Ok(WriteArgs { file_path, content })
    }

    /// The answer once the write was attempted: `error` holds the message of
    /// a failed write.
    pub fn write_result(file_path: &str, error: Option<&str>) -> (r: ToolResult)
        ensures
            match error {
                None => is_result(r, "Successfully wrote to "@ + file_path@, false),
                Some(e) => is_result(r, "Error writing file: "@ + e@, true),
            },
    {
        let mut out: Vec<char> = Vec::new();
        match error {
            None => {
                push_str(&mut out, "Successfully wrote to ");
                push_str(&mut out, file_path);
                result_from(&out, false)
            },
            Some(e) => {
                push_str(&mut out, "Error writing file: ");
                push_str(&mut out, e);
                result_from(&out, true)
            },
        }
    }
}

} // verus!
