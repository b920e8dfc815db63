//! The bash tool: run a shell command and report its output.

use vstd::prelude::*;
use crate::json::JsonValue;
use crate::text::{push_str, push_decimal, decimal};
use crate::tools::{ToolResult, required_str_field, missing_field_text, is_result, result_from};

verus! {

/// Executes a bash command and returns its output.
pub struct BashTool;

/// How long a command may run, in seconds.
pub const COMMAND_TIMEOUT_SECS: u64 = 120;

/// What the tool reports for a finished command: standard output, standard
/// error, or both separated by a newline when both are non-empty.
pub open spec fn command_output_text(stdout: Seq<char>, stderr: Seq<char>) -> Seq<char> {
    if stderr.len() == 0 {
        stdout
    } else if stdout.len() == 0 {
        stderr
    } else {
        stdout + seq!['\n'] + stderr
    }
}

impl BashTool {
    /// The tool's name.
    pub fn name(&self) -> (r: &'static str)
        ensures
            r@ == "bash"@,
    {
        "bash"
    }

    /// The tool's description for the model.
    pub fn description(&self) -> (r: &'static str)
        ensures
            r@ == "Execute a bash command and return its output."@,
    {
        "Execute a bash command and return its output."
    }

    /// The command to run: the input's `command` string.
    pub fn command(input: &JsonValue) -> (r: Result<String, ToolResult>)
        ensures
            match input.str_member("command"@) {
                Some(s) => r matches Ok(v) && v@ == s,
                None => r matches Err(e) && is_result(e, missing_field_text("command"@), true),
            },
    {
        required_str_field(input, "command")
    }

    /// The answer when the command did not finish in time.
    pub fn timeout_result() -> (r: ToolResult)
        ensures
            is_result(
                r,
                "Error: command timed out after "@ + decimal(COMMAND_TIMEOUT_SECS as nat)
                    + " seconds"@,
                true,
            ),
    {
        let mut out: Vec<char> = Vec::new();
        push_str(&mut out, "Error: command timed out after ");
        push_decimal(&mut out, COMMAND_TIMEOUT_SECS as u128);
        push_str(&mut out, " seconds");
        result_from(&out, true)
    }

    /// The answer for a finished command; it is an error exactly when the
    /// command did not exit successfully.
    pub fn output_result(stdout: &str, stderr: &str, success: bool) -> (r: ToolResult)
        ensures
            is_result(r, command_output_text(stdout@, stderr@), !success),
    {
        let mut out: Vec<char> = Vec::new();
        if stderr.is_empty() {
            push_str(&mut out, stdout);
        } else if stdout.is_empty() {
            push_str(&mut out, stderr);
        } else {
            push_str(&mut out, stdout);
            out.push('\n');
            push_str(&mut out, stderr);
        }
        assert(out@ =~= command_output_text(stdout@, stderr@));
        result_from(&out, !success)
    }
}

} // verus!
