//! The grep tool: search file contents with ripgrep.

use vstd::prelude::*;
use crate::json::JsonValue;
use crate::text::{push_str, string_from_chars};
use crate::tools::{ToolResult, required_str_field, str_field_or, missing_field_text, is_result, result_from};

verus! {

/// Searches file contents using ripgrep.
pub struct GrepTool;

/// The checked arguments of a search.
#[derive(Debug)]
pub struct GrepArgs {
    pub pattern: String,
    pub path: String,
    pub glob: Option<String>,
}

/// The arguments handed to `rg` for a search.
pub open spec fn rg_arguments(pattern: Seq<char>, path: Seq<char>, glob: Option<Seq<char>>) -> Seq<
    Seq<char>,
> {
    let fixed = seq!["--no-heading"@, "--line-number"@, "--color=never"@, "--max-count=50"@];
    let filter = match glob {
        Some(g) => seq!["--glob"@, g],
        None => Seq::empty(),
    };
    fixed + filter + seq![pattern, path]
}

/// What a finished `rg` run answers, from its exit code and output: exit code
/// 1 with no output means no match; any other failure is an error.
pub open spec fn rg_outcome(code: Option<i32>, stdout: Seq<char>, stderr: Seq<char>) -> (
    Seq<char>,
    bool,
) {
    if code == Some(1i32) && stdout.len() == 0 {
        ("No matches found"@, false)
    } else if code != Some(0i32) && code != Some(1i32) {
        ("Error running rg: "@ + stderr, true)
    } else {
        (stdout, false)
    }
}

fn string_of(s: &str) -> (r: String)
    ensures
        r@ == s@,
{
    s.to_owned()
}

impl GrepTool {
    /// The tool's name.
    pub fn name(&self) -> (r: &'static str)
        ensures
            r@ == "grep"@,
    {
        "grep"
    }

    /// The tool's description for the model.
    pub fn description(&self) -> (r: &'static str)
        ensures
            r@ == "Search file contents using ripgrep. Returns matching lines with file paths and line numbers."@,
    {
        "Search file contents using ripgrep. Returns matching lines with file paths and line numbers."
    }

    /// Checks the input: `pattern` is required, `path` defaults to `.`, and
    /// `glob` is an optional file filter.
    pub fn args(input: &JsonValue) -> (r: Result<GrepArgs, ToolResult>)
        ensures
            match input.str_member("pattern"@) {
                Some(p) => r matches Ok(a) && a.pattern@ == p && a.path@ == (match input.str_member(
                    "path"@,
                ) {
                    Some(s) => s,
                    None => "."@,
                }) && (match (a.glob, input.str_member("glob"@)) {
                    (Some(g), Some(h)) => g@ == h,
                    (None, None) => true,
                    _ => false,
                }),
                None => r matches Err(e) && is_result(e, missing_field_text("pattern"@), true),
            },
    {
        let pattern = match required_str_field(input, "pattern") {
            Ok(s) => s,
            Err(e) => return Err(e),
        };
        let path = str_field_or(input, "path", ".");
        let glob = input.str_field("glob");
        Ok(GrepArgs { pattern, path, glob })
    }

    /// The arguments to run `rg` with.
    pub fn command_args(args: &GrepArgs) -> (r: Vec<String>)
        ensures
            r@.map_values(|s: String| s@) == rg_arguments(
                args.pattern@,
                args.path@,
                match args.glob {
                    Some(g) => Some(g@),
                    None => None,
                },
            ),
    {
        let mut r: Vec<String> = Vec::new();
        r.push(string_of("--no-heading"));
        r.push(string_of("--line-number"));
        r.push(string_of("--color=never"));
        r.push(string_of("--max-count=50"));
        match &args.glob {
            Some(g) => {
                r.push(string_of("--glob"));
                r.push(g.clone());
            },
            None => {},
        }
        r.push(args.pattern.clone());
        r.push(args.path.clone());
        assert(r@.map_values(|s: String| s@) =~= rg_arguments(
            args.pattern@,
            args.path@,
            match args.glob {
                Some(g) => Some(g@),
                None => None,
            },
        ));
        r
    }

    /// The answer for a finished `rg` run with the given exit code (`None`
    /// when it was ended by a signal).
    pub fn output_result(code: Option<i32>, stdout: &str, stderr: &str) -> (r: ToolResult)
        ensures
            is_result(r, rg_outcome(code, stdout@, stderr@).0, rg_outcome(code, stdout@, stderr@).1),
    {
        let mut out: Vec<char> = Vec::new();
        let is_one = match code {
            Some(c) => c == 1,
            None => false,
        };
        let is_zero = match code {
            Some(c) => c == 0,
            None => false,
        };
        if is_one && stdout.is_empty() {
            push_str(&mut out, "No matches found");
            result_from(&out, false)
        } else if !is_zero && !is_one {
            push_str(&mut out, "Error running rg: ");
            push_str(&mut out, stderr);
            result_from(&out, true)
        } else {
            push_str(&mut out, stdout);
            result_from(&out, false)
        }
    }
}

} // verus!
