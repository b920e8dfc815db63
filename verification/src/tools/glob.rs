//! The glob tool: list files matching a pattern.

use vstd::prelude::*;
use crate::json::JsonValue;
use crate::order::{sort_strings, lex_sorted};
use crate::text::{push_str, join, views, join_lines};
use crate::tools::{ToolResult, required_str_field, str_field_or, missing_field_text, is_result, result_from};

verus! {

/// Finds files matching a glob pattern.
pub struct GlobTool;

/// The checked arguments of a file search.
#[derive(Debug)]
pub struct GlobArgs {
    pub pattern: String,
    pub path: String,
}

impl GlobTool {
    /// The tool's name.
    pub fn name(&self) -> (r: &'static str)
        ensures
            r@ == "glob"@,
    {
        "glob"
    }

    /// The tool's description for the model.
    pub fn description(&self) -> (r: &'static str)
        ensures
            r@ == "Find files matching a glob pattern."@,
    {
        "Find files matching a glob pattern."
    }

    /// Checks the input: `pattern` is required and `path` defaults to `.`.
    pub fn args(input: &JsonValue) -> (r: Result<GlobArgs, ToolResult>)
        ensures
            match input.str_member("pattern"@) {
                Some(p) => r matches Ok(a) && a.pattern@ == p && a.path@ == (match input.str_member(
                    "path"@,
                ) {
                    Some(s) => s,
                    None => "."@,
                }),
                None => r matches Err(e) && is_result(e, missing_field_text("pattern"@), true),
            },
    {
        let pattern = match required_str_field(input, "pattern") {
            Ok(s) => s,
            Err(e) => return Err(e),
        };
        let path = str_field_or(input, "path", ".");
        Ok(GlobArgs { pattern, path })
    }

    /// The answer when the pattern could not be compiled.
    pub fn build_error(error: &str) -> (r: ToolResult)
        ensures
            is_result(r, "Error building glob: "@ + error@, true),
    {
        let mut out: Vec<char> = Vec::new();
        push_str(&mut out, "Error building glob: ");
        push_str(&mut out, error);
        result_from(&out, true)
    }

    /// The answer listing the files found: their paths in lexicographic order,
    /// one per line, or a notice when there are none.
    pub fn listing_result(files: Vec<String>) -> (r: ToolResult)
        ensures
            files.len() == 0 ==> is_result(r, "No files found matching pattern"@, false),
            files.len() > 0 ==> exists|sorted: Seq<String>|
                #![trigger lex_sorted(sorted)]
                sorted.to_multiset() == files@.to_multiset() && lex_sorted(sorted) && is_result(
                    r,
                    join(views(sorted), seq!['\n']),
                    false,
                ),
    {
        if files.len() == 0 {
            let mut out: Vec<char> = Vec::new();
            push_str(&mut out, "No files found matching pattern");
            return result_from(&out, false);
        }
        let sorted = sort_strings(files);
        let out = join_lines(&sorted);
        let r = result_from(&out, false);
        assert(lex_sorted(sorted@));
        r
    }
}

} // verus!
