//! The edit tool: replace one exact, unique occurrence of a string in a file.

use vstd::prelude::*;
use crate::json::JsonValue;
use crate::text::{lemma_find_from_bounds, lemma_find_from_result, chars_of, push_str, push_range, push_decimal, string_from_chars, find_chars_from, matches_at, decimal, find, occurs_at, match_count, count_from, find_from};
use crate::tools::{ToolResult, required_str_field, missing_field_text, is_result, result_from};

verus! {

/// Edits a file by replacing an exact string match with new content.
pub struct EditTool;

/// The checked arguments of an edit.
#[derive(Debug)]
pub struct EditArgs {
    pub file_path: String,
    pub old_string: String,
    pub new_string: String,
}

/// `s` with the leftmost occurrence of `p` replaced by `q` (as
/// `str::replacen(p, q, 1)`); `s` itself when `p` does not occur.
pub open spec fn replace_first(s: Seq<char>, p: Seq<char>, q: Seq<char>) -> Seq<char> {
    match find(s, p) {
        Some(i) => s.take(i) + q + s.skip(i + p.len()),
        None => s,
    }
}

/// The result text when `count` occurrences were found.
pub open spec fn multiple_matches_text(count: nat) -> Seq<char> {
    "Error: old_string found multiple times ("@ + decimal(count)
        + " matches). Provide a more unique string."@
}

/// What an edit of `content` answers: the new content when `old` occurs
/// exactly once, else the refusal.
pub open spec fn edit_outcome(content: Seq<char>, old: Seq<char>, new: Seq<char>) -> Result<
    Seq<char>,
    (Seq<char>, bool),
> {
    let n = match_count(content, old);
    if n == 0 {
        Err(("Error: old_string not found in file"@, true))
    } else if n > 1 {
        Err((multiple_matches_text(n), true))
    } else {
        Ok(replace_first(content, old, new))
    }
}

proof fn lemma_count_from_unfold(s: Seq<char>, p: Seq<char>, i: int)
    requires
        p.len() > 0,
        0 <= i,
        i + p.len() <= s.len(),
    ensures
        occurs_at(s, p, i) ==> count_from(s, p, i) == 1 + count_from(s, p, i + p.len()),
        !occurs_at(s, p, i) ==> count_from(s, p, i) == count_from(s, p, i + 1),
{
}

proof fn lemma_count_positive_finds(s: Seq<char>, p: Seq<char>, from: int)
    requires
        p.len() > 0,
        0 <= from,
        count_from(s, p, from) > 0,
    ensures
        find_from(s, p, from) is Some,
    decreases s.len() - from,
{
    if !occurs_at(s, p, from) {
        lemma_count_positive_finds(s, p, from + 1);
    }
}

/// The number of matches `str::matches(p).count()` reports.
pub fn count_matches(s: &Vec<char>, p: &Vec<char>) -> (c: usize)
    requires
        s.len() < usize::MAX,
    ensures
        c == match_count(s@, p@),
        c <= s.len() + 1,
{
    if p.len() == 0 {
        return s.len() + 1;
    }
    let mut i: usize = 0;
    let mut c: usize = 0;
    while i <= s.len() && p.len() <= s.len() - i
        invariant
            p.len() > 0,
            s.len() < usize::MAX,
            c <= i <= s.len(),
            c + count_from(s@, p@, i as int) == count_from(s@, p@, 0),
        decreases s.len() - i,
    {
        proof {
            lemma_count_from_unfold(s@, p@, i as int);
        }
        if matches_at(s, p, i) {
            c = c + 1;
            i = i + p.len();
        } else {
            i = i + 1;
        }
    }
    c
}

/// Replaces the only occurrence of `old` in `content` by `new`; when `old`
/// does not occur exactly once, returns the number of occurrences instead.
pub fn replace_unique(content: &str, old: &str, new: &str) -> (r: Result<String, usize>)
    requires
        content@.len() < usize::MAX,
    ensures
        match_count(content@, old@) <= content@.len() + 1,
        match_count(content@, old@) == 1 ==> (r matches Ok(s) && s@ == replace_first(
            content@,
            old@,
            new@,
        )),
        match_count(content@, old@) != 1 ==> r == Err::<String, usize>(
            match_count(content@, old@) as usize,
        ),
{
    let sv = chars_of(content);
    let pv = chars_of(old);
    let count = count_matches(&sv, &pv);
    if count != 1 {
        return Err(count);
    }
    proof {
        if pv@.len() > 0 {
            lemma_count_positive_finds(sv@, pv@, 0);
        } else {
            assert(sv@.subrange(0, 0) =~= pv@);
        }
    }
    match find_chars_from(&sv, &pv, 0) {
        Some(i) => {
            proof {
                lemma_find_from_bounds(sv@, pv@, 0);
            }
            let mut out: Vec<char> = Vec::new();
            push_range(&mut out, &sv, 0, i);
            push_str(&mut out, new);
            let n = sv.len();
            push_range(&mut out, &sv, i + pv.len(), n);
            assert(sv@.subrange(0, i as int) == sv@.take(i as int));
            assert(sv@.subrange(i + pv.len(), n as int) == sv@.skip(i + pv.len()));
            Ok(string_from_chars(&out))
        },
        None => {
            Err(count)
        },
    }
}

/// Replacing the unique occurrence of a string by itself leaves the content
/// as it was.
pub proof fn law_edit_with_same_text_changes_nothing(content: Seq<char>, old: Seq<char>)
    requires
        match_count(content, old) == 1,
    ensures
        edit_outcome(content, old, old) == Ok::<Seq<char>, (Seq<char>, bool)>(content),
{
    if old.len() > 0 {
        lemma_count_positive_finds(content, old, 0);
    } else {
        assert(content.subrange(0, 0) =~= old);
    }
    lemma_find_from_result(content, old, 0);
    let i = find(content, old)->0;
    assert(content.subrange(i, i + old.len()) == old);
    assert(content.take(i) + old + content.skip(i + old.len()) =~= content);
}

/// After a successful edit the replacement text stands where the old text
/// was: everything before it and after it is unchanged.
pub proof fn law_edit_replaces_in_place(content: Seq<char>, old: Seq<char>, new: Seq<char>)
    requires
        match_count(content, old) == 1,
    ensures
        exists|i: int|
            #![trigger content.take(i)]
            0 <= i && i + old.len() <= content.len() && content.subrange(i, i + old.len()) == old
                && edit_outcome(content, old, new) == Ok::<Seq<char>, (Seq<char>, bool)>(
                content.take(i) + new + content.skip(i + old.len()),
            ),
{
    if old.len() > 0 {
        lemma_count_positive_finds(content, old, 0);
    } else {
        assert(content.subrange(0, 0) =~= old);
    }
    lemma_find_from_result(content, old, 0);
    let i = find(content, old)->0;
    assert(content.take(i) == content.take(i));
}

impl EditTool {
    /// The tool's name.
    pub fn name(&self) -> (r: &'static str)
        ensures
            r@ == "edit"@,
    {
        "edit"
    }

    /// The tool's description for the model.
    pub fn description(&self) -> (r: &'static str)
        ensures
            r@ == "Edit a file by replacing an exact string match with new content. The old_string must appear exactly once in the file."@,
    {
        "Edit a file by replacing an exact string match with new content. The old_string must appear exactly once in the file."
    }

    /// Checks the input fields `file_path`, `old_string` and `new_string`, in
    /// that order; the first missing one decides the error.
    pub fn args(input: &JsonValue) -> (r: Result<EditArgs, ToolResult>)
        ensures
            match (
                input.str_member("file_path"@),
                input.str_member("old_string"@),
                input.str_member("new_string"@),
            ) {
                (Some(f), Some(o), Some(n)) => r matches Ok(a) && a.file_path@ == f
                    && a.old_string@ == o && a.new_string@ == n,
                (None, _, _) => r matches Err(e) && is_result(
                    e,
                    missing_field_text("file_path"@),
                    true,
                ),
                (Some(_), None, _) => r matches Err(e) && is_result(
                    e,
                    missing_field_text("old_string"@),
                    true,
                ),
                (Some(_), Some(_), None) => r matches Err(e) && is_result(
                    e,
                    missing_field_text("new_string"@),
                    true,
                ),
            },
    {
        let file_path = match required_str_field(input, "file_path") {
            Ok(s) => s,
            Err(e) => return Err(e),
        };
        let old_string = match required_str_field(input, "old_string") {
            Ok(s) => s,
            Err(e) => return Err(e),
        };
        let new_string = match required_str_field(input, "new_string") {
            Ok(s) => s,
            Err(e) => return Err(e),
        };
        Ok(EditArgs { file_path, old_string, new_string })
    }

    /// The answer when the file could not be read.
    pub fn read_error(error: &str) -> (r: ToolResult)
        ensures
            is_result(r, "Error reading file: "@ + error@, true),
    {
        let mut out: Vec<char> = Vec::new();
        push_str(&mut out, "Error reading file: ");
        push_str(&mut out, error);
        result_from(&out, true)
    }

    /// Applies the edit to the file's content: the new content to write, or
    /// the refusal to answer with.
    pub fn apply(content: &str, args: &EditArgs) -> (r: Result<String, ToolResult>)
        requires
            content@.len() < usize::MAX,
        ensures
            match edit_outcome(content@, args.old_string@, args.new_string@) {
                Ok(s) => r matches Ok(v) && v@ == s,
                Err((text, is_error)) => r matches Err(e) && is_result(e, text, is_error),
            },
    {
        match replace_unique(content, args.old_string.as_str(), args.new_string.as_str()) {
            Ok(s) => Ok(s),
            Err(count) => {
                let mut out: Vec<char> = Vec::new();
                if count == 0 {
                    push_str(&mut out, "Error: old_string not found in file");
                } else {
                    push_str(&mut out, "Error: old_string found multiple times (");
                    push_decimal(&mut out, count as u128);
                    push_str(&mut out, " matches). Provide a more unique string.");
                }
                Err(result_from(&out, true))
            },
        }
    }

    /// The answer after the new content was written.
    pub fn edited(file_path: &str) -> (r: ToolResult)
        ensures
            is_result(r, "Successfully edited "@ + file_path@, false),
    {
        let mut out: Vec<char> = Vec::new();
        push_str(&mut out, "Successfully edited ");
        push_str(&mut out, file_path);
        result_from(&out, false)
    }
}

} // verus!
