//! The read tool: a file's lines, numbered from one, from an offset and up to
//! a limit.

use vstd::prelude::*;
use crate::json::JsonValue;
use crate::highlight::{lines_with_endings, lines_with_endings_from};
use crate::text::{chars_of, decimal, join, join_lines, push_decimal, push_range, push_str, string_from_chars, views};
use crate::tools::{ToolResult, is_result, required_str_field, missing_field_text, result_from};

verus! {

/// Reads a file from the filesystem, with line numbers.
pub struct ReadTool;

/// The arguments of a read: the file, the first line to show (counted from
/// zero) and how many lines to show at most.
#[derive(Debug)]
pub struct ReadArgs {
    pub file_path: String,
    pub offset: u64,
    pub limit: Option<u64>,
}

/// A line as `str::lines` gives it: without its `\n`, or `\r\n`.
pub open spec fn line_text(piece: Seq<char>) -> Seq<char> {
    if piece.len() > 0 && piece.last() == '\n' {
        let body = piece.drop_last();
        if body.len() > 0 && body.last() == '\r' {
            body.drop_last()
        } else {
            body
        }
    } else {
        piece
    }
}

/// The lines of a file's content, as `str::lines` cuts them.
pub open spec fn file_lines(content: Seq<char>) -> Seq<Seq<char>> {
    lines_with_endings_from(content, 0).map_values(|p: Seq<char>| line_text(p))
}

/// Line `index` (counted from zero) shown with its number (counted from one)
/// and a tab.
pub open spec fn numbered_line(index: nat, line: Seq<char>) -> Seq<char> {
    decimal(index + 1) + seq!['\t'] + line
}

/// The first line shown: the offset, or the end when it lies beyond.
pub open spec fn first_shown(n: nat, offset: u64) -> nat {
    if (offset as usize) < n {
        (offset as usize) as nat
    } else {
        n
    }
}

/// One past the last line shown: `limit` lines on from the first, or the end.
pub open spec fn end_shown(n: nat, offset: u64, limit: Option<u64>) -> nat {
    let lo = first_shown(n, offset);
    let lim: nat = match limit {
        Some(l) => (l as usize) as nat,
        None => n,
    };
    if lim <= n - lo {
        lo + lim
    } else {
        n
    }
}

/// The tool's answer for a file's content: the lines from the offset on, up
/// to the limit, each with its number, joined by newlines.
pub open spec fn listing_text(content: Seq<char>, offset: u64, limit: Option<u64>) -> Seq<char> {
    let lines = file_lines(content);
    let lo = first_shown(lines.len(), offset);
    let hi = end_shown(lines.len(), offset, limit);
    join(
        Seq::new((hi - lo) as nat, |k: int| numbered_line((lo + k) as nat, lines[lo + k])),
        seq!['\n'],
    )
}

fn line_of(piece: &String) -> (r: String)
    ensures
        r@ == line_text(piece@),
{
    let v = chars_of(piece.as_str());
    let n = v.len();
    let mut out: Vec<char> = Vec::new();
    if n > 0 && v[n - 1] == '\n' {
        if n > 1 && v[n - 2] == '\r' {
            push_range(&mut out, &v, 0, n - 2);
            assert(out@ =~= line_text(piece@));
        } else {
            push_range(&mut out, &v, 0, n - 1);
            assert(out@ =~= line_text(piece@));
        }
    } else {
        push_range(&mut out, &v, 0, n);
        assert(out@ =~= line_text(piece@));
    }
    string_from_chars(&out)
}

fn numbered(index: usize, line: &String) -> (r: String)
    requires
        index < usize::MAX,
    ensures
        r@ == numbered_line(index as nat, line@),
{
    let mut out: Vec<char> = Vec::new();
    push_decimal(&mut out, (index + 1) as u128);
    out.push('\t');
    push_str(&mut out, line.as_str());
    string_from_chars(&out)
}

impl ReadTool {
    /// The tool's name.
    pub fn name(&self) -> (r: &'static str)
        ensures
            r@ == "read"@,
    {
        "read"
    }

    /// The tool's description for the model.
    pub fn description(&self) -> (r: &'static str)
        ensures
            r@ == "Read a file from the filesystem. Returns contents with line numbers."@,
    {
        "Read a file from the filesystem. Returns contents with line numbers."
    }

    /// The arguments of a request: `file_path` is required; `offset` defaults
    /// to zero and `limit` to no limit when they are not non-negative
    /// integers.
    pub fn args(input: &JsonValue) -> (r: Result<ReadArgs, ToolResult>)
        ensures
            match input.str_member("file_path"@) {
                Some(f) => r matches Ok(a) && a.file_path@ == f && a.offset == (
                match input.u64_member("offset"@) {
                    Some(o) => o,
                    None => 0,
                }) && a.limit == input.u64_member("limit"@),
                None => r matches Err(e) && is_result(e, missing_field_text("file_path"@), true),
            },
    {
        let file_path = match required_str_field(input, "file_path") {
            Ok(p) => p,
            Err(e) => return Err(e),
        };
        let offset = match input.u64_field("offset") {
            Some(o) => o,
            None => 0,
        };
        let limit = input.u64_field("limit");
        Ok(ReadArgs { file_path, offset, limit })
    }

    /// The answer when the file could not be read.
    pub fn read_error(error: &str) -> (r: ToolResult)
        ensures
            is_result(r, "Error reading file: "@ + error@, true),
    {
        let mut out: Vec<char> = Vec::new();
        push_str(&mut out, "Error reading file: ");
        push_str(&mut out, error);
        result_from(&out, true)
    }

    /// The answer for the file's content: its lines from `offset` on, at most
    /// `limit` of them, each numbered from one and followed by a tab.
    pub fn listing(content: &str, args: &ReadArgs) -> (r: ToolResult)
        ensures
            is_result(r, listing_text(content@, args.offset, args.limit), false),
    {
        let pieces = lines_with_endings(content);
        let ghost lines = file_lines(content@);
        assert(pieces@.map_values(|x: String| x@).len() == pieces.len());
        let n = pieces.len();
        let off = args.offset as usize;
        let lo = if off < n {
            off
        } else {
            n
        };
        let lim = match args.limit {
            Some(l) => l as usize,
            None => n,
        };
        let hi = if lim <= n - lo {
            lo + lim
        } else {
            n
        };
        assert(lines.len() == n);
        assert(lo == first_shown(n as nat, args.offset));
        assert(hi == end_shown(n as nat, args.offset, args.limit));
        let ghost want = Seq::new(
            (hi - lo) as nat,
            |k: int| numbered_line((lo + k) as nat, lines[lo + k]),
        );
        let mut parts: Vec<String> = Vec::new();
        let mut i = lo;
        while i < hi
            invariant
                lo <= i <= hi <= n,
                n == pieces.len(),
                lines == file_lines(content@),
                pieces@.map_values(|x: String| x@) == lines_with_endings_from(content@, 0),
                want == Seq::new(
                    (hi - lo) as nat,
                    |k: int| numbered_line((lo + k) as nat, lines[lo + k]),
                ),
                views(parts@) == want.take(i - lo),
            decreases hi - i,
        {
            let line = line_of(&pieces[i]);
            assert(pieces@.map_values(|x: String| x@)[i as int] == pieces@[i as int]@);
            assert(line@ == lines[i as int]);
            let ghost before = views(parts@);
            parts.push(numbered(i, &line));
            assert(views(parts@) =~= before.push(want[i - lo]));
            assert(want.take(i + 1 - lo) =~= want.take(i - lo).push(want[i - lo]));
            i = i + 1;
        }
        assert(want.take(hi - lo) =~= want);
        let out = join_lines(&parts);
        result_from(&out, false)
    }
}

} // verus!
