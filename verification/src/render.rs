//! Terminal layout arithmetic: how many rows text takes, and the control
//! sequences that redraw and separate answers.

use vstd::prelude::*;
use crate::text::{lemma_find_from_bounds, chars_of, find_from, find_chars_from, push_range, push_str, string_from_chars};

verus! {

/// The pieces of `s` from `pos` on, split at each newline (as
/// `str::split('\n')`: empty pieces are kept, including a last one after a
/// final newline).
pub open spec fn pieces_from(s: Seq<char>, pos: int) -> Seq<Seq<char>>
    decreases s.len() + 1 - pos,
{
    if pos < 0 || pos > s.len() {
        Seq::empty()
    } else {
        match find_from(s, seq!['\n'], pos) {
            Some(j) => if pos <= j && j < s.len() {
                seq![s.subrange(pos, j)] + pieces_from(s, j + 1)
            } else {
                Seq::empty()
            },
            None => seq![s.skip(pos)],
        }
    }
}

/// Number of UTF-8 bytes of a text.
pub open spec fn utf8_len(s: Seq<char>) -> nat {
    vstd::utf8::encode_utf8(s).len()
}

/// Rows a line takes on a terminal `width` columns wide, counting one
/// column per byte: an empty line takes one row.
pub open spec fn line_rows(line: Seq<char>, width: nat) -> nat {
    if line.len() == 0 {
        1
    } else {
        ((utf8_len(line) + width - 1) / width as int) as nat
    }
}

/// Rows taken by a sequence of lines.
pub open spec fn rows(lines: Seq<Seq<char>>, width: nat) -> nat
    decreases lines.len(),
{
    if lines.len() == 0 {
        0
    } else {
        rows(lines.drop_last(), width) + line_rows(lines.last(), width)
    }
}

/// Rows the text takes on a terminal `width` columns wide, at least one.
pub open spec fn display_rows(text: Seq<char>, width: nat) -> nat {
    let n = rows(pieces_from(text, 0), width);
    if n < 1 {
        1
    } else {
        n
    }
}

proof fn lemma_rows_prefix(lines: Seq<Seq<char>>, more: Seq<Seq<char>>, width: nat)
    ensures
        rows(lines, width) <= rows(lines + more, width),
    decreases more.len(),
{
    if more.len() > 0 {
        lemma_rows_prefix(lines, more.drop_last(), width);
        assert((lines + more).drop_last() =~= lines + more.drop_last());
    }
}

proof fn lemma_utf8_len_concat(a: Seq<char>, b: Seq<char>)
    ensures
        utf8_len(a + b) == utf8_len(a) + utf8_len(b),
    decreases a.len(),
{
    if a.len() > 0 {
        lemma_utf8_len_concat(a.drop_first(), b);
        assert((a + b).drop_first() =~= a.drop_first() + b);
        assert((a + b)[0] == a[0]);
    } else {
        assert(a + b =~= b);
    }
}

fn utf8_width(c: char) -> (w: u128)
    ensures
        w == vstd::utf8::encode_scalar(c as u32).len(),
        1 <= w <= 4,
{
    proof {
        vstd::utf8::char_is_scalar(c);
    }
    let v = c as u32;
    if v <= 0x7f {
        1
    } else if v <= 0x7ff {
        2
    } else if v <= 0xffff {
        3
    } else {
        4
    }
}

/// Number of UTF-8 bytes of the characters.
fn utf8_len_of(v: &Vec<char>) -> (r: u128)
    ensures
        r == utf8_len(v@),
        r <= 4 * v@.len(),
{
    let mut total: u128 = 0;
    let mut i: usize = 0;
    while i < v.len()
        invariant
            i <= v.len(),
            total == utf8_len(v@.take(i as int)),
            total <= 4 * i,
        decreases v.len() - i,
    {
        let w = utf8_width(v[i]);
        proof {
            let x = v@[i as int];
            lemma_utf8_len_concat(v@.take(i as int), seq![x]);
            assert(v@.take(i + 1) =~= v@.take(i as int) + seq![x]);
            assert(seq![x].drop_first() =~= Seq::<char>::empty());
            assert(vstd::utf8::encode_utf8(seq![x]) =~= vstd::utf8::encode_scalar(x as u32)
                + vstd::utf8::encode_utf8(Seq::<char>::empty()));
        }
        total = total + w;
        i = i + 1;
    }
    assert(v@.take(v.len() as int) =~= v@);
    total
}

/// Counts the rows the text takes on a terminal `term_width` columns wide
/// (wrapped lines take several rows); at least one. A width of zero is only
/// meaningful for text made of empty lines.
pub fn count_display_lines(text: &str, term_width: usize) -> (r: usize)
    requires
        term_width > 0 || forall|k: int|
            0 <= k < pieces_from(text@, 0).len() ==> (#[trigger] pieces_from(text@, 0)[k]).len()
                == 0,
        rows(pieces_from(text@, 0), term_width as nat) <= usize::MAX,
    ensures
        r == display_rows(text@, term_width as nat),
{
    let s = chars_of(text);
    let mut nl: Vec<char> = Vec::new();
    nl.push('\n');
    let ghost total = pieces_from(s@, 0);
    let ghost mut seen: Seq<Seq<char>> = Seq::empty();
    let mut count: usize = 0;
    let mut pos: usize = 0;
    let mut more = true;
    while more
        invariant
            nl@ == seq!['\n'],
            term_width > 0 || forall|k: int|
                0 <= k < total.len() ==> (#[trigger] total[k]).len() == 0,
            s@ == text@,
            total == pieces_from(s@, 0),
            rows(total, term_width as nat) <= usize::MAX,
            more ==> pos <= s.len(),
            more ==> total == seen + pieces_from(s@, pos as int),
            !more ==> total == seen,
            count == rows(seen, term_width as nat),
        decreases (if more { s.len() + 1 - pos } else { 0 }),
    {
        proof {
            lemma_find_from_bounds(s@, seq!['\n'], pos as int);
        }
        let ghost old_pos = pos;
        let mut piece: Vec<char> = Vec::new();
        match find_chars_from(&s, &nl, pos) {
            Some(j) => {
                push_range(&mut piece, &s, pos, j);
                pos = j + 1;
            },
            None => {
                let n = s.len();
                push_range(&mut piece, &s, pos, n);
                assert(piece@ =~= s@.skip(old_pos as int));
                more = false;
            },
        }
        let bytes = utf8_len_of(&piece);
        proof {
            assert(pieces_from(s@, old_pos as int)[0] == piece@);
            assert(total[seen.len() as int] == piece@);
            assert(pieces_from(s@, old_pos as int) == seq![piece@] + (if more {
                pieces_from(s@, pos as int)
            } else {
                Seq::empty()
            }));
            assert(seen.push(piece@).drop_last() =~= seen);
            if more {
                assert(seen.push(piece@) + pieces_from(s@, pos as int) =~= seen + pieces_from(
                    s@,
                    old_pos as int,
                ));
            } else {
                assert(seen.push(piece@) =~= seen + pieces_from(s@, old_pos as int));
            }
            seen = seen.push(piece@);
            let rest = if more {
                pieces_from(s@, pos as int)
            } else {
                Seq::empty()
            };
            lemma_rows_prefix(seen, rest, term_width as nat);
            assert(seen + rest =~= total);
            if piece.len() > 0 {
                assert(term_width > 0);
                let e = vstd::utf8::encode_utf8(piece@);
                assert(e == vstd::utf8::encode_scalar(piece@[0] as u32) + vstd::utf8::encode_utf8(
                    piece@.drop_first(),
                ));
                vstd::utf8::char_is_scalar(piece@[0]);
                assert(vstd::utf8::encode_scalar(piece@[0] as u32).len() >= 1);
                assert(bytes >= 1);
                assert((bytes - 1) / (term_width as int) + 1 == (bytes + term_width - 1) / (
                term_width as int)) by (nonlinear_arith)
                    requires
                        bytes >= 1,
                        term_width > 0,
                ;
            }
        }
        let rows_wide: u128 = if piece.len() == 0 || term_width == 0 {
            1
        } else {
            (bytes - 1) / (term_width as u128) + 1
        };
        assert(rows_wide == line_rows(piece@, term_width as nat));
        let rows_here = rows_wide as usize;
        count = count + rows_here;
    }
    if count < 1 {
        1
    } else {
        count
    }
}

/// Most columns a separator spans.
pub const SEPARATOR_MAX: usize = 60;

/// The dim horizontal rule between turns, as wide as the terminal up to
/// `SEPARATOR_MAX` columns.
pub open spec fn separator_text(width: nat) -> Seq<char> {
    let n = if width < SEPARATOR_MAX {
        width
    } else {
        SEPARATOR_MAX as nat
    };
    "\x1b[2m"@ + Seq::new(n, |i: int| '\u{2500}') + "\x1b[0m"@
}

/// The separator line printed between turns.
pub fn separator_line(width: usize) -> (r: String)
    ensures
        r@ == separator_text(width as nat),
{
    let n = if width < SEPARATOR_MAX {
        width
    } else {
        SEPARATOR_MAX
    };
    let mut out: Vec<char> = Vec::new();
    push_str(&mut out, "\x1b[2m");
    let ghost start = out@;
    let mut i: usize = 0;
    while i < n
        invariant
            i <= n,
            out@ == start + Seq::new(i as nat, |k: int| '\u{2500}'),
        decreases n - i,
    {
        out.push('\u{2500}');
        i = i + 1;
        assert(Seq::new(i as nat, |k: int| '\u{2500}') =~= Seq::new(
            (i - 1) as nat,
            |k: int| '\u{2500}',
        ).push('\u{2500}'));
    }
    push_str(&mut out, "\x1b[0m");
    string_from_chars(&out)
}

/// Moves the cursor up over `n` printed lines, erasing each, then erases the
/// current line; nothing when `n` is zero.
pub open spec fn rewind_text(n: nat) -> Seq<char>
    decreases n,
{
    if n == 0 {
        Seq::empty()
    } else {
        rewind_lines(n) + "\x1b[2K\r"@
    }
}

/// `n` times: up one line and erase it.
pub open spec fn rewind_lines(n: nat) -> Seq<char>
    decreases n,
{
    if n == 0 {
        Seq::empty()
    } else {
        rewind_lines((n - 1) as nat) + "\x1b[A\x1b[2K"@
    }
}

/// The control sequence that clears the raw streamed text before the
/// formatted answer is printed over it.
pub fn rewind_output(lines_printed: usize) -> (r: String)
    ensures
        r@ == rewind_text(lines_printed as nat),
{
    let mut out: Vec<char> = Vec::new();
    if lines_printed > 0 {
        let mut i: usize = 0;
        while i < lines_printed
            invariant
                i <= lines_printed,
                out@ == rewind_lines(i as nat),
            decreases lines_printed - i,
        {
            push_str(&mut out, "\x1b[A\x1b[2K");
            i = i + 1;
        }
        push_str(&mut out, "\x1b[2K\r");
    }
    string_from_chars(&out)
}

} // verus!
