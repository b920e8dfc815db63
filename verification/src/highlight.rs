//! Syntax highlighting of code for the terminal, with syntect.

use vstd::prelude::*;
use syntect::easy::HighlightLines;
use syntect::highlighting::Theme;
use syntect::parsing::{SyntaxReference, SyntaxSet};
use crate::text::{lemma_find_from_bounds, chars_of, find_chars_from, find_from, push_range, push_str, string_from_chars};

verus! {

/// `syntect::parsing::SyntaxSet`, carried opaquely.
#[verifier::external_type_specification]
#[verifier::external_body]
pub struct ExSyntaxSet(SyntaxSet);

/// `syntect::parsing::SyntaxReference`, carried opaquely.
#[verifier::external_type_specification]
#[verifier::external_body]
pub struct ExSyntaxReference(SyntaxReference);

/// `syntect::highlighting::Theme`, carried opaquely.
#[verifier::external_type_specification]
#[verifier::external_body]
pub struct ExTheme(Theme);

/// `syntect::easy::HighlightLines`, carried opaquely.
#[verifier::external_type_specification]
#[verifier::external_body]
pub struct ExHighlightLines<'a>(HighlightLines<'a>);

/// How the syntax of a code block was found.
#[derive(Debug, Clone, Copy, PartialEq, Eq, Structural)]
pub enum SyntaxLookup {
    /// By the language token (`SyntaxSet::find_syntax_by_token`).
    ByToken,
    /// By file extension (`SyntaxSet::find_syntax_by_extension`).
    ByExtension,
    /// The plain-text syntax (`SyntaxSet::find_syntax_plain_text`).
    PlainText,
}

/// Whether `find_syntax_by_token` finds a syntax for `token` among syntect's
/// default syntaxes.
pub uninterp spec fn token_finds_syntax(token: Seq<char>) -> bool;

/// Whether `find_syntax_by_extension` finds a syntax for `extension` among
/// syntect's default syntaxes.
pub uninterp spec fn extension_finds_syntax(extension: Seq<char>) -> bool;

/// Whether syntect's default themes hold one named `name`.
pub uninterp spec fn theme_exists(name: Seq<char>) -> bool;

/// What syntect makes of `line` (`HighlightLines::highlight_line`, rendered by
/// `as_24_bit_terminal_escaped` without background): the syntax being the one
/// found by `lookup` for `key` among the default syntaxes, the theme the
/// default theme named `theme`, and the lines `before` highlighted first with
/// the same highlighter. `None` when syntect reports an error.
pub uninterp spec fn escaped_line(
    lookup: SyntaxLookup,
    key: Seq<char>,
    theme: Seq<char>,
    before: Seq<Seq<char>>,
    line: Seq<char>,
) -> Option<Seq<char>>;

/// syntect's default syntax definitions.
pub struct Syntaxes {
    set: SyntaxSet,
}

/// One of syntect's default themes, with its name.
pub struct NamedTheme {
    theme: Theme,
    name: Ghost<Seq<char>>,
}

impl NamedTheme {
    /// The theme's name.
    pub closed spec fn name(&self) -> Seq<char> {
        self.name@
    }
}

/// A syntax of the default set, with the way it was found.
pub struct ChosenSyntax<'a> {
    syntax: &'a SyntaxReference,
    lookup: Ghost<SyntaxLookup>,
    key: Ghost<Seq<char>>,
}

impl<'a> ChosenSyntax<'a> {
    /// How the syntax was found.
    pub closed spec fn lookup(&self) -> SyntaxLookup {
        self.lookup@
    }

    /// The token or extension it was found by (empty for plain text).
    pub closed spec fn key(&self) -> Seq<char> {
        self.key@
    }
}

/// A highlighter for one code block, with the lines it has been given.
pub struct LineHighlighter<'a> {
    h: HighlightLines<'a>,
    lookup: Ghost<SyntaxLookup>,
    key: Ghost<Seq<char>>,
    theme: Ghost<Seq<char>>,
    seen: Ghost<Seq<Seq<char>>>,
}

impl<'a> LineHighlighter<'a> {
    /// How its syntax was found.
    pub closed spec fn lookup(&self) -> SyntaxLookup {
        self.lookup@
    }

    /// The token or extension its syntax was found by.
    pub closed spec fn key(&self) -> Seq<char> {
        self.key@
    }

    /// The name of its theme.
    pub closed spec fn theme(&self) -> Seq<char> {
        self.theme@
    }

    /// The lines highlighted so far, in order.
    pub closed spec fn seen(&self) -> Seq<Seq<char>> {
        self.seen@
    }
}

/// syntect's default syntax definitions (`SyntaxSet::load_defaults_newlines`).
#[verifier::external_body]
fn default_syntaxes() -> Syntaxes {
    Syntaxes { set: SyntaxSet::load_defaults_newlines() }
}

/// The default theme named `name`, if there is one (`ThemeSet::load_defaults`,
/// taken out of its map by name).
#[verifier::external_body]
fn default_theme(name: &str) -> (r: Option<NamedTheme>)
    ensures
        r is Some == theme_exists(name@),
        r matches Some(t) ==> t.name() == name@,
{
    match syntect::highlighting::ThemeSet::load_defaults().themes.remove(name) {
        Some(theme) => Some(NamedTheme { theme, name: Ghost(name@) }),
        None => None,
    }
}

/// The syntax a language token names (`SyntaxSet::find_syntax_by_token`).
#[verifier::external_body]
fn syntax_by_token<'a>(ss: &'a Syntaxes, token: &str) -> (r: Option<ChosenSyntax<'a>>)
    ensures
        r is Some == token_finds_syntax(token@),
        r matches Some(c) ==> c.lookup() == SyntaxLookup::ByToken && c.key() == token@,
{
    match ss.set.find_syntax_by_token(token) {
        Some(syntax) => Some(
            ChosenSyntax { syntax, lookup: Ghost(SyntaxLookup::ByToken), key: Ghost(token@) },
        ),
        None => None,
    }
}

/// The syntax for a file extension (`SyntaxSet::find_syntax_by_extension`).
#[verifier::external_body]
fn syntax_by_extension<'a>(ss: &'a Syntaxes, extension: &str) -> (r: Option<ChosenSyntax<'a>>)
    ensures
        r is Some == extension_finds_syntax(extension@),
        r matches Some(c) ==> c.lookup() == SyntaxLookup::ByExtension && c.key() == extension@,
{
    match ss.set.find_syntax_by_extension(extension) {
        Some(syntax) => Some(
            ChosenSyntax { syntax, lookup: Ghost(SyntaxLookup::ByExtension), key: Ghost(extension@) },
        ),
        None => None,
    }
}

/// The plain-text syntax (`SyntaxSet::find_syntax_plain_text`), which the
/// default set holds.
#[verifier::external_body]
fn plain_text_syntax<'a>(ss: &'a Syntaxes) -> (r: ChosenSyntax<'a>)
    ensures
        r.lookup() == SyntaxLookup::PlainText,
        r.key() == Seq::<char>::empty(),
{
    ChosenSyntax {
        syntax: ss.set.find_syntax_plain_text(),
        lookup: Ghost(SyntaxLookup::PlainText),
        key: Ghost(Seq::empty()),
    }
}

/// A highlighter for a syntax and theme (`HighlightLines::new`), with no line
/// given yet.
#[verifier::external_body]
fn highlighter<'a>(syntax: &ChosenSyntax, theme: &'a NamedTheme) -> (r: LineHighlighter<'a>)
    ensures
        r.lookup() == syntax.lookup(),
        r.key() == syntax.key(),
        r.theme() == theme.name(),
        r.seen() == Seq::<Seq<char>>::empty(),
{
    LineHighlighter {
        h: HighlightLines::new(syntax.syntax, &theme.theme),
        lookup: Ghost(syntax.lookup@),
        key: Ghost(syntax.key@),
        theme: Ghost(theme.name@),
        seen: Ghost(Seq::empty()),
    }
}

/// Highlights the next line (`HighlightLines::highlight_line`) and renders its
/// styled pieces with 24-bit terminal colours (`as_24_bit_terminal_escaped`,
/// without background); `None` when syntect reports an error. The result is
/// syntect's for that syntax, theme and the lines given before.
#[verifier::external_body]
fn highlight_next(hl: &mut LineHighlighter, line: &str, ss: &Syntaxes) -> (r: Option<String>)
    ensures
        r is Some == escaped_line(old(hl).lookup(), old(hl).key(), old(hl).theme(), old(hl).seen(), line@) is Some,
        r matches Some(e) ==> e@ == escaped_line(old(hl).lookup(), old(hl).key(), old(hl).theme(), old(hl).seen(), line@)->0,
        final(hl).seen() == old(hl).seen().push(line@),
        final(hl).lookup() == old(hl).lookup(),
        final(hl).key() == old(hl).key(),
        final(hl).theme() == old(hl).theme(),
{
    let r = match hl.h.highlight_line(line, &ss.set) {
        Ok(ranges) => Some(syntect::util::as_24_bit_terminal_escaped(&ranges[..], false)),
        Err(_) => None,
    };
    hl.seen = Ghost(hl.seen@.push(line@));
    r
}

/// The lines of `s` from `pos` on, each with its newline (as syntect's
/// `LinesWithEndings`): split after each newline, with a last piece without
/// newline when the text does not end with one.
pub open spec fn lines_with_endings_from(s: Seq<char>, pos: int) -> Seq<Seq<char>>
    decreases s.len() - pos,
{
    if pos < 0 || pos >= s.len() {
        Seq::empty()
    } else {
        match find_from(s, seq!['\n'], pos) {
            Some(j) => if pos <= j && j < s.len() {
                seq![s.subrange(pos, j + 1)] + lines_with_endings_from(s, j + 1)
            } else {
                Seq::empty()
            },
            None => seq![s.skip(pos)],
        }
    }
}

/// The concatenation of the pieces.
pub open spec fn flatten(pieces: Seq<Seq<char>>) -> Seq<char>
    decreases pieces.len(),
{
    if pieces.len() == 0 {
        Seq::empty()
    } else {
        flatten(pieces.drop_last()) + pieces.last()
    }
}

/// The sequence that resets the terminal's colours.
pub open spec fn color_reset() -> Seq<char> {
    "\x1b[0m"@
}

/// The lines of `s`, each with its newline.
pub fn lines_with_endings(s: &str) -> (r: Vec<String>)
    ensures
        r@.map_values(|x: String| x@) == lines_with_endings_from(s@, 0),
{
    let v = chars_of(s);
    let mut nl: Vec<char> = Vec::new();
    nl.push('\n');
    let mut out: Vec<String> = Vec::new();
    let mut pos: usize = 0;
    while pos < v.len()
        invariant
            pos <= v.len(),
            nl@ == seq!['\n'],
            v@ == s@,
            lines_with_endings_from(v@, 0) == out@.map_values(|x: String| x@)
                + lines_with_endings_from(v@, pos as int),
        decreases v.len() - pos,
    {
        proof {
            lemma_find_from_bounds(v@, seq!['\n'], pos as int);
        }
        let ghost old_pos = pos;
        let mut line: Vec<char> = Vec::new();
        match find_chars_from(&v, &nl, pos) {
            Some(j) => {
                push_range(&mut line, &v, pos, j + 1);
                pos = j + 1;
            },
            None => {
                let n = v.len();
                push_range(&mut line, &v, pos, n);
                assert(line@ =~= v@.skip(old_pos as int));
                pos = n;
            },
        }
        let ghost before = out@.map_values(|x: String| x@);
        out.push(string_from_chars(&line));
        proof {
            assert(lines_with_endings_from(v@, old_pos as int) == seq![line@]
                + lines_with_endings_from(v@, pos as int));
            assert(out@.map_values(|x: String| x@) =~= before.push(line@));
            assert(before.push(line@) + lines_with_endings_from(v@, pos as int) =~= before + (
            seq![line@] + lines_with_endings_from(v@, pos as int)));
        }
    }
    proof {
        assert(lines_with_endings_from(v@, pos as int) =~= Seq::<Seq<char>>::empty());
        assert(out@.map_values(|x: String| x@) + Seq::<Seq<char>>::empty() =~= out@.map_values(
            |x: String| x@,
        ));
    }
    out
}

/// The theme code is shown in.
pub open spec fn code_theme() -> Seq<char> {
    "base16-ocean.dark"@
}

/// How the syntax for `lang` is found: as a token, else as an extension,
/// else plain text.
pub open spec fn chosen_lookup(lang: Seq<char>) -> SyntaxLookup {
    if token_finds_syntax(lang) {
        SyntaxLookup::ByToken
    } else if extension_finds_syntax(lang) {
        SyntaxLookup::ByExtension
    } else {
        SyntaxLookup::PlainText
    }
}

/// The key the syntax for `lang` is found by.
pub open spec fn chosen_key(lang: Seq<char>) -> Seq<char> {
    if chosen_lookup(lang) == SyntaxLookup::PlainText {
        Seq::empty()
    } else {
        lang
    }
}

/// Line `i` as shown: syntect's colouring of it after the lines before it,
/// or the line itself where syntect fails.
pub open spec fn shown_line(lang: Seq<char>, lines: Seq<Seq<char>>, i: int) -> Seq<char> {
    match escaped_line(chosen_lookup(lang), chosen_key(lang), code_theme(), lines.take(i), lines[i]) {
        Some(e) => e,
        None => lines[i],
    }
}

/// The lines of `code` as shown.
pub open spec fn shown_lines(code: Seq<char>, lang: Seq<char>) -> Seq<Seq<char>> {
    let lines = lines_with_endings_from(code, 0);
    Seq::new(lines.len(), |i: int| shown_line(lang, lines, i))
}

/// The highlighted code: each line as shown (the code as it is when the
/// theme is missing), then the colour reset.
pub open spec fn highlighted_text(code: Seq<char>, lang: Seq<char>) -> Seq<char> {
    (if theme_exists(code_theme()) {
        flatten(shown_lines(code, lang))
    } else {
        code
    }) + color_reset()
}

/// Syntax-highlights code and returns the coloured text. The language is
/// looked up as a token, then as a file extension, else plain text is used;
/// each line is coloured, or kept as it is when syntect fails on it; the
/// colours are reset at the end.
pub fn highlight_code(code: &str, lang: &str) -> (r: String)
    ensures
        r@ == highlighted_text(code@, lang@),
{
    let ss = default_syntaxes();
    let theme = match default_theme("base16-ocean.dark") {
        Some(t) => t,
        None => {
            let mut out: Vec<char> = chars_of(code);
            push_str(&mut out, "\x1b[0m");
            return string_from_chars(&out);
        },
    };
    let syntax = match syntax_by_token(&ss, lang) {
        Some(s) => s,
        None => match syntax_by_extension(&ss, lang) {
            Some(s) => s,
            None => plain_text_syntax(&ss),
        },
    };
    let mut h = highlighter(&syntax, &theme);
    let lines = lines_with_endings(code);
    let ghost total = lines_with_endings_from(code@, 0);
    let ghost pieces = shown_lines(code@, lang@);
    let mut out: Vec<char> = Vec::new();
    let mut i: usize = 0;
    assert(total.take(0) =~= Seq::<Seq<char>>::empty());
    assert(pieces.take(0) =~= Seq::<Seq<char>>::empty());
    while i < lines.len()
        invariant
            i <= lines.len(),
            lines@.map_values(|x: String| x@) == total,
            total == lines_with_endings_from(code@, 0),
            pieces == shown_lines(code@, lang@),
            h.lookup() == chosen_lookup(lang@),
            h.key() == chosen_key(lang@),
            h.theme() == code_theme(),
            h.seen() == total.take(i as int),
            out@ == flatten(pieces.take(i as int)),
        decreases lines.len() - i,
    {
        let ghost before = out@;
        assert(total[i as int] == lines@[i as int]@);
        match highlight_next(&mut h, lines[i].as_str(), &ss) {
            Some(escaped) => {
                push_str(&mut out, escaped.as_str());
            },
            None => {
                push_str(&mut out, lines[i].as_str());
            },
        }
        proof {
            assert(pieces[i as int] == shown_line(lang@, total, i as int));
            assert(pieces.take(i + 1).drop_last() =~= pieces.take(i as int));
            assert(pieces.take(i + 1).last() == pieces[i as int]);
            assert(total.take(i as int).push(total[i as int]) =~= total.take(i + 1));
        }
        i = i + 1;
    }
    assert(pieces.take(i as int) =~= pieces);
    push_str(&mut out, "\x1b[0m");
    string_from_chars(&out)
}

proof fn lemma_flatten_prepend(x: Seq<char>, rest: Seq<Seq<char>>)
    ensures
        flatten(seq![x] + rest) == x + flatten(rest),
    decreases rest.len(),
{
    if rest.len() == 0 {
        assert(seq![x] + rest =~= seq![x]);
        assert(seq![x].drop_last() =~= Seq::<Seq<char>>::empty());
        assert(x + flatten(rest) =~= x);
        assert(flatten(Seq::<Seq<char>>::empty()) + x =~= x);
    } else {
        lemma_flatten_prepend(x, rest.drop_last());
        assert((seq![x] + rest).drop_last() =~= seq![x] + rest.drop_last());
        assert((seq![x] + rest).last() == rest.last());
        assert(x + flatten(rest.drop_last()) + rest.last() =~= x + (flatten(rest.drop_last())
            + rest.last()));
    }
}

proof fn lemma_lines_rejoin_from(s: Seq<char>, pos: int)
    requires
        0 <= pos <= s.len(),
    ensures
        flatten(lines_with_endings_from(s, pos)) == s.skip(pos),
    decreases s.len() - pos,
{
    if pos == s.len() {
        assert(s.skip(pos) =~= Seq::<char>::empty());
    } else {
        lemma_find_from_bounds(s, seq!['\n'], pos);
        match find_from(s, seq!['\n'], pos) {
            Some(j) => {
                lemma_lines_rejoin_from(s, j + 1);
                lemma_flatten_prepend(s.subrange(pos, j + 1), lines_with_endings_from(s, j + 1));
                assert(s.subrange(pos, j + 1) + s.skip(j + 1) =~= s.skip(pos));
            },
            None => {
                let one = seq![s.skip(pos)];
                assert(one.drop_last() =~= Seq::<Seq<char>>::empty());
                assert(flatten(Seq::<Seq<char>>::empty()) + s.skip(pos) =~= s.skip(pos));
            },
        }
    }
}

/// Joining the lines that `lines_with_endings` cuts a text into gives the
/// text back.
pub proof fn law_lines_with_endings_rejoin(s: Seq<char>)
    ensures
        flatten(lines_with_endings_from(s, 0)) == s,
{
    lemma_lines_rejoin_from(s, 0);
    assert(s.skip(0) =~= s);
}

/// The language of a code block is looked up as syntect's token first: when
/// syntect finds a syntax for it as a token, that syntax colours the code;
/// only when it does not is the language tried as a file extension, and only
/// when that fails too is the code treated as plain text. With the theme
/// present, each line is the colouring under the syntax so found.
pub proof fn law_token_syntax_comes_first(code: Seq<char>, lang: Seq<char>)
    ensures
        token_finds_syntax(lang) ==> chosen_lookup(lang) == SyntaxLookup::ByToken && chosen_key(
            lang,
        ) == lang,
        !token_finds_syntax(lang) && extension_finds_syntax(lang) ==> chosen_lookup(lang)
            == SyntaxLookup::ByExtension && chosen_key(lang) == lang,
        !token_finds_syntax(lang) && !extension_finds_syntax(lang) ==> chosen_lookup(lang)
            == SyntaxLookup::PlainText,
        theme_exists(code_theme()) && token_finds_syntax(lang) ==> forall|i: int|
            0 <= i < lines_with_endings_from(code, 0).len() ==> #[trigger] shown_lines(code, lang)[i]
                == (match escaped_line(
                SyntaxLookup::ByToken,
                lang,
                code_theme(),
                lines_with_endings_from(code, 0).take(i),
                lines_with_endings_from(code, 0)[i],
            ) {
                Some(e) => e,
                None => lines_with_endings_from(code, 0)[i],
            }),
{
}

} // verus!
