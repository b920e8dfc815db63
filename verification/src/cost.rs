//! Token usage across a session and its estimated price.
//!
//! Prices are exact integers in hundredths of a dollar per million tokens, so
//! a cost is an exact number of units of 10^-8 dollars. How numbers are shown
//! is left to the caller, which hands the shown figures to the layouts here.

use vstd::prelude::*;
use crate::text::{chars_of, contains, contains_chars, decimal, decimal_string, join, join_lines, pad_left, push_decimal, push_padded, push_str, string_from_chars, views};

verus! {

/// Tokens reported for one request. The API reports them across two events
/// (input and cache tokens at the start, output tokens at the end), each
/// leaving the others at zero.
#[derive(Debug, Clone, Copy, PartialEq, Eq, Structural)]
pub struct Usage {
    pub input_tokens: u64,
    pub output_tokens: u64,
    pub cache_read_input_tokens: u64,
    pub cache_creation_input_tokens: u64,
}

/// Token usage and turn count across a session.
pub struct CostTracker {
    pub total_input_tokens: u64,
    pub total_output_tokens: u64,
    pub total_cache_read_tokens: u64,
    pub total_cache_creation_tokens: u64,
    pub turns: usize,
    pub model: String,
}

/// Prices of a model in hundredths of a dollar per million tokens.
#[derive(Debug, Clone, Copy, PartialEq, Eq, Structural)]
pub struct ModelPricing {
    pub input: u64,
    pub output: u64,
    pub cache_read: u64,
    pub cache_write: u64,
}

/// The prices for a model name: Opus, Sonnet and Haiku by the first of these
/// words the name contains, Sonnet's for any other name.
pub open spec fn pricing_for(model: Seq<char>) -> ModelPricing {
    if contains(model, "opus"@) {
        ModelPricing { input: 1500, output: 7500, cache_read: 150, cache_write: 1875 }
    } else if contains(model, "sonnet"@) {
        ModelPricing { input: 300, output: 1500, cache_read: 30, cache_write: 375 }
    } else if contains(model, "haiku"@) {
        ModelPricing { input: 80, output: 400, cache_read: 8, cache_write: 100 }
    } else {
        ModelPricing { input: 300, output: 1500, cache_read: 30, cache_write: 375 }
    }
}

/// The prices for a model name.
pub fn model_pricing(model: &str) -> (p: ModelPricing)
    ensures
        p == pricing_for(model@),
{
    let m = chars_of(model);
    if contains_chars(&m, &chars_of("opus")) {
        ModelPricing { input: 1500, output: 7500, cache_read: 150, cache_write: 1875 }
    } else if contains_chars(&m, &chars_of("sonnet")) {
        ModelPricing { input: 300, output: 1500, cache_read: 30, cache_write: 375 }
    } else if contains_chars(&m, &chars_of("haiku")) {
        ModelPricing { input: 80, output: 400, cache_read: 8, cache_write: 100 }
    } else {
        ModelPricing { input: 300, output: 1500, cache_read: 30, cache_write: 375 }
    }
}

/// The sum of the four token totals.
pub open spec fn all_tokens(t: CostTracker) -> int {
    t.total_input_tokens + t.total_output_tokens + t.total_cache_read_tokens
        + t.total_cache_creation_tokens
}

/// The exact cost of the tokens counted, in 10^-8 dollars.
pub open spec fn cost_units_of(t: CostTracker) -> nat {
    let p = pricing_for(t.model@);
    (t.total_input_tokens * p.input + t.total_output_tokens * p.output + t.total_cache_read_tokens
        * p.cache_read + t.total_cache_creation_tokens * p.cache_write) as nat
}

/// Numbers of a breakdown as they are shown: token counts and the cost,
/// already formatted for display.
pub struct CostFigures {
    pub input: String,
    pub output: String,
    pub cache_read: String,
    pub cache_created: String,
    pub total: String,
    pub cost: String,
}

/// The one-line summary: turns, then the shown token total and cost.
pub open spec fn summary_text(turns: nat, tokens: Seq<char>, cost: Seq<char>) -> Seq<char> {
    decimal(turns) + (if turns == 1 {
        " turn"@
    } else {
        " turns"@
    }) + " \u{b7} "@ + tokens + " tokens \u{b7} $"@ + cost
}

/// The separator line of the detailed breakdown.
pub open spec fn detail_rule() -> Seq<char> {
    "  \x1b[2m\u{2500}\u{2500}\u{2500}\u{2500}\u{2500}\u{2500}\u{2500}\u{2500}\u{2500}\u{2500}\u{2500}\u{2500}\u{2500}\u{2500}\u{2500}\u{2500}\u{2500}\u{2500}\u{2500}\u{2500}\u{2500}\x1b[0m"@
}

/// A label followed by a value right-aligned in eight columns.
pub open spec fn labelled(label: Seq<char>, value: Seq<char>) -> Seq<char> {
    label + pad_left(value, 8)
}

/// The lines of the detailed breakdown of `t` showing the figures `f`; the
/// cache lines appear only for non-zero counts.
pub open spec fn detail_lines(t: CostTracker, f: CostFigures) -> Seq<Seq<char>> {
    seq![
        "  \x1b[1mSession Cost\x1b[0m"@,
        Seq::empty(),
        labelled("  Input tokens:    "@, f.input@),
        labelled("  Output tokens:   "@, f.output@),
    ] + (if t.total_cache_read_tokens > 0 {
        seq![labelled("  Cache read:      "@, f.cache_read@)]
    } else {
        Seq::empty()
    }) + (if t.total_cache_creation_tokens > 0 {
        seq![labelled("  Cache created:   "@, f.cache_created@)]
    } else {
        Seq::empty()
    }) + seq![
        detail_rule(),
        labelled("  Total:           "@, f.total@),
        labelled("  Turns:           "@, decimal(t.turns as nat)),
        "  Est. cost:       \x1b[1m$"@ + f.cost@ + "\x1b[0m"@,
        "  Model:           "@ + t.model@,
    ]
}

/// The detailed breakdown: its lines joined by newlines.
pub open spec fn detail_text(t: CostTracker, f: CostFigures) -> Seq<char> {
    join(detail_lines(t, f), seq!['\n'])
}

/// The totals after adding `u` to `t`; turns and model stay.
pub open spec fn added_usage(new: CostTracker, old: CostTracker, u: Usage) -> bool {
    &&& new.total_input_tokens == old.total_input_tokens + u.input_tokens
    &&& new.total_output_tokens == old.total_output_tokens + u.output_tokens
    &&& new.total_cache_read_tokens == old.total_cache_read_tokens + u.cache_read_input_tokens
    &&& new.total_cache_creation_tokens == old.total_cache_creation_tokens
        + u.cache_creation_input_tokens
    &&& new.turns == old.turns
    &&& new.model == old.model
}

/// `u` can be added to `t` without a total overflowing.
pub open spec fn can_add(t: CostTracker, u: Usage) -> bool {
    &&& t.total_input_tokens + u.input_tokens <= u64::MAX
    &&& t.total_output_tokens + u.output_tokens <= u64::MAX
    &&& t.total_cache_read_tokens + u.cache_read_input_tokens <= u64::MAX
    &&& t.total_cache_creation_tokens + u.cache_creation_input_tokens <= u64::MAX
}

fn priced(tokens: u64, price: u64) -> (r: u128)
    requires
        price <= 7500,
    ensures
        r == tokens * price,
        r <= (u64::MAX as int) * 7500,
{
    assert((tokens as int) * (price as int) <= (u64::MAX as int) * 7500) by (nonlinear_arith)
        requires
            tokens <= u64::MAX,
            price <= 7500,
    ;
    (tokens as u128) * (price as u128)
}

fn line_value(label: &str, value: &str) -> (r: String)
    ensures
        r@ == labelled(label@, value@),
{
    let mut out: Vec<char> = Vec::new();
    push_str(&mut out, label);
    push_padded(&mut out, &chars_of(value), 8);
    string_from_chars(&out)
}

fn text_of(s: &str) -> (r: String)
    ensures
        r@ == s@,
{
    s.to_owned()
}

impl CostTracker {
    /// A tracker for `model` with nothing counted.
    pub fn new(model: &str) -> (r: CostTracker)
        ensures
            r.total_input_tokens == 0,
            r.total_output_tokens == 0,
            r.total_cache_read_tokens == 0,
            r.total_cache_creation_tokens == 0,
            r.turns == 0,
            r.model@ == model@,
    {
        CostTracker {
            total_input_tokens: 0,
            total_output_tokens: 0,
            total_cache_read_tokens: 0,
            total_cache_creation_tokens: 0,
            turns: 0,
            model: model.to_owned(),
        }
    }

    /// Adds the tokens of one usage report to the totals.
    pub fn add_usage(&mut self, usage: &Usage)
        requires
            can_add(*old(self), *usage),
        ensures
            added_usage(*final(self), *old(self), *usage),
    {
        self.total_input_tokens = self.total_input_tokens + usage.input_tokens;
        self.total_output_tokens = self.total_output_tokens + usage.output_tokens;
        self.total_cache_read_tokens = self.total_cache_read_tokens + usage.cache_read_input_tokens;
        self.total_cache_creation_tokens = self.total_cache_creation_tokens
            + usage.cache_creation_input_tokens;
    }

    /// Counts one more turn.
    pub fn add_turn(&mut self)
        requires
            old(self).turns < usize::MAX,
        ensures
            final(self).turns == old(self).turns + 1,
            final(self).total_input_tokens == old(self).total_input_tokens,
            final(self).total_output_tokens == old(self).total_output_tokens,
            final(self).total_cache_read_tokens == old(self).total_cache_read_tokens,
            final(self).total_cache_creation_tokens == old(self).total_cache_creation_tokens,
            final(self).model == old(self).model,
    {
        self.turns = self.turns + 1;
    }

    /// All tokens counted, cache tokens included.
    pub fn total_tokens(&self) -> (r: u64)
        requires
            all_tokens(*self) <= u64::MAX,
        ensures
            r == all_tokens(*self),
    {
        self.total_input_tokens + self.total_output_tokens + self.total_cache_read_tokens
            + self.total_cache_creation_tokens
    }

    /// The exact cost of the tokens counted, in 10^-8 dollars.
    pub fn estimated_cost_units(&self) -> (r: u128)
        ensures
            r == cost_units_of(*self),
            r <= 4 * (u64::MAX as int) * 7500,
    {
        let p = model_pricing(self.model.as_str());
        assert(p.input <= 7500 && p.output <= 7500 && p.cache_read <= 7500 && p.cache_write <= 7500);
        let a = priced(self.total_input_tokens, p.input);
        let b = priced(self.total_output_tokens, p.output);
        let c = priced(self.total_cache_read_tokens, p.cache_read);
        let d = priced(self.total_cache_creation_tokens, p.cache_write);
        a + b + c + d
    }

    /// One line: turns, the total tokens `tokens` and the estimated cost
    /// `cost` in dollars, both as shown.
    pub fn summary(&self, tokens: &str, cost: &str) -> (r: String)
        ensures
            r@ == summary_text(self.turns as nat, tokens@, cost@),
    {
        let mut out: Vec<char> = Vec::new();
        push_decimal(&mut out, self.turns as u128);
        if self.turns == 1 {
            push_str(&mut out, " turn");
        } else {
            push_str(&mut out, " turns");
        }
        push_str(&mut out, " \u{b7} ");
        push_str(&mut out, tokens);
        push_str(&mut out, " tokens \u{b7} $");
        push_str(&mut out, cost);
        string_from_chars(&out)
    }

    /// The detailed breakdown shown on request, with the numbers shown as in
    /// `figures`.
    pub fn detail(&self, figures: &CostFigures) -> (r: String)
        ensures
            r@ == detail_text(*self, *figures),
    {
        let mut lines: Vec<String> = Vec::new();
        lines.push(text_of("  \x1b[1mSession Cost\x1b[0m"));
        lines.push(String::new());
        lines.push(line_value("  Input tokens:    ", figures.input.as_str()));
        lines.push(line_value("  Output tokens:   ", figures.output.as_str()));
        if self.total_cache_read_tokens > 0 {
            lines.push(line_value("  Cache read:      ", figures.cache_read.as_str()));
        }
        if self.total_cache_creation_tokens > 0 {
            lines.push(line_value("  Cache created:   ", figures.cache_created.as_str()));
        }
        lines.push(
            text_of(
                "  \x1b[2m\u{2500}\u{2500}\u{2500}\u{2500}\u{2500}\u{2500}\u{2500}\u{2500}\u{2500}\u{2500}\u{2500}\u{2500}\u{2500}\u{2500}\u{2500}\u{2500}\u{2500}\u{2500}\u{2500}\u{2500}\u{2500}\x1b[0m",
            ),
        );
        lines.push(line_value("  Total:           ", figures.total.as_str()));
        lines.push(line_value("  Turns:           ", decimal_string(self.turns as u128).as_str()));
        let mut cost: Vec<char> = Vec::new();
        push_str(&mut cost, "  Est. cost:       \x1b[1m$");
        push_str(&mut cost, figures.cost.as_str());
        push_str(&mut cost, "\x1b[0m");
        lines.push(string_from_chars(&cost));
        let mut model: Vec<char> = Vec::new();
        push_str(&mut model, "  Model:           ");
        push_str(&mut model, self.model.as_str());
        lines.push(string_from_chars(&model));
        assert(views(lines@) =~= detail_lines(*self, *figures));
        let out = join_lines(&lines);
        string_from_chars(&out)
    }
}

/// Adding two usage reports gives the same totals in either order: reports
/// arriving in separate events are counted once each, whatever their order.
pub proof fn law_usage_order_irrelevant(
    t: CostTracker,
    u1: Usage,
    u2: Usage,
    a1: CostTracker,
    a12: CostTracker,
    b2: CostTracker,
    b21: CostTracker,
)
    requires
        added_usage(a1, t, u1),
        added_usage(a12, a1, u2),
        added_usage(b2, t, u2),
        added_usage(b21, b2, u1),
    ensures
        a12 == b21,
{
}

/// After adding reports, the total is the old total plus every token of
/// every report.
pub proof fn law_total_counts_every_token(t: CostTracker, u: Usage, a: CostTracker)
    requires
        added_usage(a, t, u),
    ensures
        all_tokens(a) == all_tokens(t) + u.input_tokens + u.output_tokens
            + u.cache_read_input_tokens + u.cache_creation_input_tokens,
{
}

proof fn lemma_contains_at(s: Seq<char>, p: Seq<char>, w: Seq<char>, q: Seq<char>)
    ensures
        s == p + w + q ==> contains(s, w),
{
    if s == p + w + q {
        assert(s.subrange(p.len() as int, (p.len() + w.len()) as int) =~= w);
        assert(crate::text::occurs_at(s, w, p.len() as int));
    }
}

/// A word that shares no placement with `haiku` can only occur in
/// `p + "haiku" + q` inside `p` or inside `q`.
proof fn lemma_not_across_haiku(p: Seq<char>, q: Seq<char>, w: Seq<char>)
    requires
        w == "opus"@ || w == "sonnet"@,
        !contains(p + q, w),
    ensures
        !contains(p + "haiku"@ + q, w),
{
    reveal_strlit("opus");
    reveal_strlit("sonnet");
    reveal_strlit("haiku");
    let h = "haiku"@;
    let s = p + h + q;
    assert forall|i: int| !crate::text::occurs_at(s, w, i) by {
        if crate::text::occurs_at(s, w, i) {
            let n = p.len() as int;
            if i + w.len() <= n {
                assert(s.subrange(i, i + w.len()) =~= (p + q).subrange(i, i + w.len()));
                assert(crate::text::occurs_at(p + q, w, i));
            } else if i >= n + 5 {
                assert(s.subrange(i, i + w.len()) =~= (p + q).subrange(i - 5, i - 5 + w.len()));
                assert(crate::text::occurs_at(p + q, w, i - 5));
            } else {
                // Some character of the match falls on "haiku".
                let j = if i >= n { i } else { n };
                assert(n <= j < n + 5 && i <= j < i + w.len());
                assert(s[j] == h[j - n]);
                assert(s[j] == w[j - i]) by {
                    assert(s.subrange(i, i + w.len())[j - i] == s[j]);
                }
                if w == "opus"@ {
                    // Only 'u' is shared, at the end of "haiku" and third in "opus";
                    // the characters before them differ.
                    assert(j - n == 4 && j - i == 2) by {
                        assert(h[0] == 'h' && h[1] == 'a' && h[2] == 'i' && h[3] == 'k' && h[4] == 'u');
                        assert(w[0] == 'o' && w[1] == 'p' && w[2] == 'u' && w[3] == 's');
                    }
                    assert(s[j - 1] == h[3]);
                    assert(s[j - 1] == w[1]) by {
                        assert(s.subrange(i, i + w.len())[1] == s[i + 1]);
                    }
                } else {
                    assert(h[0] == 'h' && h[1] == 'a' && h[2] == 'i' && h[3] == 'k' && h[4] == 'u');
                    assert(w[0] == 's' && w[1] == 'o' && w[2] == 'n' && w[3] == 'n' && w[4] == 'e'
                        && w[5] == 't');
                }
            }
        }
    }
}

/// A model is priced by the family word anywhere in its name, not only at
/// its start: a name holding `opus` gets Opus prices; one holding `sonnet`
/// and not `opus` gets Sonnet prices; one holding `haiku` and neither of the
/// others (for example a dated, prefixed Haiku name) gets Haiku prices,
/// $0.80 and $4 per million input and output tokens.
pub proof fn law_pricing_by_family_word(p: Seq<char>, q: Seq<char>)
    ensures
        pricing_for(p + "opus"@ + q) == (ModelPricing {
            input: 1500,
            output: 7500,
            cache_read: 150,
            cache_write: 1875,
        }),
        !contains(p + "sonnet"@ + q, "opus"@) ==> pricing_for(p + "sonnet"@ + q) == (ModelPricing {
            input: 300,
            output: 1500,
            cache_read: 30,
            cache_write: 375,
        }),
        !contains(p + q, "opus"@) && !contains(p + q, "sonnet"@) ==> pricing_for(p + "haiku"@ + q)
            == (ModelPricing { input: 80, output: 400, cache_read: 8, cache_write: 100 }),
{
    lemma_contains_at(p + "opus"@ + q, p, "opus"@, q);
    lemma_contains_at(p + "sonnet"@ + q, p, "sonnet"@, q);
    lemma_contains_at(p + "haiku"@ + q, p, "haiku"@, q);
    if !contains(p + q, "opus"@) && !contains(p + q, "sonnet"@) {
        lemma_not_across_haiku(p, q, "opus"@);
        lemma_not_across_haiku(p, q, "sonnet"@);
    }
}

} // verus!
