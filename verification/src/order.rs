//! Lexicographic order on text and a verified sort of strings.

use vstd::prelude::*;
use vstd::multiset::Multiset;
use crate::text::chars_of;

verus! {

broadcast use vstd::seq_lib::group_to_multiset_ensures, vstd::multiset::group_multiset_axioms;

/// `a` sorts strictly before `b`, comparing characters by code point (the
/// order of `String`'s `Ord`, which compares UTF-8 bytes).
pub open spec fn lex_lt(a: Seq<char>, b: Seq<char>) -> bool
    decreases a.len(),
{
    if b.len() == 0 {
        false
    } else if a.len() == 0 {
        true
    } else if a[0] != b[0] {
        (a[0] as u32) < (b[0] as u32)
    } else {
        lex_lt(a.drop_first(), b.drop_first())
    }
}

/// `s` is in non-decreasing lexicographic order.
pub open spec fn lex_sorted(s: Seq<String>) -> bool {
    forall|i: int, j: int| 0 <= i < j < s.len() ==> !lex_lt(#[trigger] s[j]@, #[trigger] s[i]@)
}

proof fn lemma_char_u32_injective(a: char, b: char)
    ensures
        (a as u32) == (b as u32) ==> a == b,
{
    vstd::utf8::char_u32_cast(a, a as u32);
    vstd::utf8::char_u32_cast(b, b as u32);
}

proof fn lemma_lex_irreflexive(a: Seq<char>)
    ensures
        !lex_lt(a, a),
    decreases a.len(),
{
    if a.len() > 0 {
        lemma_lex_irreflexive(a.drop_first());
    }
}

proof fn lemma_lex_asymmetric(a: Seq<char>, b: Seq<char>)
    ensures
        lex_lt(a, b) ==> !lex_lt(b, a),
    decreases a.len(),
{
    if a.len() > 0 && b.len() > 0 {
        lemma_char_u32_injective(a[0], b[0]);
        lemma_lex_asymmetric(a.drop_first(), b.drop_first());
    }
}

proof fn lemma_lex_total(a: Seq<char>, b: Seq<char>)
    ensures
        a != b ==> lex_lt(a, b) || lex_lt(b, a),
    decreases a.len(),
{
    if a.len() > 0 && b.len() > 0 {
        lemma_char_u32_injective(a[0], b[0]);
        lemma_lex_total(a.drop_first(), b.drop_first());
        if a != b && a[0] == b[0] {
            assert(a =~= seq![a[0]] + a.drop_first());
            assert(b =~= seq![b[0]] + b.drop_first());
        }
    } else if a.len() == 0 && b.len() == 0 {
        assert(a =~= b);
    }
}

proof fn lemma_lex_transitive(a: Seq<char>, b: Seq<char>, c: Seq<char>)
    ensures
        lex_lt(a, b) && lex_lt(b, c) ==> lex_lt(a, c),
    decreases a.len(),
{
    if a.len() > 0 && b.len() > 0 && c.len() > 0 {
        lemma_char_u32_injective(a[0], b[0]);
        lemma_char_u32_injective(b[0], c[0]);
        lemma_char_u32_injective(a[0], c[0]);
        lemma_lex_transitive(a.drop_first(), b.drop_first(), c.drop_first());
    }
}

/// Strict lexicographic order is irreflexive and transitive, and any two
/// distinct texts are ordered one way or the other.
pub proof fn lemma_lex_order(a: Seq<char>, b: Seq<char>, c: Seq<char>)
    ensures
        !lex_lt(a, a),
        lex_lt(a, b) ==> !lex_lt(b, a),
        a != b ==> lex_lt(a, b) || lex_lt(b, a),
        lex_lt(a, b) && lex_lt(b, c) ==> lex_lt(a, c),
{
    lemma_lex_irreflexive(a);
    lemma_lex_asymmetric(a, b);
    lemma_lex_total(a, b);
    lemma_lex_transitive(a, b, c);
}

/// Whether `a` sorts strictly before `b`.
pub fn lex_less(a: &Vec<char>, b: &Vec<char>) -> (r: bool)
    ensures
        r == lex_lt(a@, b@),
{
    let mut i: usize = 0;
    assert(a@.skip(0) == a@ && b@.skip(0) == b@);
    loop
        invariant
            i <= a.len(),
            i <= b.len(),
            lex_lt(a@, b@) == lex_lt(a@.skip(i as int), b@.skip(i as int)),
        decreases a.len() - i,
    {
        if i == b.len() {
            return false;
        }
        if i == a.len() {
            return true;
        }
        if a[i] != b[i] {
            return (a[i] as u32) < (b[i] as u32);
        }
        assert(a@.skip(i as int).drop_first() =~= a@.skip(i + 1));
        assert(b@.skip(i as int).drop_first() =~= b@.skip(i + 1));
        i = i + 1;
    }
}

/// Sorts strings into lexicographic order (the order `Vec<String>::sort`
/// produces): the result holds the same strings, each as often, in order.
pub fn sort_strings(v: Vec<String>) -> (r: Vec<String>)
    ensures
        r@.to_multiset() == v@.to_multiset(),
        lex_sorted(r@),
{
    let ghost orig = v@;
    let mut rest = v;
    let mut out: Vec<String> = Vec::new();
    while rest.len() > 0
        invariant
            out@.to_multiset().add(rest@.to_multiset()) == orig.to_multiset(),
            lex_sorted(out@),
            forall|i: int, j: int|
                0 <= i < out.len() && 0 <= j < rest.len() ==> !lex_lt(
                    #[trigger] rest@[j]@,
                    #[trigger] out@[i]@,
                ),
        decreases rest.len(),
    {
        let mut m: usize = 0;
        let mut best = chars_of(rest[0].as_str());
        let mut k: usize = 1;
        proof {
            lemma_lex_irreflexive(rest@[0]@);
        }
        while k < rest.len()
            invariant
                0 <= m < k <= rest.len(),
                best@ == rest@[m as int]@,
                forall|j: int| 0 <= j < k ==> !lex_lt(#[trigger] rest@[j]@, rest@[m as int]@),
            decreases rest.len() - k,
        {
            let cand = chars_of(rest[k].as_str());
            if lex_less(&cand, &best) {
                proof {
                    assert forall|j: int| 0 <= j < k implies !lex_lt(
                        #[trigger] rest@[j]@,
                        rest@[k as int]@,
                    ) by {
                        lemma_lex_order(rest@[j]@, rest@[m as int]@, rest@[k as int]@);
                        lemma_lex_order(rest@[k as int]@, rest@[m as int]@, rest@[j]@);
                        lemma_lex_order(rest@[j]@, rest@[k as int]@, rest@[m as int]@);
                    }
                    lemma_lex_order(rest@[k as int]@, rest@[k as int]@, rest@[k as int]@);
                }
                m = k;
                best = cand;
            }
            k = k + 1;
        }
        let ghost old_rest = rest@;
        let ghost old_out = out@;
        let x = rest.remove(m);
        proof {
            assert(old_rest.remove(m as int).to_multiset() == old_rest.to_multiset().remove(x));
            assert(old_rest.to_multiset().count(x) > 0) by {
                assert(old_rest.contains(x));
            }
        }
        out.push(x);
        proof {
            assert(out@.to_multiset() == old_out.to_multiset().insert(x));
            assert(out@.to_multiset().add(rest@.to_multiset()) =~= orig.to_multiset());
            assert forall|i: int, j: int| 0 <= i < j < out.len() implies !lex_lt(
                #[trigger] out@[j]@,
                #[trigger] out@[i]@,
            ) by {
                if j == out.len() - 1 {
                    assert(out@[j] == old_rest[m as int]);
                    assert(out@[i] == old_out[i]);
                } else {
                    assert(out@[j] == old_out[j] && out@[i] == old_out[i]);
                }
            }
            assert forall|i: int, j: int|
                0 <= i < out.len() && 0 <= j < rest.len() implies !lex_lt(
                #[trigger] rest@[j]@,
                #[trigger] out@[i]@,
            ) by {
                let jj = if j < m { j } else { j + 1 };
                assert(rest@[j] == old_rest[jj]);
                if i < old_out.len() {
                    assert(out@[i] == old_out[i]);
                } else {
                    assert(out@[i] == old_rest[m as int]);
                }
            }
        }
    }
    proof {
        assert(rest@.to_multiset() =~= Multiset::empty());
        assert(out@.to_multiset().add(Multiset::empty()) =~= out@.to_multiset());
    }
    out
}

} // verus!
