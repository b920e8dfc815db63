//! JSON values as plain data, parsed by serde_json, with verified lookups.

use vstd::prelude::*;
use crate::text::{chars_of, chars_eq};

verus! {

/// `serde_json::Value`, carried opaquely into the one call that parses text.
#[verifier::external_type_specification]
#[verifier::external_body]
pub struct ExSerdeJsonValue(serde_json::Value);

/// A JSON document. Numbers keep the text serde_json prints for them;
/// objects keep their members in the order serde_json's map yields them.
#[derive(Debug)]
pub enum JsonValue {
    Null,
    Bool(bool),
    Number(String),
    Str(String),
    Array(Vec<JsonValue>),
    Object(Vec<(String, JsonValue)>),
}

/// What `serde_json::from_str::<serde_json::Value>` makes of `text`: `None`
/// when it rejects the text, else the parsed document.
pub uninterp spec fn json_parse(text: Seq<char>) -> Option<JsonValue>;

/// Parses JSON text with serde_json (`serde_json::from_str` into
/// `serde_json::Value`). The contract only ties the result to the text through
/// the name `json_parse`; which texts are valid JSON, and what they denote, is
/// serde_json's and is not restated here.
#[verifier::external_body]
pub(crate) fn parse_json(text: &str) -> (r: Option<JsonValue>)
    ensures
        r == json_parse(text@),
{
    serde_json::from_str::<serde_json::Value>(text).ok().map(from_serde)
}

/// One-for-one conversion of a serde_json value into a `JsonValue`.
#[verifier::external_body]
fn from_serde(v: serde_json::Value) -> JsonValue {
    match v {
        serde_json::Value::Null => JsonValue::Null,
        serde_json::Value::Bool(b) => JsonValue::Bool(b),
        serde_json::Value::Number(n) => JsonValue::Number(n.to_string()),
        serde_json::Value::String(s) => JsonValue::Str(s),
        serde_json::Value::Array(a) => JsonValue::Array(a.into_iter().map(from_serde).collect()),
        serde_json::Value::Object(m) => JsonValue::Object(
            m.into_iter().map(|(k, v)| (k, from_serde(v))).collect(),
        ),
    }
}

/// The value of the first member named `key`.
pub open spec fn lookup(entries: Seq<(String, JsonValue)>, key: Seq<char>) -> Option<JsonValue>
    decreases entries.len(),
{
    if entries.len() == 0 {
        None
    } else if entries[0].0@ == key {
        Some(entries[0].1)
    } else {
        lookup(entries.drop_first(), key)
    }
}

/// Index of the first member named `key`.
pub open spec fn lookup_index(entries: Seq<(String, JsonValue)>, key: Seq<char>, from: int) -> Option<int>
    decreases entries.len() - from,
{
    if from < 0 || from >= entries.len() {
        None
    } else if entries[from].0@ == key {
        Some(from)
    } else {
        lookup_index(entries, key, from + 1)
    }
}

proof fn lemma_lookup_index(entries: Seq<(String, JsonValue)>, key: Seq<char>, from: int)
    requires
        0 <= from <= entries.len(),
    ensures
        lookup(entries.skip(from), key) == (match lookup_index(entries, key, from) {
            Some(i) => Some(entries[i].1),
            None => None,
        }),
    decreases entries.len() - from,
{
    if from < entries.len() {
        assert(entries.skip(from).drop_first() =~= entries.skip(from + 1));
        lemma_lookup_index(entries, key, from + 1);
    } else {
        assert(entries.skip(from).len() == 0);
    }
}

/// The text is made of decimal digits only.
pub open spec fn all_digits(t: Seq<char>) -> bool {
    forall|i: int| 0 <= i < t.len() ==> 0x30 <= (#[trigger] t[i] as u32) <= 0x39
}

/// The number that a text of decimal digits writes.
pub open spec fn digits_value(t: Seq<char>) -> nat
    decreases t.len(),
{
    if t.len() == 0 {
        0
    } else {
        digits_value(t.drop_last()) * 10 + ((t.last() as u32) - 0x30) as nat
    }
}

proof fn lemma_digits_value_grows(t: Seq<char>, i: int)
    requires
        0 <= i <= t.len(),
        all_digits(t),
    ensures
        digits_value(t.take(i)) <= digits_value(t),
    decreases t.len() - i,
{
    if i < t.len() {
        lemma_digits_value_grows(t, i + 1);
        assert(t.take(i + 1).drop_last() =~= t.take(i));
        assert(t.take(i + 1).last() == t[i]);
        assert(0x30 <= (t[i] as u32));
    } else {
        assert(t.take(i) =~= t);
    }
}

/// Reads a decimal number that fits in a `u64`.
fn parse_u64(s: &str) -> (r: Option<u64>)
    ensures
        r == (if s@.len() > 0 && all_digits(s@) && digits_value(s@) <= u64::MAX {
            Some(digits_value(s@) as u64)
        } else {
            None::<u64>
        }),
{
    let v = chars_of(s);
    if v.len() == 0 {
        return None;
    }
    let mut acc: u64 = 0;
    let mut i: usize = 0;
    while i < v.len()
        invariant
            i <= v.len(),
            v@ == s@,
            all_digits(v@.take(i as int)),
            acc == digits_value(v@.take(i as int)),
        decreases v.len() - i,
    {
        let c = v[i] as u32;
        if c < 0x30 || c > 0x39 {
            assert(!all_digits(s@)) by {
                assert(s@[i as int] as u32 == c);
            }
            return None;
        }
        let d = (c - 0x30) as u64;
        proof {
            assert(v@.take(i + 1).drop_last() =~= v@.take(i as int));
            assert(v@.take(i + 1).last() == v@[i as int]);
            assert(all_digits(v@.take(i + 1))) by {
                assert forall|k: int| 0 <= k < i + 1 implies 0x30 <= (#[trigger] v@.take(i + 1)[k] as u32) <= 0x39 by {
                    if k < i {
                        assert(v@.take(i + 1)[k] == v@.take(i as int)[k]);
                    }
                }
            }
        }
        if acc > (u64::MAX - d) / 10 {
            proof {
                assert(digits_value(v@.take(i + 1)) > u64::MAX) by (nonlinear_arith)
                    requires
                        digits_value(v@.take(i + 1)) == acc * 10 + d,
                        acc > (u64::MAX - d) / 10,
                        d <= 9,
                ;
                if all_digits(s@) {
                    lemma_digits_value_grows(v@, i + 1);
                }
            }
            return None;
        }
        acc = acc * 10 + d;
        i = i + 1;
    }
    assert(v@.take(i as int) =~= s@);
    Some(acc)
}

impl JsonValue {
    /// What `value.get(key)` gives for a string key: the member of an
    /// object, `None` for anything else.
    pub open spec fn member(self, key: Seq<char>) -> Option<JsonValue> {
        match self {
            JsonValue::Object(entries) => lookup(entries@, key),
            _ => None,
        }
    }

    /// The text of a JSON string, `None` for any other value.
    pub open spec fn string_value(self) -> Option<String> {
        match self {
            JsonValue::Str(s) => Some(s),
            _ => None,
        }
    }

    /// The text of the member `key` when that member is a JSON string
    /// (as `value.get(key).and_then(|v| v.as_str())`).
    pub open spec fn str_member(self, key: Seq<char>) -> Option<Seq<char>> {
        match self.member(key) {
            Some(v) => match v.string_value() {
                Some(s) => Some(s@),
                None => None,
            },
            None => None,
        }
    }

    /// The member named `key` of an object.
    pub fn get(&self, key: &str) -> (r: Option<&JsonValue>)
        ensures
            r is Some == self.member(key@) is Some,
            r matches Some(v) ==> *v == self.member(key@)->0,
    {
        match self {
            JsonValue::Object(entries) => {
                let k = chars_of(key);
                let mut i: usize = 0;
                proof {
                    lemma_lookup_index(entries@, key@, 0);
                    assert(entries@.skip(0) == entries@);
                }
                while i < entries.len()
                    invariant
                        i <= entries.len(),
                        k@ == key@,
                        *self == JsonValue::Object(*entries),
                        lookup(entries@, key@) == (match lookup_index(entries@, key@, i as int) {
                            Some(j) => Some(entries@[j].1),
                            None => None,
                        }),
                    decreases entries.len() - i,
                {
                    let name = chars_of(entries[i].0.as_str());
                    if chars_eq(&name, &k) {
                        return Some(&entries[i].1);
                    }
                    i = i + 1;
                }
                None
            },
            _ => None,
        }
    }

    /// The text of a JSON string.
    pub fn as_str(&self) -> (r: Option<&String>)
        ensures
            r is Some == self.string_value() is Some,
            r matches Some(s) ==> *s == self.string_value()->0,
    {
        match self {
            JsonValue::Str(s) => Some(s),
            _ => None,
        }
    }

    /// The text of member `key` when it is a JSON string.
    pub fn str_field(&self, key: &str) -> (r: Option<String>)
        ensures
            r is Some == self.str_member(key@) is Some,
            r matches Some(s) ==> s@ == self.str_member(key@)->0,
    {
        match self.get(key) {
            Some(v) => match v.as_str() {
                Some(s) => Some(s.clone()),
                None => None,
            },
            None => None,
        }
    }

    /// The value of a JSON number that is a non-negative integer fitting in a
    /// `u64` (as `value.as_u64()`), `None` for anything else. serde_json
    /// writes such numbers as plain digits, and every other number with a
    /// sign, a point or an exponent.
    pub open spec fn u64_value(self) -> Option<u64> {
        match self {
            JsonValue::Number(t) => if t@.len() > 0 && all_digits(t@) && digits_value(t@)
                <= u64::MAX {
                Some(digits_value(t@) as u64)
            } else {
                None
            },
            _ => None,
        }
    }

    /// The member `key` as a `u64` (as `value.get(key).and_then(|v| v.as_u64())`).
    pub open spec fn u64_member(self, key: Seq<char>) -> Option<u64> {
        match self.member(key) {
            Some(v) => v.u64_value(),
            None => None,
        }
    }

    /// The number as a `u64`.
    pub fn as_u64(&self) -> (r: Option<u64>)
        ensures
            r == self.u64_value(),
    {
        match self {
            JsonValue::Number(t) => parse_u64(t.as_str()),
            _ => None,
        }
    }

    /// Member `key` as a `u64`.
    pub fn u64_field(&self, key: &str) -> (r: Option<u64>)
        ensures
            r == self.u64_member(key@),
    {
        match self.get(key) {
            Some(v) => v.as_u64(),
            None => None,
        }
    }

    /// An object with no members.
    pub fn empty_object() -> (r: JsonValue)
        ensures
            r is Object,
            r->Object_0@.len() == 0,
    {
        JsonValue::Object(Vec::new())
    }
}

} // verus!
