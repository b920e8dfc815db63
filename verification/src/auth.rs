//! Finding an API key or OAuth token in what the environment, the keychain
//! and the credentials file hold.

use vstd::prelude::*;
use vstd::utf8::{valid_utf8, decode_utf8, encode_utf8};
use crate::json::{JsonValue, json_parse, parse_json};
use crate::text::{trim, trim_str, starts_with, str_starts_with};

verus! {

/// The value of a hexadecimal digit (either case).
pub open spec fn hex_value(b: u8) -> Option<u8> {
    if 48 <= b <= 57 {
        Some((b - 48) as u8)
    } else if 65 <= b <= 70 {
        Some((b - 55) as u8)
    } else if 97 <= b <= 102 {
        Some((b - 87) as u8)
    } else {
        None
    }
}

/// The bytes written by pairs of hexadecimal digits.
pub open spec fn hex_pairs(s: Seq<u8>) -> Option<Seq<u8>>
    decreases s.len(),
{
    if s.len() < 2 {
        if s.len() == 0 {
            Some(Seq::empty())
        } else {
            None
        }
    } else {
        match (hex_value(s[0]), hex_value(s[1]), hex_pairs(s.skip(2))) {
            (Some(h), Some(l), Some(rest)) => Some(seq![(h * 16 + l) as u8] + rest),
            _ => None,
        }
    }
}

/// What `hex::decode` makes of bytes: `None` for an odd length or a
/// non-digit, else one byte per pair of digits.
pub open spec fn hex_decoded(s: Seq<u8>) -> Option<Seq<u8>> {
    if s.len() % 2 != 0 {
        None
    } else {
        hex_pairs(s)
    }
}

/// Decodes hexadecimal text with `hex::decode`: an error (odd length or a
/// byte that is not a hex digit) gives `None`, else each pair of digits
/// gives one byte, high digit first.
#[verifier::external_body]
fn hex_decode(text: &str) -> (r: Option<Vec<u8>>)
    ensures
        match hex_decoded(encode_utf8(text@)) {
            Some(b) => r matches Some(v) && v@ == b,
            None => r is None,
        },
{
    hex::decode(text).ok()
}

/// Reads bytes as UTF-8 text (std `String::from_utf8`): `None` when they are
/// not valid UTF-8, else the characters they encode.
#[verifier::external_body]
fn utf8_string(bytes: Vec<u8>) -> (r: Option<String>)
    ensures
        r is Some == valid_utf8(bytes@),
        r matches Some(s) ==> s@ == decode_utf8(bytes@),
{
    String::from_utf8(bytes).ok()
}

/// The OAuth access token in a credentials document:
/// `claudeAiOauth.accessToken` when it is a string.
pub open spec fn oauth_token(v: JsonValue) -> Option<Seq<char>> {
    match v.member("claudeAiOauth"@) {
        Some(o) => o.str_member("accessToken"@),
        None => None,
    }
}

/// The token in hex-encoded credentials: the trimmed text decoded from hex,
/// read as UTF-8, parsed as JSON, and its OAuth access token.
pub open spec fn hex_credentials_token(hex: Seq<char>) -> Option<Seq<char>> {
    match hex_decoded(encode_utf8(trim(hex))) {
        None => None,
        Some(b) => if !valid_utf8(b) {
            None
        } else {
            match json_parse(decode_utf8(b)) {
                None => None,
                Some(v) => oauth_token(v),
            }
        },
    }
}

fn oauth_token_of(v: &JsonValue) -> (r: Option<String>)
    ensures
        r is Some == oauth_token(*v) is Some,
        r matches Some(t) ==> t@ == oauth_token(*v)->0,
{
    match v.get("claudeAiOauth") {
        Some(o) => o.str_field("accessToken"),
        None => None,
    }
}

/// Extracts the OAuth access token from hex-encoded JSON credentials, as the
/// keychain stores them.
pub fn parse_hex_credentials(hex_str: &str) -> (r: Option<String>)
    ensures
        r is Some == hex_credentials_token(hex_str@) is Some,
        r matches Some(t) ==> t@ == hex_credentials_token(hex_str@)->0,
{
    let trimmed = trim_str(hex_str);
    let bytes = match hex_decode(trimmed.as_str()) {
        Some(b) => b,
        None => return None,
    };
    let text = match utf8_string(bytes) {
        Some(t) => t,
        None => return None,
    };
    let json = match parse_json(text.as_str()) {
        Some(j) => j,
        None => return None,
    };
    oauth_token_of(&json)
}

/// The key in a credentials file's JSON text: the OAuth access token, or
/// else the string `apiKey`.
pub open spec fn file_credentials_token(text: Seq<char>) -> Option<Seq<char>> {
    match json_parse(text) {
        None => None,
        Some(v) => match oauth_token(v) {
            Some(t) => Some(t),
            None => v.str_member("apiKey"@),
        },
    }
}

/// Extracts the key from the JSON text of a credentials file.
pub fn credentials_file_token(text: &str) -> (r: Option<String>)
    ensures
        r is Some == file_credentials_token(text@) is Some,
        r matches Some(t) ==> t@ == file_credentials_token(text@)->0,
{
    let json = match parse_json(text) {
        Some(j) => j,
        None => return None,
    };
    match oauth_token_of(&json) {
        Some(t) => Some(t),
        None => json.str_field("apiKey"),
    }
}

/// The key in a keychain entry: a plain API key (starting `sk-`) as it is,
/// otherwise the token of hex-encoded credentials.
pub open spec fn keychain_entry_token(value: Seq<char>) -> Option<Seq<char>> {
    if starts_with(value, "sk-"@) {
        Some(value)
    } else {
        hex_credentials_token(value)
    }
}

/// Extracts the key from the first keychain entry looked at, which holds
/// either a plain API key or hex-encoded credentials.
pub fn keychain_token(value: &str) -> (r: Option<String>)
    ensures
        r is Some == keychain_entry_token(value@) is Some,
        r matches Some(t) ==> t@ == keychain_entry_token(value@)->0,
{
    if str_starts_with(value, "sk-") {
        Some(value.to_owned())
    } else {
        parse_hex_credentials(value)
    }
}

/// The value printed by the keychain tool: its trimmed output, unless that
/// is empty.
pub fn keychain_output_value(output: &str) -> (r: Option<String>)
    ensures
        trim(output@).len() == 0 ==> r is None,
        trim(output@).len() > 0 ==> (r matches Some(v) && v@ == trim(output@)),
{
    let v = trim_str(output);
    if v.as_str().is_empty() {
        None
    } else {
        Some(v)
    }
}

/// The API key from the environment variable, when it is set and non-empty.
pub fn api_key_from_env(value: Option<String>) -> (r: Option<String>)
    ensures
        match value {
            Some(k) => if k@.len() > 0 {
                r == Some(k)
            } else {
                r is None
            },
            None => r is None,
        },
{
    match value {
        Some(k) => if k.as_str().is_empty() {
            None
        } else {
            Some(k)
        },
        None => None,
    }
}

/// A place an API key is looked for.
#[derive(Debug, Clone, Copy, PartialEq, Eq, Structural)]
pub enum KeySource {
    /// The `ANTHROPIC_API_KEY` environment variable.
    Environment,
    /// The system keychain.
    Keychain,
    /// The credentials file.
    CredentialsFile,
}

/// What to do next while looking for the API key.
#[derive(Debug)]
pub enum KeySearchStep {
    /// Look in this place.
    Look(KeySource),
    /// This key was found.
    Found(String),
    /// No place held a key; the message says where one can be put.
    Missing(String),
}

/// The places, in the order they are tried.
pub open spec fn key_source_after(last: Option<KeySource>) -> Option<KeySource> {
    match last {
        None => Some(KeySource::Environment),
        Some(KeySource::Environment) => Some(KeySource::Keychain),
        Some(KeySource::Keychain) => Some(KeySource::CredentialsFile),
        Some(KeySource::CredentialsFile) => None,
    }
}

/// The message when no key was found.
pub open spec fn missing_key_text() -> Seq<char> {
    "No API key found. Either:\n  - Set ANTHROPIC_API_KEY environment variable\n  - Name a keychain entry in ANTHROPIC_KEYCHAIN_SERVICE\n  - Name a credentials file in ANTHROPIC_CREDENTIALS_FILE"@
}

/// The next step of the search, given the place looked at last (none at the
/// start) and what it held: a key found there ends the search; otherwise the
/// next place is tried, the environment first, then the keychain, then the
/// credentials file; after the last the key is missing.
pub fn next_key_step(last: Option<KeySource>, found: Option<String>) -> (r: KeySearchStep)
    ensures
        last is Some && found is Some ==> r == KeySearchStep::Found(found->0),
        !(last is Some && found is Some) ==> match key_source_after(last) {
            Some(s) => r == KeySearchStep::Look(s),
            None => r matches KeySearchStep::Missing(m) && m@ == missing_key_text(),
        },
{
    match (last, found) {
        (Some(_), Some(key)) => KeySearchStep::Found(key),
        (None, _) => KeySearchStep::Look(KeySource::Environment),
        (Some(KeySource::Environment), None) => KeySearchStep::Look(KeySource::Keychain),
        (Some(KeySource::Keychain), None) => KeySearchStep::Look(KeySource::CredentialsFile),
        (Some(KeySource::CredentialsFile), None) => KeySearchStep::Missing(
            "No API key found. Either:\n  - Set ANTHROPIC_API_KEY environment variable\n  - Name a keychain entry in ANTHROPIC_KEYCHAIN_SERVICE\n  - Name a credentials file in ANTHROPIC_CREDENTIALS_FILE".to_owned(),
        ),
    }
}

} // verus!
