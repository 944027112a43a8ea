//! JSON text: string literals on the way out, documents on the way in.
//!
//! Outbound text is assembled by this crate; only the quoting of a string is
//! left to `serde_json`. Inbound text is parsed by `serde_json` and handed on
//! as a [`JsonValue`], a plain tree that the rest of the crate reads.

use vstd::prelude::*;
use vstd::string::StringExecFns;

verus! {

/// A parsed JSON document.
#[derive(Debug, PartialEq, Eq)]
pub enum JsonValue {
    Null,
    Bool(bool),
    /// A number. The value is kept where the number is a non-negative integer
    /// that fits in 64 bits; any other number is `None`.
    Number(Option<u64>),
    Text(String),
    Array(Vec<JsonValue>),
    /// The members of an object.
    Object(Vec<(String, JsonValue)>),
}

/// The lower-case hexadecimal digit of `d`.
pub open spec fn hex_digit(d: int) -> char {
    "0123456789abcdef"@[d]
}

/// How one character stands inside a JSON string literal: the quote, the
/// backslash and the control characters below U+0020 are escaped, every other
/// character stands for itself.
pub open spec fn escaped_char(c: char) -> Seq<char> {
    if c == '"' {
        "\\\""@
    } else if c == '\\' {
        "\\\\"@
    } else if c == '\u{08}' {
        "\\b"@
    } else if c == '\u{09}' {
        "\\t"@
    } else if c == '\u{0a}' {
        "\\n"@
    } else if c == '\u{0c}' {
        "\\f"@
    } else if c == '\u{0d}' {
        "\\r"@
    } else if (c as u32) < 0x20 {
        "\\u00"@ + seq![hex_digit((c as u32) as int / 16), hex_digit((c as u32) as int % 16)]
    } else {
        seq![c]
    }
}

/// The characters of `s`, each as it stands inside a JSON string literal.
pub open spec fn escaped_text(s: Seq<char>) -> Seq<char>
    decreases s.len(),
{
    if s.len() == 0 {
        Seq::empty()
    } else {
        escaped_char(s[0]) + escaped_text(s.drop_first())
    }
}

/// The JSON string literal for `s`: its escaped characters between quotes.
pub open spec fn string_literal(s: Seq<char>) -> Seq<char> {
    "\""@ + escaped_text(s) + "\""@
}

/// Calls `serde_json::to_string` on a string slice.
///
/// Trusted: the result is the JSON string literal of the input as
/// [`string_literal`] spells it out, which restates the escape table of
/// `serde_json`'s compact formatter. Serialising a string slice into memory
/// has no way to fail, so the error is never seen and the fallback is unused.
#[verifier::external_body]
pub(crate) fn quote_str(value: &str) -> (r: String)
    ensures
        r@ == string_literal(value@),
{
    serde_json::to_string(value).unwrap_or_default()
}

/// `serde_json::Value`, which only [`from_serde`] reads.
#[verifier::external_type_specification]
#[verifier::external_body]
pub struct ExSerdeValue(serde_json::Value);

/// The document that `serde_json` reads from `text`, or `None` where the
/// text is not one JSON value.
pub uninterp spec fn json_document(text: Seq<char>) -> Option<JsonValue>;

/// Moves a `serde_json::Value` into a [`JsonValue`], variant by variant.
///
/// Trusted: nothing is claimed of the result here; [`parse_document`] names
/// what the two together return. A number is read with
/// `serde_json::Number::as_u64`, and the members of an object come in the
/// order in which `serde_json::Map` hands them out.
#[verifier::external_body]
fn from_serde(value: serde_json::Value) -> JsonValue {
    match value {
        serde_json::Value::Null => JsonValue::Null,
        serde_json::Value::Bool(b) => JsonValue::Bool(b),
        serde_json::Value::Number(n) => JsonValue::Number(n.as_u64()),
        serde_json::Value::String(s) => JsonValue::Text(s),
        serde_json::Value::Array(items) => JsonValue::Array(
            items.into_iter().map(from_serde).collect(),
        ),
        serde_json::Value::Object(members) => JsonValue::Object(
            members.into_iter().map(|(k, v)| (k, from_serde(v))).collect(),
        ),
    }
}

/// Calls `serde_json::from_str` for a `serde_json::Value`.
///
/// Trusted: the result depends on the text alone, so it is given the name
/// [`json_document`]; an error of the parser becomes `None`.
#[verifier::external_body]
pub(crate) fn parse_document(text: &str) -> (r: Option<JsonValue>)
    ensures
        r == json_document(text@),
{
    match serde_json::from_str::<serde_json::Value>(text) {
        Ok(value) => Some(from_serde(value)),
        Err(_) => None,
    }
}

/// The first member of `members` whose key is `key`.
pub open spec fn member_of(members: Seq<(String, JsonValue)>, key: Seq<char>) -> Option<JsonValue>
    decreases members.len(),
{
    if members.len() == 0 {
        None
    } else if members[0].0@ == key {
        Some(members[0].1)
    } else {
        member_of(members.drop_first(), key)
    }
}

impl JsonValue {
    /// The member `key` of an object; `None` for a value that is no object or
    /// has no such member.
    pub open spec fn member(self, key: Seq<char>) -> Option<JsonValue> {
        match self {
            JsonValue::Object(members) => member_of(members@, key),
            _ => None,
        }
    }

    /// The text of a string value.
    pub open spec fn text(self) -> Option<Seq<char>> {
        match self {
            JsonValue::Text(s) => Some(s@),
            _ => None,
        }
    }

    /// The value of a number that is a non-negative 64-bit integer.
    pub open spec fn count(self) -> Option<u64> {
        match self {
            JsonValue::Number(n) => n,
            _ => None,
        }
    }

    /// Looks up the member `key` of an object.
    pub fn get(&self, key: &str) -> (r: Option<&JsonValue>)
        ensures
            match r {
                Some(value) => self.member(key@) == Some(*value),
                None => self.member(key@) is None,
            },
    {
        match self {
            JsonValue::Object(members) => {
                let wanted = String::from_str(key);
                let mut i: usize = 0;
                assert(members@.skip(0) =~= members@);
                while i < members.len()
                    invariant
                        i <= members.len(),
                        wanted@ == key@,
                        self.member(key@) == member_of(members@, key@),
                        member_of(members@, key@) == member_of(members@.skip(i as int), key@),
                    decreases members.len() - i,
                {
                    if members[i].0 == wanted {
                        assert(members@.skip(i as int)[0] == members@[i as int]);
                        return Some(&members[i].1);
                    }
                    assert(members@.skip(i as int)[0] == members@[i as int]);
                    assert(members@.skip(i as int).drop_first() =~= members@.skip(i as int + 1));
                    i += 1;
                }
                None
            },
            _ => None,
        }
    }

    /// The text of a string value.
    pub fn as_text(&self) -> (r: Option<&String>)
        ensures
            match r {
                Some(s) => self.text() == Some(s@),
                None => self.text() is None,
            },
    {
        match self {
            JsonValue::Text(s) => Some(s),
            _ => None,
        }
    }

    /// The value of a number that is a non-negative 64-bit integer.
    pub fn as_count(&self) -> (r: Option<u64>)
        ensures
            r == self.count(),
    {
        match self {
            JsonValue::Number(n) => *n,
            _ => None,
        }
    }
}

} // verus!
