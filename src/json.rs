//! The JSON reading and quoting that the cache entries and the build output
//! need, delegated to serde_json.
use vstd::prelude::*;
use serde_json::Value;

verus! {

/// A scalar read out of a JSON document.
#[derive(Debug)]
pub enum JsonScalar {
    /// A string value.
    Text(String),
    /// A number that is a `u64`.
    Unsigned(u64),
    /// Nothing there, a value of another kind, or no JSON document at all.
    Other,
}

/// The mathematical content of a scalar.
pub enum ScalarModel {
    Text(Seq<char>),
    Unsigned(u64),
    Other,
}

impl View for JsonScalar {
    type V = ScalarModel;

    open spec fn view(&self) -> ScalarModel {
        match self {
            JsonScalar::Text(s) => ScalarModel::Text(s@),
            JsonScalar::Unsigned(n) => ScalarModel::Unsigned(*n),
            JsonScalar::Other => ScalarModel::Other,
        }
    }
}

/// What the JSON document `text` holds at the JSON Pointer `pointer`
/// (RFC 6901): a string, a `u64`, or `Other` when `text` is not a JSON
/// document, the pointer addresses nothing, or the value is of another kind.
pub uninterp spec fn json_scalar_at(text: Seq<char>, pointer: Seq<char>) -> ScalarModel;

/// The string held at `pointer` in `text`, if it is a string.
pub open spec fn json_text_at(text: Seq<char>, pointer: Seq<char>) -> Option<Seq<char>> {
    match json_scalar_at(text, pointer) {
        ScalarModel::Text(s) => Some(s),
        _ => None,
    }
}

/// The `u64` held at `pointer` in `text`, if it is one.
pub open spec fn json_u64_at(text: Seq<char>, pointer: Seq<char>) -> Option<u64> {
    match json_scalar_at(text, pointer) {
        ScalarModel::Unsigned(n) => Some(n),
        _ => None,
    }
}

/// The lowercase hexadecimal digit for `d < 16`.
pub open spec fn hex_digit_char(d: nat) -> char {
    if d < 10 {
        (('0' as nat) + d) as char
    } else {
        (('a' as nat) + (d - 10)) as char
    }
}

/// How one character is written inside a JSON string literal: `"` and `\`
/// behind a backslash, the control characters below 0x20 as `\b \t \n \f \r`
/// or `\u00XX`, every other character as itself.
pub open spec fn escape_char(c: char) -> Seq<char> {
    if c == '"' {
        seq!['\\', '"']
    } else if c == '\\' {
        seq!['\\', '\\']
    } else if c == '\u{8}' {
        seq!['\\', 'b']
    } else if c == '\t' {
        seq!['\\', 't']
    } else if c == '\n' {
        seq!['\\', 'n']
    } else if c == '\u{c}' {
        seq!['\\', 'f']
    } else if c == '\r' {
        seq!['\\', 'r']
    } else if (c as u32) < 0x20 {
        seq![
            '\\',
            'u',
            '0',
            '0',
            hex_digit_char((c as u32 / 16) as nat),
            hex_digit_char((c as u32 % 16) as nat),
        ]
    } else {
        seq![c]
    }
}

/// The characters of `s`, each escaped.
pub open spec fn escaped(s: Seq<char>) -> Seq<char>
    decreases s.len(),
{
    if s.len() == 0 {
        Seq::empty()
    } else {
        escaped(s.drop_last()) + escape_char(s.last())
    }
}

/// The JSON string literal that spells `s`: its escaped characters between
/// double quotes.
pub open spec fn json_quoted(s: Seq<char>) -> Seq<char> {
    seq!['"'] + escaped(s) + seq!['"']
}

/// Relies on serde_json::from_str into serde_json::Value, Value::pointer
/// and Number::as_u64: the value found at `pointer`, told apart by kind.
#[verifier::external_body]
pub(crate) fn scalar_at(text: &str, pointer: &str) -> (r: JsonScalar)
    ensures
        r@ == json_scalar_at(text@, pointer@),
{
    let doc: Value = match serde_json::from_str(text) {
        Ok(v) => v,
        Err(_) => return JsonScalar::Other,
    };
    match doc.pointer(pointer) {
        Some(Value::String(s)) => JsonScalar::Text(s.clone()),
        Some(Value::Number(n)) => match n.as_u64() {
            Some(u) => JsonScalar::Unsigned(u),
            None => JsonScalar::Other,
        },
        _ => JsonScalar::Other,
    }
}

/// The string at `pointer` in `text`, if there is one.
pub(crate) fn string_at(text: &str, pointer: &str) -> (r: Option<String>)
    ensures
        match r {
            Some(s) => json_text_at(text@, pointer@) == Some(s@),
            None => json_text_at(text@, pointer@) is None,
        },
{
    match scalar_at(text, pointer) {
        JsonScalar::Text(s) => Some(s),
        _ => None,
    }
}

/// The `u64` at `pointer` in `text`, if there is one.
pub(crate) fn u64_at(text: &str, pointer: &str) -> (r: Option<u64>)
    ensures
        r == json_u64_at(text@, pointer@),
{
    match scalar_at(text, pointer) {
        JsonScalar::Unsigned(n) => Some(n),
        _ => None,
    }
}

/// Relies on serde_json::to_string on a `str`, which cannot fail: the string
/// between double quotes, escaped by serde_json's table of escapes.
#[verifier::external_body]
pub(crate) fn quote(s: &str) -> (r: String)
    ensures
        r@ == json_quoted(s@),
{
    match serde_json::to_string(s) {
        Ok(q) => q,
        Err(_) => String::new(),
    }
}

} // verus!
