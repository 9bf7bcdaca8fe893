//! JSON text.
use vstd::prelude::*;

verus! {

/// The lower-case hexadecimal digit for a number below sixteen.
pub open spec fn hex_digit(n: int) -> char {
    if n < 10 {
        ('0' as int + n) as char
    } else {
        ('a' as int + (n - 10)) as char
    }
}

/// How a character stands in a JSON string: the quotation mark, the reverse solidus and the
/// control characters below the space are escaped, every other character stands for itself.
pub open spec fn escaped_char(c: char) -> Seq<char> {
    if c == '"' {
        seq!['\\', '"']
    } else if c == '\\' {
        seq!['\\', '\\']
    } else if c == '\u{8}' {
        seq!['\\', 'b']
    } else if c == '\t' {
        seq!['\\', 't']
    } else if c == '\n' {
        seq!['\\', 'n']
    } else if c == '\u{c}' {
        seq!['\\', 'f']
    } else if c == '\r' {
        seq!['\\', 'r']
    } else if c <= '\u{1f}' {
        seq!['\\', 'u', '0', '0', hex_digit(c as int / 16), hex_digit(c as int % 16)]
    } else {
        seq![c]
    }
}

/// The characters of a text as they stand in a JSON string.
pub open spec fn escaped(text: Seq<char>) -> Seq<char>
    decreases text.len(),
{
    if text.len() == 0 {
        seq![]
    } else {
        escaped(text.drop_last()) + escaped_char(text.last())
    }
}

/// The JSON string that holds a text.
pub open spec fn json_string(text: Seq<char>) -> Seq<char> {
    seq!['"'] + escaped(text) + seq!['"']
}

/// The JSON string or null that holds an optional text.
pub open spec fn json_option(text: Option<Seq<char>>) -> Seq<char> {
    match text {
        Some(text) => json_string(text),
        None => "null"@,
    }
}

/// The JSON form of a truth value.
pub open spec fn json_bool(value: bool) -> Seq<char> {
    if value {
        "true"@
    } else {
        "false"@
    }
}

/// Calls `serde_json::to_string` on a string slice. It never fails there, and gives the slice
/// between quotation marks, with the quotation mark, the reverse solidus and the control characters
/// below the space escaped: by a letter where JSON has one, else by four lower-case hexadecimal
/// digits.
#[verifier::external_body]
pub(crate) fn quoted(text: &str) -> (json: String)
    ensures
        json@ == json_string(text@),
{
    serde_json::to_string(text).expect("a string has a JSON form")
}

/// The JSON string or null that holds an optional text.
pub fn quoted_option(text: &Option<String>) -> (json: String)
    ensures
        json@ == json_option(crate::text::text_of(*text)),
{
    match text {
        Some(text) => quoted(text.as_str()),
        None => "null".to_owned(),
    }
}

/// The JSON form of a truth value.
pub fn bool_json(value: bool) -> (json: &'static str)
    ensures
        json@ == json_bool(value),
{
    if value {
        "true"
    } else {
        "false"
    }
}

} // verus!
