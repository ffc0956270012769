use vstd::prelude::*;

verus! {

/// The lower-case hexadecimal digit for `n`, which is below 16.
pub open spec fn hex_digit(n: u32) -> char {
    seq!['0', '1', '2', '3', '4', '5', '6', '7', '8', '9', 'a', 'b', 'c', 'd', 'e', 'f'][n as int]
}

/// How one character stands inside a JSON string: the quote, the backslash
/// and the control characters escaped, every other character as it is.
pub open spec fn json_escape_char(c: char) -> Seq<char> {
    if c == '"' {
        seq!['\\', '"']
    } else if c == '\\' {
        seq!['\\', '\\']
    } else if c == '\u{8}' {
        seq!['\\', 'b']
    } else if c == '\t' {
        seq!['\\', 't']
    } else if c == '\n' {
        seq!['\\', 'n']
    } else if c == '\u{c}' {
        seq!['\\', 'f']
    } else if c == '\r' {
        seq!['\\', 'r']
    } else if (c as u32) < 0x20 {
        seq!['\\', 'u', '0', '0', hex_digit((c as u32) / 16), hex_digit((c as u32) % 16)]
    } else {
        seq![c]
    }
}

/// The characters of `s`, each escaped for a JSON string.
pub open spec fn json_escaped(s: Seq<char>) -> Seq<char>
    decreases s.len(),
{
    if s.len() == 0 {
        Seq::empty()
    } else {
        json_escaped(s.drop_last()) + json_escape_char(s.last())
    }
}

/// The pretty-printed JSON encoding of a string value: a quote, the escaped
/// text, a quote.
pub open spec fn pretty_json_of(s: Seq<char>) -> Seq<char> {
    seq!['"'] + json_escaped(s) + seq!['"']
}

/// Relies on serde_json::to_string_pretty applied to a `str`: it writes a
/// quote, each character escaped by its escape table, and a quote; the
/// pretty formatter changes nothing in a string. Serialising a `str` writes into an
/// in-memory buffer whose writes cannot fail, so the result is always present.
#[verifier::external_body]
fn to_string_pretty_str(s: &str) -> (r: Option<String>)
    ensures
        r is Some,
        r->0@ == pretty_json_of(s@),
{
    serde_json::to_string_pretty(s).ok()
}

/// Encodes `text` as a pretty-printed JSON string, the form in which context
/// is embedded into a prompt.
pub fn pretty_context(text: &str) -> (r: String)
    ensures
        r@ == pretty_json_of(text@),
{
    match to_string_pretty_str(text) {
        Some(s) => s,
        None => {
            proof {
                assert(false);
            }
            String::new()
        },
    }
}

} // verus!
