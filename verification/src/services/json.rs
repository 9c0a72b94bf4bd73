//! Values read out of JSON documents.

use vstd::prelude::*;

use crate::services::ids;

verus! {

/// What member `key` of the JSON object `document` holds, written as JSON: none where
/// the document is no object or has no such member, and the parser's message where it
/// is no JSON.
pub uninterp spec fn json_member(document: Seq<u8>, key: Seq<char>) -> Result<
    Option<Seq<char>>,
    Seq<char>,
>;

/// `serde_json::from_slice`, `serde_json::Value::get` with a text index and the text
/// of the value found: a member of a JSON object, or the parser's message.
#[verifier::external_body]
pub(crate) fn read_member(document: &[u8], key: &str) -> (r: Result<Option<String>, String>)
    ensures
        match r {
            Ok(Some(value)) => json_member(document@, key@) == Ok::<_, Seq<char>>(Some(value@)),
            Ok(None) => json_member(document@, key@) == Ok::<Option<Seq<char>>, Seq<char>>(None),
            Err(message) => json_member(document@, key@) == Err::<Option<Seq<char>>, _>(message@),
        },
{
    serde_json::from_slice::<serde_json::Value>(document)
        .map(|value| value.get(key).map(|member| member.to_string()))
        .map_err(|error| error.to_string())
}

/// What `pointer` leads to in the JSON text `document`: none where it is no JSON or
/// the pointer leads nowhere; an inner none where it leads to something that is no
/// string.
pub uninterp spec fn json_string(document: Seq<char>, pointer: Seq<char>) -> Option<
    Option<Seq<char>>,
>;

/// `serde_json::from_str`, `serde_json::Value::pointer` and `Value::as_str`: the
/// string that a JSON pointer leads to.
#[verifier::external_body]
pub(crate) fn read_string(document: &str, pointer: &str) -> (r: Option<Option<String>>)
    ensures
        match r {
            Some(Some(value)) => json_string(document@, pointer@) == Some(Some(value@)),
            Some(None) => json_string(document@, pointer@) == Some(None::<Seq<char>>),
            None => json_string(document@, pointer@) is None,
        },
{
    let value: serde_json::Value = serde_json::from_str(document).ok()?;
    value.pointer(pointer).map(|found| found.as_str().map(|shown| shown.to_owned()))
}

/// A character inside a string of JSON: quotes, backslashes and control characters are
/// escaped, by a letter where JSON has one, else by four hexadecimal digits.
pub open spec fn json_escaped(c: char) -> Seq<char> {
    if c == '"' || c == '\\' {
        seq!['\\', c]
    } else if c == '\u{8}' {
        seq!['\\', 'b']
    } else if c == '\t' {
        seq!['\\', 't']
    } else if c == '\n' {
        seq!['\\', 'n']
    } else if c == '\u{c}' {
        seq!['\\', 'f']
    } else if c == '\r' {
        seq!['\\', 'r']
    } else if (c as u32) < 0x20 {
        seq!['\\', 'u'] + ids::hex(c as nat, 4)
    } else {
        seq![c]
    }
}

/// `text` as it stands between the quotes of a string of JSON.
pub open spec fn json_contents(text: Seq<char>) -> Seq<char>
    decreases text.len(),
{
    if text.len() == 0 {
        Seq::empty()
    } else {
        json_contents(text.drop_last()) + json_escaped(text.last())
    }
}

/// `text` as a string of JSON, in its quotes.
pub open spec fn json_quoted(text: Seq<char>) -> Seq<char> {
    seq!['"'] + json_contents(text) + seq!['"']
}

/// `serde_json::Value::String` and its `to_string`: a text as a string of JSON, in its
/// quotes and with what JSON asks for escaped.
#[verifier::external_body]
pub(crate) fn quote(text: &str) -> (r: String)
    ensures
        r@ == json_quoted(text@),
{
    serde_json::Value::String(text.to_owned()).to_string()
}

} // verus!
