//! The JSON reader that frames are decoded with.
//!
//! Parsing is left to `serde_json`. Nothing in this file is proved: each item
//! states what the rest of the crate takes for granted about that crate.

use vstd::prelude::*;

verus! {

/// `serde_json::Value`, a parsed JSON document. Its inside is not visible to
/// the verifier; [`json_strings`] names what the crate reads from it.
#[verifier::external_type_specification]
#[verifier::external_body]
pub struct ExValue(serde_json::Value);

/// `serde_json::Error`, the reason a text is not a JSON document.
#[verifier::external_type_specification]
#[verifier::external_body]
pub struct ExError(serde_json::Error);

/// The longest text, in characters, that is handed to the parser. The parser
/// counts the digits of a number in a 32-bit signed integer, so a text is
/// kept short enough for every such count to fit.
pub const LONGEST_TEXT: usize = 0x7fff_ffff;

/// The JSON strings held by a document: each JSON pointer (RFC 6901) that
/// addresses a string in the document, mapped to that string's characters.
/// Pointers that address nothing, or a value that is not a string, are not
/// in the domain.
pub uninterp spec fn json_strings(document: serde_json::Value) -> Map<Seq<char>, Seq<char>>;

/// What `serde_json::from_str` makes of a text: the strings of the document
/// it parses to, or `None` where it reports an error.
pub uninterp spec fn json_parse(text: Seq<char>) -> Option<Map<Seq<char>, Seq<char>>>;

/// Calls `serde_json::from_str` for a `serde_json::Value`. The contract
/// claims only that the outcome is a function of the text: the returned
/// document holds the strings that [`json_parse`] names for the text, and an
/// error comes exactly where [`json_parse`] is `None`. The text may not be
/// longer than [`LONGEST_TEXT`]: beyond that the parser's digit counters can
/// overflow, and the call may not return.
#[verifier::external_body]
pub(crate) fn parse(text: &str) -> (parsed: Result<serde_json::Value, serde_json::Error>)
    requires
        text@.len() <= LONGEST_TEXT,
    ensures
        match parsed {
            Ok(document) => json_parse(text@) == Some(json_strings(document)),
            Err(_) => json_parse(text@) is None,
        },
{
    serde_json::from_str::<serde_json::Value>(text)
}

/// Calls `serde_json::Value::pointer` and hands out the addressed value where
/// it is a JSON string. The contract claims that the answer is the entry of
/// [`json_strings`] under the pointer, and `None` where there is no entry.
#[verifier::external_body]
pub(crate) fn string_at(document: &serde_json::Value, pointer: &str) -> (found: Option<String>)
    ensures
        match found {
            Some(text) => json_strings(*document).contains_key(pointer@) && json_strings(
                *document,
            )[pointer@] == text@,
            None => !json_strings(*document).contains_key(pointer@),
        },
{
    match document.pointer(pointer) {
        Some(serde_json::Value::String(text)) => Some(text.clone()),
        _ => None,
    }
}

} // verus!
