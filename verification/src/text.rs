//! Text that crosses the library's edge: UTF-8 bytes and JSON.

use vstd::prelude::*;
use vstd::utf8::*;

verus! {

/// `std::string::FromUtf8Error`, carried unopened.
#[verifier::external_type_specification]
#[verifier::external_body]
pub struct ExFromUtf8Error(std::string::FromUtf8Error);

/// `serde_json::Error`, carried unopened.
#[verifier::external_type_specification]
#[verifier::external_body]
pub struct ExJsonError(serde_json::Error);

/// `serde_json::Value`, carried unopened.
#[verifier::external_type_specification]
#[verifier::external_body]
pub struct ExJsonValue(serde_json::Value);

/// The error with which `String::from_utf8` refuses `bytes`.
pub uninterp spec fn utf8_failure(bytes: Seq<u8>) -> std::string::FromUtf8Error;

/// The compact JSON text that `value` prints as.
pub uninterp spec fn json_text(value: serde_json::Value) -> Seq<char>;

/// What `serde_json::from_str` makes of `text`.
pub uninterp spec fn json_parsed(text: Seq<char>) -> Result<serde_json::Value, serde_json::Error>;

/// `String::from_utf8` accepts exactly the valid UTF-8 sequences and gives the
/// text that they encode; the error depends on the refused bytes alone.
pub assume_specification[ String::from_utf8 ](vec: Vec<u8>) -> (res: Result<
    String,
    std::string::FromUtf8Error,
>)
    ensures
        match res {
            Ok(text) => valid_utf8(vec@) && text@ == decode_utf8(vec@),
            Err(err) => !valid_utf8(vec@) && err == utf8_failure(vec@),
        },
;

/// `serde_json::Value::clone` gives the same JSON value.
pub assume_specification[ <serde_json::Value as Clone>::clone ](value: &serde_json::Value) -> (res:
    serde_json::Value)
    ensures
        res == *value,
;

/// Calls `serde_json::from_str` for a `serde_json::Value`; what comes back
/// depends on the text alone.
#[verifier::external_body]
pub(crate) fn parse_json(text: &str) -> (res: Result<serde_json::Value, serde_json::Error>)
    ensures
        res == json_parsed(text@),
{
    serde_json::from_str::<serde_json::Value>(text)
}

/// Whether JSON text opens fewer than 128 arrays and objects and holds no digit
/// that a point or an exponent follows: so no number in it is a float.
pub open spec fn plain_json(text: Seq<char>) -> bool {
    &&& text.filter(|c: char| c == '[' || c == '{').len() < 128
    &&& forall|i: int|
        0 <= i < text.len() - 1 && '0' <= #[trigger] text[i] <= '9' ==> text[i + 1] != '.' && text[i
            + 1] != 'e'
}

/// Calls `to_string` of `serde_json::Value`, which prints the value as compact
/// JSON text. Text without floats, and nested no deeper than `from_str` goes,
/// reads back as the value it was printed from; of other text nothing is claimed.
#[verifier::external_body]
pub(crate) fn print_json(value: &serde_json::Value) -> (res: String)
    ensures
        res@ == json_text(*value),
        plain_json(res@) ==> (json_parsed(res@) matches Ok(parsed) && parsed == *value),
{
    value.to_string()
}

} // verus!
