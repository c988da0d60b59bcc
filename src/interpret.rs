use vstd::prelude::*;

verus! {

#[verifier::external_type_specification]
#[verifier::external_body]
pub struct ExJsonValue(serde_json::Value);

#[verifier::external_type_specification]
#[verifier::external_body]
pub struct ExJsonError(serde_json::Error);

/// Whether the whole of `text` is one well-formed JSON document.
pub uninterp spec fn json_parses(text: Seq<char>) -> bool;

/// Relies on serde_json::from_str into serde_json::Value: a strict parse of
/// the whole text, which succeeds or fails on the text alone.
#[verifier::external_body]
fn parse_json(text: &str) -> (r: Result<serde_json::Value, serde_json::Error>)
    ensures
        r is Ok == json_parses(text@),
{
    serde_json::from_str::<serde_json::Value>(text)
}

/// The structured tree of a response text: present exactly when the whole
/// text parses as JSON. There is no lenient or partial parse.
pub fn interpret(text: &str) -> (r: Option<serde_json::Value>)
    ensures
        r is Some == json_parses(text@),
{
    match parse_json(text) {
        Ok(v) => Some(v),
        Err(_) => None,
    }
}

} // verus!
