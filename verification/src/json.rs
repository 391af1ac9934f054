//! The JSON types of `serde_json` that the library carries, and the one
//! parse it makes on text it does not own.

use vstd::prelude::*;

verus! {

/// `serde_json::Error`, carried opaquely inside the library's errors.
#[verifier::external_type_specification]
#[verifier::external_body]
pub struct ExJsonError(serde_json::Error);

/// `serde_json::Value`, carried opaquely as a verified webhook's payload.
#[verifier::external_type_specification]
#[verifier::external_body]
pub struct ExJsonValue(serde_json::Value);

/// `Clone` for `serde_json::Value`, used by the derived `Clone` of the
/// types that hold a payload; nothing is claimed of the copy.
pub assume_specification[ <serde_json::Value as Clone>::clone ](v: &serde_json::Value) -> serde_json::Value;

/// What `serde_json::from_str::<serde_json::Value>` makes of `text`: the
/// value of the one JSON document it holds, or `None` when it holds none.
pub uninterp spec fn json_parse(text: Seq<char>) -> Option<serde_json::Value>;

/// `serde_json` accepts `text` as one JSON document.
pub open spec fn is_json_text(text: Seq<char>) -> bool {
    json_parse(text) is Some
}

/// Parses `text` with `serde_json::from_str::<serde_json::Value>`.
///
/// The contract claims that the parse succeeds exactly on the texts that
/// `json_parse` gives a value for, and then returns that value; which
/// error comes back otherwise is left unsaid.
#[verifier::external_body]
pub(crate) fn parse_json(text: &str) -> (r: Result<serde_json::Value, serde_json::Error>)
    ensures
        r is Ok <==> json_parse(text@) is Some,
        r matches Ok(v) ==> json_parse(text@) == Some(v),
{
    serde_json::from_str(text)
}

} // verus!
