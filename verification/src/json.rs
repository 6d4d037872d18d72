//! JSON values, carried through the library unexamined.
use vstd::prelude::*;

verus! {

/// `serde_json::Value`, declared so that it can stand in fields and
/// signatures; its contents are opaque here.
#[verifier::external_type_specification]
#[verifier::external_body]
pub struct ExJsonValue(serde_json::Value);

/// `Clone` of `serde_json::Value`, derived by serde_json: a copy equal to the
/// original.
pub assume_specification[ <serde_json::Value as Clone>::clone ](v: &serde_json::Value) -> (r: serde_json::Value)
    ensures
        r == *v,
;

/// What `serde_json::from_str::<Value>` reads from a text: the one JSON value
/// the text holds, or nothing when it holds none. It depends on the text alone.
pub uninterp spec fn json_parsed_of(text: Seq<char>) -> Option<serde_json::Value>;

/// Calls `serde_json::from_str::<Value>`, keeping the value and dropping the
/// error; the result is named by `json_parsed_of`.
#[verifier::external_body]
pub(crate) fn parse_json(text: &str) -> (r: Option<serde_json::Value>)
    ensures
        r == json_parsed_of(text@),
{
    serde_json::from_str::<serde_json::Value>(text).ok()
}

} // verus!
