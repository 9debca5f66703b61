//! The JSON values that the game keeps as script variables, and the JSON
//! validity test used when recovering the settings file.

use vstd::prelude::*;

verus! {

/// A JSON value, kept as it is and carried through the game status.
#[verifier::external_type_specification]
#[verifier::external_body]
pub struct ExJsonValue(serde_json::Value);

/// `serde_json::Value::clone` (derived): the copy is the same value.
pub assume_specification[ <serde_json::Value as Clone>::clone ](v: &serde_json::Value) -> (r: serde_json::Value)
    ensures
        r == *v,
;

/// Whether serde_json parses the text as a JSON document.
pub uninterp spec fn json_parses(text: Seq<char>) -> bool;

/// Calls `serde_json::from_str::<serde_json::Value>` and reports whether it
/// succeeded; the result is named `json_parses` of the text.
#[verifier::external_body]
pub(crate) fn is_json(text: &str) -> (ok: bool)
    ensures
        ok == json_parses(text@),
{
    serde_json::from_str::<serde_json::Value>(text).is_ok()
}

} // verus!
