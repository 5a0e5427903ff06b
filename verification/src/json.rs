//! JSON string literals, as the serializer writes them.

use vstd::prelude::*;

verus! {

/// The serializer's error. Serializing a string never produces one.
#[verifier::external_type_specification]
#[verifier::external_body]
pub struct ExJsonError(serde_json::Error);

/// The JSON string literal for `text`: the text between double quotes, with
/// quotes, backslashes and control characters escaped. It is whatever
/// `serde_json` writes for a string; this crate only relies on its being a
/// function of the text.
pub uninterp spec fn json_string(text: Seq<char>) -> Seq<char>;

/// `serde_json::to_string` on a string slice.
///
/// Serializing a `str` writes the escaped literal into a byte vector, which
/// cannot fail, so the call always succeeds; the literal depends on the text
/// alone.
#[verifier::external_body]
fn to_json_string(text: &str) -> (r: Result<String, serde_json::Error>)
    ensures
        r is Ok,
        r matches Ok(literal) ==> literal@ == json_string(text@),
{
    serde_json::to_string(text)
}

/// Writes `text` as a JSON string literal.
pub fn quote(text: &str) -> (literal: String)
    ensures
        literal@ == json_string(text@),
{
    to_json_string(text).unwrap()
}

} // verus!
