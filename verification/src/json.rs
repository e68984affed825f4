//! Pretty-printing of JSON texts through `serde_json`.
use vstd::prelude::*;

verus! {

/// What `serde_json` makes of a text: `Ok` of the pretty-printed form of
/// the JSON value that `serde_json::from_str` reads from it, or `Err` of the
/// message of the error that `serde_json` reports where the text is not a
/// JSON document.
pub uninterp spec fn pretty_json_text(text: Seq<char>) -> Result<Seq<char>, Seq<char>>;

/// What `serde_json` makes of raw bytes: `Some` of the pretty-printed form
/// of the JSON value that `serde_json::from_slice` reads from them, `None`
/// where they are not a JSON document.
pub uninterp spec fn pretty_json_bytes(bytes: Seq<u8>) -> Option<Seq<char>>;

/// `serde_json::from_str::<serde_json::Value>` followed by
/// `serde_json::to_string_pretty` of the value read: the pretty form of a
/// JSON text, or the `Display` message of the `serde_json::Error` of the
/// step that fails. The claim is only that the result is what
/// `pretty_json_text` names for the text.
#[verifier::external_body]
pub(crate) fn reformat_json_text(text: &str) -> (pretty: Result<String, String>)
    ensures
        pretty is Ok == pretty_json_text(text@) is Ok,
        pretty matches Ok(p) ==> pretty_json_text(text@)->Ok_0 == p@,
        pretty matches Err(m) ==> pretty_json_text(text@)->Err_0 == m@,
{
    match serde_json::from_str::<serde_json::Value>(text) {
        Ok(value) => match serde_json::to_string_pretty(&value) {
            Ok(p) => Ok(p),
            Err(e) => Err(e.to_string()),
        },
        Err(e) => Err(e.to_string()),
    }
}

/// `serde_json::from_slice::<serde_json::Value>` followed by
/// `serde_json::to_string_pretty` of the value read: the pretty form of a
/// JSON document given as bytes, or `None` where either step fails. The
/// claim is only that the result is what `pretty_json_bytes` names for the
/// bytes.
#[verifier::external_body]
pub(crate) fn reformat_json_bytes(bytes: &[u8]) -> (pretty: Option<String>)
    ensures
        pretty is Some == pretty_json_bytes(bytes@) is Some,
        pretty matches Some(p) ==> pretty_json_bytes(bytes@) == Some(p@),
{
    match serde_json::from_slice::<serde_json::Value>(bytes) {
        Ok(value) => serde_json::to_string_pretty(&value).ok(),
        Err(_) => None,
    }
}

} // verus!
