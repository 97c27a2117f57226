//! JSON documents, as `serde_json` reads and writes them.
//!
//! A document is opaque here. What the rest of the library needs of one is
//! given a name below, and each function of this file hands one question on
//! to `serde_json`; its contract is taken on trust.

use vstd::prelude::*;

verus! {

/// `serde_json::Value`, a JSON document. Nothing inside it is visible here:
/// it is carried through, and asked about through the functions below.
#[verifier::external_type_specification]
#[verifier::external_body]
pub struct ExValue(serde_json::Value);

/// `serde_json::Error`, what `serde_json` reports when it cannot read or
/// write a document. Nothing inside it is visible here.
#[verifier::external_type_specification]
#[verifier::external_body]
pub struct ExError(serde_json::Error);

/// The compact text that `serde_json::to_string` writes for a document, or
/// `None` where it reports an error.
pub uninterp spec fn json_text(document: serde_json::Value) -> Option<Seq<char>>;

/// The member that `serde_json::Value::get` finds under a string key: `None`
/// where the document is no object or has no such member.
pub uninterp spec fn json_member(document: serde_json::Value, key: Seq<char>) -> Option<
    serde_json::Value,
>;

/// The text of a document that is a string, as `serde_json::Value::as_str`
/// gives it: `None` for a document of any other kind.
pub uninterp spec fn json_string(document: serde_json::Value) -> Option<Seq<char>>;

/// The document that `serde_json::from_slice` reads from bytes, or `None`
/// where it reports an error.
pub uninterp spec fn json_document(bytes: Seq<u8>) -> Option<serde_json::Value>;

/// Calls `serde_json::to_string` on a document. Trusted: the text that comes
/// back is the one named `json_text`, and an error comes back exactly where
/// that name is `None`.
#[verifier::external_body]
pub(crate) fn to_text(document: &serde_json::Value) -> (r: Result<String, serde_json::Error>)
    ensures
        match r {
            Ok(text) => json_text(*document) == Some(text@),
            Err(_) => json_text(*document) is None,
        },
{
    serde_json::to_string(document)
}

/// Calls `serde_json::Value::get` with a string key. Trusted: the member that
/// comes back is the one named `json_member`.
#[verifier::external_body]
pub(crate) fn member<'a>(document: &'a serde_json::Value, key: &str) -> (r: Option<
    &'a serde_json::Value,
>)
    ensures
        match r {
            Some(found) => json_member(*document, key@) == Some(*found),
            None => json_member(*document, key@) is None,
        },
{
    document.get(key)
}

/// Calls `serde_json::Value::as_str`. Trusted: the text that comes back is
/// the one named `json_string`.
#[verifier::external_body]
pub(crate) fn string_of<'a>(document: &'a serde_json::Value) -> (r: Option<&'a str>)
    ensures
        match r {
            Some(text) => json_string(*document) == Some(text@),
            None => json_string(*document) is None,
        },
{
    document.as_str()
}

/// Calls `serde_json::from_slice` for a document. Trusted: the document that
/// comes back is the one named `json_document`, and an error comes back
/// exactly where that name is `None`.
#[verifier::external_body]
pub(crate) fn parse(bytes: &[u8]) -> (r: Result<serde_json::Value, serde_json::Error>)
    ensures
        match r {
            Ok(document) => json_document(bytes@) == Some(document),
            Err(_) => json_document(bytes@) is None,
        },
{
    serde_json::from_slice::<serde_json::Value>(bytes)
}

} // verus!
