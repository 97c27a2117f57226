//! The event decoder.
//!
//! An incoming document is decoded into an [`Event`], which holds the path
//! that the document is counted under, and the document's text, which is
//! what the downstream handler is later given.

use vstd::prelude::*;
use crate::error::HandlerError;
use crate::json::{json_member, json_string, json_text, member, string_of, to_text};

verus! {

/// What routes an incoming document: the text of its member `path`.
#[derive(Clone, Debug, PartialEq, Eq)]
pub struct Event {
    pub path: String,
}

/// A decoded document: its event, and the text of the whole document with
/// every member that it has.
#[derive(Clone, Debug, PartialEq, Eq)]
pub struct Decoded {
    pub event: Event,
    pub raw: String,
}

/// The path of a document: the text of its member `path`, where the document
/// is an object, has that member, and the member is a string.
pub open spec fn event_path(document: serde_json::Value) -> Option<Seq<char>> {
    match json_member(document, "path"@) {
        Some(found) => json_string(found),
        None => None,
    }
}

/// The path and the text of a decoded document, given the path that was
/// found in it and the text that was written for it: both are needed.
pub open spec fn decoded_from(path: Option<Seq<char>>, text: Option<Seq<char>>) -> Option<
    (Seq<char>, Seq<char>),
> {
    match (path, text) {
        (Some(p), Some(t)) => Some((p, t)),
        _ => None,
    }
}

/// The path and the text that decoding a document gives, or `None` where the
/// document cannot be decoded.
pub open spec fn decoding(document: serde_json::Value) -> Option<(Seq<char>, Seq<char>)> {
    decoded_from(event_path(document), json_text(document))
}

/// The text of an optional string slice.
pub open spec fn text_of(s: Option<&str>) -> Option<Seq<char>> {
    match s {
        Some(t) => Some(t@),
        None => None,
    }
}

/// The text of an optional string.
pub open spec fn string_text_of(s: Option<String>) -> Option<Seq<char>> {
    match s {
        Some(t) => Some(t@),
        None => None,
    }
}

impl Decoded {
    /// Puts a decoded document together from the path found in it and the
    /// text written for it. Fails with [`HandlerError::Decode`] exactly where
    /// one of the two is missing.
    pub fn from_parts(path: Option<&str>, text: Option<String>) -> (r: Result<
        Decoded,
        HandlerError,
    >)
        ensures
            match r {
                Ok(d) => decoded_from(text_of(path), string_text_of(text)) == Some(
                    (d.event.path@, d.raw@),
                ),
                Err(e) => e == HandlerError::Decode && decoded_from(
                    text_of(path),
                    string_text_of(text),
                ) is None,
            },
    {
        match path {
            Some(p) => match text {
                Some(raw) => Ok(Decoded { event: Event { path: p.to_owned() }, raw }),
                None => Err(HandlerError::Decode),
            },
            None => Err(HandlerError::Decode),
        }
    }
}

/// Reads the string member `path` of a document.
pub fn path_of<'a>(document: &'a serde_json::Value) -> (r: Option<&'a str>)
    ensures
        text_of(r) == event_path(*document),
{
    match member(document, "path") {
        Some(found) => string_of(found),
        None => None,
    }
}

/// Decodes an incoming document. Succeeds exactly where the document has a
/// string member `path` and can be written as text; the result then holds
/// that path and the text of the whole document, not of the path alone.
/// Fails with [`HandlerError::Decode`] otherwise.
pub fn decode(document: &serde_json::Value) -> (r: Result<Decoded, HandlerError>)
    ensures
        match r {
            Ok(d) => decoding(*document) == Some((d.event.path@, d.raw@)),
            Err(e) => e == HandlerError::Decode && decoding(*document) is None,
        },
{
    let text = match to_text(document) {
        Ok(t) => Some(t),
        Err(_) => None,
    };
    Decoded::from_parts(path_of(document), text)
}

} // verus!
