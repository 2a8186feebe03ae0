//! The trusted boundary to `serde_json`: a text is parsed into a document,
//! and a document gives out its text members and its compact form.

use vstd::prelude::*;

verus! {

/// A parsed JSON document of `serde_json`.
#[verifier::external_type_specification]
#[verifier::external_body]
pub struct ExJsonValue(serde_json::Value);

/// The error type of `serde_json`.
#[verifier::external_type_specification]
#[verifier::external_body]
pub struct ExJsonError(serde_json::Error);

/// The members of a document that are texts: each key of the document, where
/// it is an object, whose value is a JSON string, with that string. A
/// document that is no object has none.
pub uninterp spec fn json_members(doc: serde_json::Value) -> Map<Seq<char>, Seq<char>>;

/// The compact text that `serde_json` prints for a document.
pub uninterp spec fn json_compact(doc: serde_json::Value) -> Seq<char>;

/// What `serde_json::from_str` makes of a text: nothing where the text is
/// not JSON, else the text members and the compact form of the document.
pub uninterp spec fn json_reading(text: Seq<char>) -> Option<
    (Map<Seq<char>, Seq<char>>, Seq<char>),
>;

/// Trusted: `serde_json::from_str` at the type `serde_json::Value`. The
/// contract gives the outcome its name: a document comes back exactly where
/// the reading of the text is one, and it has the members and the compact
/// form of that reading.
#[verifier::external_body]
pub(crate) fn json_parse(text: &str) -> (parsed: Result<serde_json::Value, serde_json::Error>)
    ensures
        match parsed {
            Ok(doc) => json_reading(text@) == Some((json_members(doc), json_compact(doc))),
            Err(_) => json_reading(text@) is None,
        },
{
    serde_json::from_str::<serde_json::Value>(text)
}

/// Trusted: `serde_json::Value::get` with a text key, then
/// `serde_json::Value::as_str` on what it found. The contract claims that a
/// text comes back exactly for the keys of the document's text members, and
/// that it is that member.
#[verifier::external_body]
pub(crate) fn json_text_member(doc: &serde_json::Value, key: &str) -> (member: Option<String>)
    ensures
        member is Some <==> json_members(*doc).contains_key(key@),
        member matches Some(s) ==> s@ == json_members(*doc)[key@],
{
    Some(doc.get(key)?.as_str()?.to_owned())
}

/// Trusted: `serde_json::Value`'s `Display`, through `to_string`. The
/// contract gives the text its name.
#[verifier::external_body]
pub(crate) fn json_render(doc: &serde_json::Value) -> (text: String)
    ensures
        text@ == json_compact(*doc),
{
    doc.to_string()
}

} // verus!
