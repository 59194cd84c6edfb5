//! The JSON reading that routing needs, done by serde_json.
use vstd::prelude::*;

verus! {

/// serde_json's JSON document type; opaque here.
#[verifier::external_type_specification]
#[verifier::external_body]
pub struct ExJsonValue(serde_json::Value);

/// serde_json's parse error type; opaque here.
#[verifier::external_type_specification]
#[verifier::external_body]
pub struct ExJsonError(serde_json::Error);

/// The document that `serde_json::from_str::<Value>` reads from `text`, or
/// `None` where it rejects `text`.
pub uninterp spec fn parsed_json(text: Seq<char>) -> Option<serde_json::Value>;

/// What `serde_json::Value::get` returns for a string key: the member `key`
/// of an object document, `None` for a non-object or a missing member.
pub uninterp spec fn json_member(document: serde_json::Value, key: Seq<char>) -> Option<
    serde_json::Value,
>;

/// What `serde_json::Value::as_str` returns: the text of a string document,
/// `None` for any other document.
pub uninterp spec fn json_str(document: serde_json::Value) -> Option<Seq<char>>;

/// Calls `serde_json::from_str::<serde_json::Value>`. Trusted: the result is
/// `Ok` exactly where `parsed_json` names a document, and is that document.
/// The contents of the error are not described.
#[verifier::external_body]
pub(crate) fn parse_json(text: &str) -> (document: Result<serde_json::Value, serde_json::Error>)
    ensures
        match document {
            Ok(v) => parsed_json(text@) == Some(v),
            Err(_) => parsed_json(text@) is None,
        },
{
    serde_json::from_str::<serde_json::Value>(text)
}

/// Calls `serde_json::Value::get` with a string key. Trusted: the result is
/// the member that `json_member` names for the document and key.
#[verifier::external_body]
pub(crate) fn value_get<'a>(document: &'a serde_json::Value, key: &str) -> (m: Option<
    &'a serde_json::Value,
>)
    ensures
        match m {
            Some(v) => json_member(*document, key@) == Some(*v),
            None => json_member(*document, key@) is None,
        },
{
    document.get(key)
}

/// Calls `serde_json::Value::as_str`. Trusted: the result is the text that
/// `json_str` names for the document.
#[verifier::external_body]
pub(crate) fn value_as_str(document: &serde_json::Value) -> (s: Option<&str>)
    ensures
        match s {
            Some(t) => json_str(*document) == Some(t@),
            None => json_str(*document) is None,
        },
{
    document.as_str()
}

} // verus!
