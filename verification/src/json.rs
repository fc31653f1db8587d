//! JSON documents, read through `serde_json`.
//!
//! A parsed document stays a `serde_json::Value`. Contracts speak of its
//! [`JsonView`], and the functions here are the only ones that look inside.

use vstd::prelude::*;

verus! {

/// A JSON value as contracts see it. Numbers are told apart from the other
/// kinds, but their value is not modelled.
pub enum JsonView {
    Null,
    Bool(bool),
    Number,
    Text(Seq<char>),
    Array(Seq<JsonView>),
    Object(Map<Seq<char>, JsonView>),
}

impl JsonView {
    /// The member `key` of an object; null where there is none, or no object.
    pub open spec fn member(self, key: Seq<char>) -> JsonView {
        match self {
            JsonView::Object(members) => if members.contains_key(key) {
                members[key]
            } else {
                JsonView::Null
            },
            _ => JsonView::Null,
        }
    }

    /// The elements of an array.
    pub open spec fn elements(self) -> Option<Seq<JsonView>> {
        match self {
            JsonView::Array(elements) => Some(elements),
            _ => None,
        }
    }

    /// The text of a string.
    pub open spec fn text(self) -> Option<Seq<char>> {
        match self {
            JsonView::Text(text) => Some(text),
            _ => None,
        }
    }
}

/// `serde_json::Value`, a parsed JSON value. Nothing is known of it but what
/// the functions below say.
#[verifier::external_type_specification]
#[verifier::external_body]
pub struct ExValue(serde_json::Value);

/// `serde_json::Error`, why a text is no JSON document. It is only passed on.
#[verifier::external_type_specification]
#[verifier::external_body]
pub struct ExError(serde_json::Error);

/// What a `serde_json::Value` holds.
pub uninterp spec fn json_view(value: serde_json::Value) -> JsonView;

/// The document that `body` is the JSON text of, if it is one.
pub uninterp spec fn json_document(body: Seq<u8>) -> Option<JsonView>;

/// The views of `values`, in order.
pub open spec fn json_views(values: Seq<serde_json::Value>) -> Seq<JsonView> {
    values.map_values(|value: serde_json::Value| json_view(value))
}

/// `serde_json::from_slice` at `Value`: parses `body` as one JSON document.
/// The result depends on the bytes alone.
#[verifier::external_body]
pub(crate) fn parse(body: &[u8]) -> (parsed: Result<serde_json::Value, serde_json::Error>)
    ensures
        match parsed {
            Ok(value) => json_document(body@) == Some(json_view(value)),
            Err(_) => json_document(body@) is None,
        },
{
    serde_json::from_slice::<serde_json::Value>(body)
}

/// Indexing a `Value` by a string: the member of that name if the value is an
/// object that has one, else the null value.
#[verifier::external_body]
pub(crate) fn member<'a>(value: &'a serde_json::Value, key: &str) -> (found: &'a serde_json::Value)
    ensures
        json_view(*found) == json_view(*value).member(key@),
{
    &value[key]
}

/// `Value::as_array`: the elements if the value is an array.
#[verifier::external_body]
pub(crate) fn elements(value: &serde_json::Value) -> (found: Option<&Vec<serde_json::Value>>)
    ensures
        match found {
            Some(list) => json_view(*value).elements() == Some(json_views(list@)),
            None => json_view(*value).elements() is None,
        },
{
    value.as_array()
}

/// `Value::as_str`: the text if the value is a string.
#[verifier::external_body]
pub(crate) fn text(value: &serde_json::Value) -> (found: Option<&str>)
    ensures
        match found {
            Some(text) => json_view(*value).text() == Some(text@),
            None => json_view(*value).text() is None,
        },
{
    value.as_str()
}

} // verus!
