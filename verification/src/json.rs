//! JSON documents, which this crate carries and reads through serde_json
//! without looking inside them itself.

use vstd::prelude::*;

verus! {

/// `serde_json::Value`, carried through as an opaque JSON document.
#[verifier::external_type_specification]
#[verifier::external_body]
pub struct ExJsonValue(serde_json::Value);

/// `<serde_json::Value as Clone>::clone` yields a document equal to the one
/// it was given.
pub assume_specification[ <serde_json::Value as Clone>::clone ](v: &serde_json::Value) -> (r: serde_json::Value)
    ensures
        r == *v,
;

/// What `serde_json::from_str` makes of a text that is read as a `Value`:
/// the JSON document that the text spells, or else what the parser's error
/// displays.
pub uninterp spec fn json_of(text: Seq<char>) -> Result<serde_json::Value, Seq<char>>;

/// Whether a JSON document is an object, as `Value::is_object` tells.
pub uninterp spec fn json_is_object(document: serde_json::Value) -> bool;

/// What a JSON document holds under a key, as `Value::get` finds it.
pub uninterp spec fn json_field(document: serde_json::Value, key: Seq<char>) -> FieldView;

/// What an argument document holds under one key.
pub enum Field {
    /// The document is no object, or holds nothing under the key.
    Absent,
    /// The key holds null.
    Null,
    /// The key holds this text.
    Text(String),
    /// The key holds something that is no text.
    Other,
}

pub enum FieldView {
    Absent,
    Null,
    Text(Seq<char>),
    Other,
}

impl View for Field {
    type V = FieldView;

    open spec fn view(&self) -> FieldView {
        match *self {
            Field::Absent => FieldView::Absent,
            Field::Null => FieldView::Null,
            Field::Text(text) => FieldView::Text(text@),
            Field::Other => FieldView::Other,
        }
    }
}

/// How a parse result reads: the document, or the text of the failure.
pub open spec fn parsed_view(r: Result<serde_json::Value, String>) -> Result<serde_json::Value, Seq<char>> {
    match r {
        Ok(document) => Ok(document),
        Err(message) => Err(message@),
    }
}

/// `serde_json::from_str` for a `Value`; a failure is handed on as the text
/// that the parser's error displays. The result is named by [`json_of`].
#[verifier::external_body]
pub(crate) fn parse_json(text: &str) -> (r: Result<serde_json::Value, String>)
    ensures
        parsed_view(r) == json_of(text@),
{
    serde_json::from_str::<serde_json::Value>(text).map_err(|e| e.to_string())
}

/// `serde_json::Value::get` with a string key, the value found told apart
/// by its kind. The result is named by [`json_field`].
#[verifier::external_body]
pub(crate) fn field_of(document: &serde_json::Value, key: &str) -> (r: Field)
    ensures
        r@ == json_field(*document, key@),
{
    match document.get(key) {
        None => Field::Absent,
        Some(serde_json::Value::Null) => Field::Null,
        Some(serde_json::Value::String(text)) => Field::Text(text.clone()),
        Some(_) => Field::Other,
    }
}

/// `serde_json::Value::is_object`. The result is named by
/// [`json_is_object`].
#[verifier::external_body]
pub(crate) fn is_object(document: &serde_json::Value) -> (r: bool)
    ensures
        r == json_is_object(*document),
{
    document.is_object()
}

/// The JSON string whose text is `text`.
pub uninterp spec fn json_text_of(text: Seq<char>) -> serde_json::Value;

/// `serde_json::Value::String` around a text. The result is named by
/// [`json_text_of`].
#[verifier::external_body]
pub(crate) fn json_text(text: String) -> (r: serde_json::Value)
    ensures
        r == json_text_of(text@),
{
    serde_json::Value::String(text)
}

} // verus!
