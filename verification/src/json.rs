//! Reading request bodies from JSON text.

use crate::raw::{entries_map, RawBody, RawFieldValue, RawNumber, RawValueView};
use crate::response::{ApiErrorType, ApiErrorView, ValidationError, ValidationErrorView};
use serde_json::Value;
use vstd::prelude::*;

verus! {

/// `serde_json::Value`, a parsed JSON document. The verifier sees nothing
/// inside it; the library reads it only after converting it.
#[verifier::external_type_specification]
#[verifier::external_body]
pub struct ExJsonValue(Value);

/// Converts a `serde_json::Value` into the library's own type, variant by
/// variant and element by element: an array keeps its order, an object the
/// order in which `serde_json::Map` hands out its entries. A number that
/// `Number::as_u64` or `Number::as_i64` gives is kept as that integer, any
/// other one as the text that `Number` prints.
#[verifier::external_body]
pub(crate) fn raw_from_json(value: Value) -> RawFieldValue {
    match value {
        Value::Null => RawFieldValue::Null,
        Value::Bool(flag) => RawFieldValue::Bool(flag),
        Value::Number(n) => RawFieldValue::Number(match (n.as_u64(), n.as_i64()) {
            (Some(unsigned), _) => RawNumber::Unsigned(unsigned),
            (None, Some(negative)) => RawNumber::Negative(negative),
            (None, None) => RawNumber::Real(n.to_string()),
        }),
        Value::String(text) => RawFieldValue::String(text),
        Value::Array(items) => RawFieldValue::Array(items.into_iter().map(raw_from_json).collect()),
        Value::Object(map) => RawFieldValue::Object(
            map.into_iter().map(|(key, item)| (key, raw_from_json(item))).collect(),
        ),
    }
}

/// Converts a value of the library into a `serde_json::Value`, variant by
/// variant and element by element; `Missing` becomes `null`, and so does a
/// number whose text `serde_json::Number` does not read.
#[verifier::external_body]
pub(crate) fn json_from_raw(value: &RawFieldValue) -> Value {
    match value {
        RawFieldValue::Null | RawFieldValue::Missing => Value::Null,
        RawFieldValue::Bool(flag) => Value::Bool(*flag),
        RawFieldValue::Number(RawNumber::Unsigned(n)) => Value::from(*n),
        RawFieldValue::Number(RawNumber::Negative(n)) => Value::from(*n),
        RawFieldValue::Number(RawNumber::Real(text)) => {
            text.parse().map_or(Value::Null, Value::Number)
        },
        RawFieldValue::String(text) => Value::String(text.clone()),
        RawFieldValue::Array(items) => Value::Array(items.iter().map(json_from_raw).collect()),
        RawFieldValue::Object(entries) => Value::Object(
            entries.iter().map(|(key, item)| (key.clone(), json_from_raw(item))).collect(),
        ),
    }
}

/// The document that `serde_json` reads from a text: `None` where the text
/// is not one JSON document.
pub uninterp spec fn json_document(text: Seq<u8>) -> Option<RawValueView>;

/// Parses `text` with `serde_json::from_slice` into a `serde_json::Value`
/// and converts what comes out. The contract gives the outcome a name and
/// says no more of it.
#[verifier::external_body]
fn parse_json(text: &[u8]) -> (document: Option<RawFieldValue>)
    ensures
        document.deep_view() == json_document(text@),
{
    match serde_json::from_slice::<Value>(text) {
        Ok(value) => Some(raw_from_json(value)),
        Err(_) => None,
    }
}

/// The error that reports a body which is no JSON object.
pub open spec fn invalid_json_body() -> ApiErrorView {
    ApiErrorView::BodyValidationErrors(seq![ValidationErrorView::InvalidJsonBody])
}

/// The body that a parsed document stands for: that of an object, and none
/// for any other document and where there is no document.
pub open spec fn body_of(document: Option<RawValueView>) -> Option<Map<Seq<char>, RawValueView>> {
    match document {
        Some(RawValueView::Object(entries)) => Some(entries_map(entries, 0)),
        _ => None,
    }
}

/// Takes the body out of what a parser read: an object is the body, and
/// anything else is reported as an invalid body.
pub fn body_from_document(document: Option<RawFieldValue>) -> (r: Result<RawBody, ApiErrorType>)
    ensures
        match body_of(document.deep_view()) {
            Some(body) => r matches Ok(found) && found@ == body,
            None => r matches Err(error) && error.deep_view() == invalid_json_body(),
        },
{
    match document {
        Some(RawFieldValue::Object(entries)) => {
            proof {
                RawFieldValue::lemma_object_view(entries);
            }
            Ok(RawBody::new(entries))
        },
        _ => {
            let mut errors: Vec<ValidationError> = Vec::new();
            errors.push(ValidationError::InvalidJsonBody);
            assert(errors.deep_view() =~= seq![ValidationErrorView::InvalidJsonBody]);
            Err(ApiErrorType::BodyValidationErrors(errors))
        },
    }
}

/// Reads the body of a request from its bytes. A text that is not one JSON
/// document, and a document that is not an object, are reported as an
/// invalid body.
pub fn parse_body(text: &[u8]) -> (r: Result<RawBody, ApiErrorType>)
    ensures
        match body_of(json_document(text@)) {
            Some(body) => r matches Ok(found) && found@ == body,
            None => r matches Err(error) && error.deep_view() == invalid_json_body(),
        },
{
    body_from_document(parse_json(text))
}

} // verus!
