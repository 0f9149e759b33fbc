use hess_core::json::{body_from_document, parse_body};
use hess_core::raw::{RawBody, RawFieldValue, RawNumber};
use hess_core::response::{ApiErrorType, ValidationError};

fn invalid_body() -> ApiErrorType {
    ApiErrorType::BodyValidationErrors(vec![ValidationError::InvalidJsonBody])
}

fn text(s: &str) -> RawFieldValue {
    RawFieldValue::String(s.to_string())
}

#[test]
fn object_is_read_entry_by_entry() {
    let body = parse_body(br#"{"name": "Ada", "tags": ["a", true, null], "age": 36}"#).unwrap();
    let missing = RawFieldValue::Missing;
    assert_eq!(body.field("name", &missing), &text("Ada"));
    assert_eq!(
        body.field("tags", &missing),
        &RawFieldValue::Array(vec![text("a"), RawFieldValue::Bool(true), RawFieldValue::Null])
    );
    assert_eq!(body.field("age", &missing), &RawFieldValue::Number(RawNumber::Unsigned(36)));
    assert_eq!(body.field("none", &missing), &RawFieldValue::Missing);
    assert_eq!(body.get("none"), None);
    assert_eq!(body.get("name"), Some(&text("Ada")));
}

#[test]
fn numbers_keep_their_kind() {
    let body = parse_body(
        br#"{"a": 0, "b": 18446744073709551615, "c": -1, "d": -9223372036854775808, "e": 1.5, "f": 1e2}"#,
    )
    .unwrap();
    let missing = RawFieldValue::Missing;
    assert_eq!(body.field("a", &missing), &RawFieldValue::Number(RawNumber::Unsigned(0)));
    assert_eq!(
        body.field("b", &missing),
        &RawFieldValue::Number(RawNumber::Unsigned(18446744073709551615))
    );
    assert_eq!(body.field("c", &missing), &RawFieldValue::Number(RawNumber::Negative(-1)));
    assert_eq!(
        body.field("d", &missing),
        &RawFieldValue::Number(RawNumber::Negative(-9223372036854775808))
    );
    assert_eq!(
        body.field("e", &missing),
        &RawFieldValue::Number(RawNumber::Real("1.5".to_string()))
    );
    assert_eq!(
        body.field("f", &missing),
        &RawFieldValue::Number(RawNumber::Real("100.0".to_string()))
    );
}

#[test]
fn nested_objects_keep_their_entries() {
    let body = parse_body(br#"{"outer": {"inner": {"leaf": false}}}"#).unwrap();
    let missing = RawFieldValue::Missing;
    assert_eq!(
        body.field("outer", &missing),
        &RawFieldValue::Object(vec![(
            "inner".to_string(),
            RawFieldValue::Object(vec![("leaf".to_string(), RawFieldValue::Bool(false))])
        )])
    );
}

#[test]
fn later_value_counts_where_the_text_holds_a_key_twice() {
    let body = parse_body(br#"{"k": 1, "k": 2}"#).unwrap();
    assert_eq!(body.entries.len(), 1);
    assert_eq!(
        body.get("k"),
        Some(&RawFieldValue::Number(RawNumber::Unsigned(2)))
    );
}

#[test]
fn empty_object_is_an_empty_body() {
    assert_eq!(parse_body(b"{}"), Ok(RawBody::new(vec![])));
    assert_eq!(parse_body(b"  { }  "), Ok(RawBody::new(vec![])));
}

#[test]
fn document_that_is_no_object_is_an_invalid_body() {
    for bytes in [&b"[1, 2]"[..], b"\"text\"", b"12", b"true", b"null"] {
        assert_eq!(parse_body(bytes), Err(invalid_body()));
    }
}

#[test]
fn text_that_is_no_document_is_an_invalid_body() {
    for bytes in [&b""[..], b"{", b"{\"a\": }", b"{} {}", b"{'a': 1}", b"\xff\xfe", b"{\"a\": 1,}"] {
        assert_eq!(parse_body(bytes), Err(invalid_body()));
    }
}

#[test]
fn body_is_taken_out_of_an_object_only() {
    let entries = vec![("a".to_string(), RawFieldValue::Null)];
    assert_eq!(
        body_from_document(Some(RawFieldValue::Object(vec![(
            "a".to_string(),
            RawFieldValue::Null
        )]))),
        Ok(RawBody::new(entries))
    );
    assert_eq!(body_from_document(None), Err(invalid_body()));
    assert_eq!(body_from_document(Some(RawFieldValue::Array(vec![]))), Err(invalid_body()));
    assert_eq!(body_from_document(Some(RawFieldValue::Null)), Err(invalid_body()));
    assert_eq!(body_from_document(Some(RawFieldValue::Missing)), Err(invalid_body()));
}

#[test]
fn copy_of_a_value_is_the_value() {
    let body = parse_body(br#"{"a": [1, -2, 3.5, "x", null, {"b": [true, {}]}], "c": {}}"#).unwrap();
    let copy = body.clone();
    assert_eq!(copy, body);
    let value = RawFieldValue::Object(body.entries);
    assert_eq!(value.clone(), value);
    assert_eq!(RawFieldValue::Missing.clone(), RawFieldValue::Missing);
}
