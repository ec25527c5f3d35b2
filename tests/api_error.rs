use std::fmt;

use server_error::{ApiError, ContentType};

#[derive(Debug)]
struct BrokenDisplay;

impl fmt::Display for BrokenDisplay {
    fn fmt(&self, _f: &mut fmt::Formatter<'_>) -> fmt::Result {
        Err(fmt::Error)
    }
}

impl std::error::Error for BrokenDisplay {}

#[test]
fn test_serialize_api_error() {
    let api_error = ApiError::internal("internal error");
    let json = api_error.to_json();
    assert_eq!(json, r#"{"code":1,"msg":"internal error"}"#);

    let api_error = ApiError::bad_request("bad request");
    let json = api_error.to_json();
    assert_eq!(json, r#"{"code":2,"msg":"bad request"}"#);

    let api_error = ApiError::not_found("not found");
    let json = api_error.to_json();
    assert_eq!(json, r#"{"code":3,"msg":"not found"}"#);
}

#[test]
fn codes_are_fixed_per_variant() {
    assert_eq!(ApiError::Internal(String::from("a")).code(), 1);
    assert_eq!(ApiError::BadRequest(String::from("a")).code(), 2);
    assert_eq!(ApiError::NotFound(String::from("a")).code(), 3);
}

#[test]
fn constructors_keep_the_message() {
    assert!(matches!(ApiError::internal("x"), ApiError::Internal(m) if m == "x"));
    assert!(matches!(ApiError::bad_request("y"), ApiError::BadRequest(m) if m == "y"));
    assert!(matches!(ApiError::not_found("z"), ApiError::NotFound(m) if m == "z"));
}

#[test]
fn empty_message_serializes() {
    assert_eq!(ApiError::internal("").to_json(), r#"{"code":1,"msg":""}"#);
}

#[test]
fn message_is_escaped() {
    assert_eq!(
        ApiError::bad_request("say \"hi\"\\\n").to_json(),
        r#"{"code":2,"msg":"say \"hi\"\\\n"}"#
    );
}

#[test]
fn non_ascii_message_is_verbatim() {
    assert_eq!(ApiError::not_found("café ✓").to_json(), "{\"code\":3,\"msg\":\"café ✓\"}");
}

#[test]
fn api_statuses() {
    let r = ApiError::internal("boom").into_response();
    assert_eq!(r.status, 500);
    assert_eq!(r.content_type, ContentType::Json);
    assert_eq!(r.body, r#"{"code":1,"msg":"boom"}"#);
    assert!(!r.no_store);
    assert!(r.diagnostic.is_none());

    let r = ApiError::bad_request("bad").into_response();
    assert_eq!(r.status, 400);
    assert_eq!(r.body, r#"{"code":2,"msg":"bad"}"#);

    let r = ApiError::not_found("gone").into_response();
    assert_eq!(r.status, 404);
    assert_eq!(r.body, r#"{"code":3,"msg":"gone"}"#);
    assert!(!r.no_store);
}

#[test]
fn opaque_error_becomes_internal_api_error() {
    let e = ApiError::from(anyhow::Error::msg("disk on fire"));
    assert!(matches!(&e, ApiError::Internal(m) if m == "disk on fire"));
    assert_eq!(e.to_json(), r#"{"code":1,"msg":"disk on fire"}"#);

    let e = ApiError::from(anyhow::Error::msg(""));
    assert!(matches!(&e, ApiError::Internal(m) if m.is_empty()));

    let e: ApiError = anyhow::Error::msg(42).into();
    assert!(matches!(&e, ApiError::Internal(m) if m == "42"));
}

#[test]
fn opaque_error_with_failing_display_does_not_panic() {
    let e = ApiError::from(anyhow::Error::new(BrokenDisplay));
    assert!(matches!(&e, ApiError::Internal(_)));
    assert_eq!(e.into_response().status, 500);
}

#[test]
fn api_message_is_the_outermost_context() {
    let e = ApiError::from(anyhow::Error::msg("disk full").context("writing index"));
    assert!(matches!(&e, ApiError::Internal(m) if m == "writing index"));
}
