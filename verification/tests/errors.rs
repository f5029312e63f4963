use ppb_server::audit::csv_escape;
use ppb_server::commands::redact_args;
use ppb_server::error::{framework_error_code, ApiError, ErrorCode};
use ppb_server::json::{Json, JsonNumber};
use ppb_server::pagination::{Page, PaginationParams, DEFAULT_PAGE_NUM};

fn j(text: &str) -> Json {
    from_serde(&serde_json::from_str(text).unwrap())
}

fn from_serde(v: &serde_json::Value) -> Json {
    match v {
        serde_json::Value::Null => Json::Null,
        serde_json::Value::Bool(b) => Json::Bool(*b),
        serde_json::Value::Number(n) => {
            if let Some(u) = n.as_u64() {
                Json::Number(JsonNumber::PosInt(u))
            } else if let Some(i) = n.as_i64() {
                Json::Number(JsonNumber::NegInt(i))
            } else {
                Json::Number(JsonNumber::Float(n.to_string()))
            }
        }
        serde_json::Value::String(s) => Json::Str(s.clone()),
        serde_json::Value::Array(a) => Json::Array(a.iter().map(from_serde).collect()),
        serde_json::Value::Object(o) => Json::Object(o.iter().map(|(k, v)| (k.clone(), from_serde(v))).collect()),
    }
}

#[test]
fn csv_escape_plain() {
    assert_eq!(csv_escape("room.kick"), "room.kick");
}

#[test]
fn csv_escape_quotes_comma_and_newline() {
    assert_eq!(csv_escape("a,b"), "\"a,b\"");
    assert_eq!(csv_escape("say \"hi\""), "\"say \"\"hi\"\"\"");
    assert_eq!(csv_escape("line1\nline2"), "\"line1\nline2\"");
}

#[test]
fn csv_escape_leaves_other_text_alone() {
    assert_eq!(csv_escape("a\rb"), "a\rb");
    assert_eq!(csv_escape(""), "");
}

#[test]
fn redacts_sensitive_keys() {
    let args = j(r#"{ "room_id": "ABC", "password": "hunter2", "refresh_token": "abc" }"#);
    let redacted = redact_args(&args);
    assert_eq!(redacted.get_str("room_id"), Some("ABC"));
    assert_eq!(redacted.get_str("password"), Some("[REDACTED]"));
    assert_eq!(redacted.get_str("refresh_token"), Some("[REDACTED]"));
}

#[test]
fn error_envelope_shape() {
    let err = ApiError::new(ErrorCode::PhiraReauthRequired, "reauth required").with_request_id("req-123");
    assert_eq!(err.code.status(), 401);
    let envelope = err.into_envelope("");
    assert_eq!(envelope.error.code.as_str(), "PHIRA_REAUTH_REQUIRED");
    assert_eq!(envelope.error.request_id, "req-123");
    assert!(envelope.error.details.params.is_empty());
}

#[test]
fn internal_error_redacts_details_and_message() {
    let err = ApiError::new(ErrorCode::InternalError, "postgres password=secret at /srv/db.rs:10");
    assert_eq!(err.code, ErrorCode::InternalError);
    assert_eq!(err.message, "internal server error");
}

#[test]
fn blank_request_id_takes_fallback() {
    let env = ApiError::validation("bad").into_envelope("req-9");
    assert_eq!(env.error.request_id, "req-9");
    assert_eq!(env.error.message, "bad");
}

#[test]
fn framework_mapping_is_stable() {
    assert_eq!(framework_error_code(400), ErrorCode::ValidationFailed);
    assert_eq!(framework_error_code(405), ErrorCode::MethodNotAllowed);
    assert_eq!(framework_error_code(500), ErrorCode::InternalError);
}

#[test]
fn not_found_names_the_resource() {
    let e = ApiError::not_found("room");
    assert_eq!(e.code, ErrorCode::RoomNotFound);
    assert_eq!(e.message, "resource not found: room");
    assert_eq!(ApiError::not_found("widget").code, ErrorCode::ResourceNotFound);
}

#[test]
fn resolves_defaults() {
    let p = PaginationParams::default();
    let (page, page_num) = p.resolve().unwrap();
    assert_eq!(page, 1);
    assert_eq!(page_num, DEFAULT_PAGE_NUM);
    let (offset, limit) = p.offset_limit().unwrap();
    assert_eq!(offset, 0);
    assert_eq!(limit, DEFAULT_PAGE_NUM);
}

#[test]
fn resolves_explicit() {
    let p = PaginationParams { page: Some(3), page_num: Some(50) };
    let (page, page_num) = p.resolve().unwrap();
    assert_eq!(page, 3);
    assert_eq!(page_num, 50);
    let (offset, limit) = p.offset_limit().unwrap();
    assert_eq!(offset, 100);
    assert_eq!(limit, 50);
}

#[test]
fn rejects_oversized_page_num() {
    let p = PaginationParams { page: None, page_num: Some(101) };
    assert!(p.resolve().is_err());
}

#[test]
fn zero_page_reads_as_first() {
    let p = PaginationParams { page: Some(0), page_num: None };
    assert_eq!(p.resolve().unwrap(), (1, DEFAULT_PAGE_NUM));
    let bad = PaginationParams { page: None, page_num: Some(0) };
    assert_eq!(bad.resolve().unwrap_err().code, ErrorCode::ValidationFailed);
}

#[test]
fn response_shape() {
    let page = Page::new(vec![1, 2], 2, 1, 20);
    assert_eq!(page.items.len(), 2);
    assert_eq!(page.total, 2);
    assert_eq!(page.page, 1);
    assert_eq!(page.page_num, 20);
}
