use std::collections::HashMap;

use lettermint::reqwest_client::{is_header_value_str, join_url, LettermintClient, LETTERMINT_API_URL};
use lettermint::{check_response, plan_request, ErrorBody, Method, QueryError};

#[derive(Debug)]
struct MockClientError;

fn body(error_type: Option<&str>, error: Option<&str>, message: Option<&str>) -> Option<ErrorBody> {
    Some(ErrorBody {
        error_type: error_type.map(String::from),
        error: error.map(String::from),
        message: message.map(String::from),
        errors: None,
    })
}

#[test]
fn post_plan_has_json_content_type() {
    let plan = plan_request(Method::Post, "send", vec![]);
    assert_eq!(plan.method, Method::Post);
    assert_eq!(plan.uri, "/send");
    assert!(plan.has_body);
    assert_eq!(
        plan.headers,
        vec![
            ("Accept".to_string(), "application/json".to_string()),
            ("Content-Type".to_string(), "application/json".to_string()),
        ]
    );
}

#[test]
fn get_plan_has_no_body_or_content_type() {
    let plan = plan_request(Method::Get, "/messages", vec![]);
    assert_eq!(plan.uri, "/messages");
    assert!(!plan.has_body);
    assert_eq!(plan.headers, vec![("Accept".to_string(), "application/json".to_string())]);
    assert!(!plan_request(Method::Delete, "x", vec![]).has_body);
    assert!(!plan_request(Method::Head, "x", vec![]).has_body);
    assert!(plan_request(Method::Patch, "x", vec![]).has_body);
}

#[test]
fn extra_headers_come_between_accept_and_content_type() {
    let plan = plan_request(
        Method::Post,
        "send",
        vec![("Idempotency-Key".to_string(), "test-key".to_string())],
    );
    assert_eq!(plan.headers[1], ("Idempotency-Key".to_string(), "test-key".to_string()));
    assert_eq!(plan.headers.len(), 3);
}

#[test]
fn success_status_passes() {
    assert!(check_response::<MockClientError>(200, b"{}".to_vec(), None).is_ok());
    assert!(check_response::<MockClientError>(299, vec![], None).is_ok());
}

#[test]
fn status_422_is_validation() {
    let mut errors = HashMap::new();
    errors.insert("from".to_string(), vec!["domain not verified".to_string()]);
    let parsed = Some(ErrorBody {
        error_type: Some("DailyLimitExceeded".into()),
        error: None,
        message: Some("Limit reached".into()),
        errors: Some(errors),
    });
    match check_response::<MockClientError>(422, b"raw".to_vec(), parsed) {
        Err(QueryError::Validation { error_type, message, errors, body }) => {
            assert_eq!(error_type.as_deref(), Some("DailyLimitExceeded"));
            assert_eq!(message.as_deref(), Some("Limit reached"));
            assert!(errors.unwrap().contains_key("from"));
            assert_eq!(body, b"raw".to_vec());
        }
        other => panic!("expected Validation error, got: {other:?}"),
    }
}

#[test]
fn status_401_and_403_are_authentication() {
    match check_response::<MockClientError>(401, vec![], body(None, None, Some("Invalid API token")))
    {
        Err(QueryError::Authentication { message, .. }) => {
            assert_eq!(message.as_deref(), Some("Invalid API token"))
        }
        other => panic!("expected Authentication error, got: {other:?}"),
    }
    assert!(matches!(
        check_response::<MockClientError>(403, vec![], body(None, None, Some("Access denied"))),
        Err(QueryError::Authentication { .. })
    ));
}

#[test]
fn status_429_is_rate_limit() {
    match check_response::<MockClientError>(429, vec![], body(None, None, Some("Rate limit exceeded")))
    {
        Err(QueryError::RateLimit { message, .. }) => {
            assert_eq!(message.as_deref(), Some("Rate limit exceeded"))
        }
        other => panic!("expected RateLimit error, got: {other:?}"),
    }
}

#[test]
fn other_status_is_api_error() {
    match check_response::<MockClientError>(502, b"gateway timeout".to_vec(), None) {
        Err(QueryError::Api { status, error_type, message, body }) => {
            assert_eq!(status, 502);
            assert_eq!(error_type, None);
            assert_eq!(message, None);
            assert_eq!(body, b"gateway timeout".to_vec());
        }
        other => panic!("expected Api error, got: {other:?}"),
    }
    match check_response::<MockClientError>(
        400,
        vec![],
        body(None, Some("invalid_request"), Some("Bad from address")),
    ) {
        Err(QueryError::Api { status, error_type, message, .. }) => {
            assert_eq!(status, 400);
            assert_eq!(error_type.as_deref(), Some("invalid_request"));
            assert_eq!(message.as_deref(), Some("Bad from address"));
        }
        other => panic!("expected Api error, got: {other:?}"),
    }
    // `error_type` wins over `error`.
    match check_response::<MockClientError>(500, vec![], body(Some("InternalError"), Some("x"), None)) {
        Err(QueryError::Api { error_type, .. }) => {
            assert_eq!(error_type.as_deref(), Some("InternalError"))
        }
        other => panic!("expected Api error, got: {other:?}"),
    }
}

#[test]
fn client_error_wraps_source() {
    assert!(matches!(
        QueryError::client(MockClientError),
        QueryError::Client { source: MockClientError }
    ));
}

#[test]
fn url_joining() {
    assert_eq!(join_url("http://h:1", "/send"), "http://h:1/send");
    assert_eq!(join_url("http://h:1/", "send"), "http://h:1/send");
    assert_eq!(join_url("https://api.lettermint.co/v1//", "//send/batch"), "https://api.lettermint.co/v1/send/batch");
}

#[test]
fn client_configuration() {
    let c = LettermintClient::new("tok");
    assert_eq!(c.api_token(), "tok");
    assert_eq!(c.base_url(), LETTERMINT_API_URL);
    assert_eq!(c.request_url("/send"), "https://api.lettermint.co/v1/send");
    let (name, value) = c.auth_header().unwrap();
    assert_eq!(name, "x-lettermint-token");
    assert_eq!(value, "tok");
    let d = LettermintClient::with_base_url("secret-token", "http://127.0.0.1:9/");
    assert_eq!(d.request_url("ping"), "http://127.0.0.1:9/ping");
    let dbg = d.debug_string();
    assert_eq!(dbg, "LettermintClient { api_token: \"***\", base_url: \"http://127.0.0.1:9/\" }");
    assert!(!dbg.contains("secret-token"));
    let e = LettermintClient::with_reqwest_client("t", reqwest::Client::new());
    assert_eq!(e.base_url(), LETTERMINT_API_URL);
}

#[test]
fn auth_header_refuses_tokens_that_are_no_header_value() {
    assert!(LettermintClient::new("bad\ntoken").auth_header().is_none());
    assert!(LettermintClient::new("del\u{7f}").auth_header().is_none());
    assert!(LettermintClient::new("tab\tand space ok").auth_header().is_some());
    assert!(is_header_value_str("visible-ascii_123"));
    assert!(!is_header_value_str("nul\0"));
}
