use hmac::{Hmac, Mac};
use lettermint::webhook::{
    parse_signature_header, verify_signature_at, Webhook, WebhookError, DEFAULT_TOLERANCE,
};
use sha2::Sha256;

type HmacSha256 = Hmac<Sha256>;

fn make_signature(payload: &str, secret: &str, timestamp: u64) -> String {
    let signed = format!("{timestamp}.{payload}");
    let mut mac =
        HmacSha256::new_from_slice(secret.as_bytes()).expect("HMAC can take key of any size");
    mac.update(signed.as_bytes());
    let sig = hex::encode(mac.finalize().into_bytes());
    format!("t={timestamp},v1={sig}")
}

fn now_secs() -> u64 {
    std::time::SystemTime::now()
        .duration_since(std::time::UNIX_EPOCH)
        .unwrap()
        .as_secs()
}

fn digest_of(header: &str) -> String {
    header.split("v1=").nth(1).unwrap().to_string()
}

#[test]
fn valid_signature() {
    let secret = "test-secret";
    let payload = r#"{"event":"delivered"}"#;
    let now = now_secs();

    let header = make_signature(payload, secret, now);
    let wh = Webhook::new(secret).unwrap();
    let result = wh.verify(payload, &header);
    assert!(result.is_ok());
}

#[test]
fn invalid_signature() {
    let payload = r#"{"event":"delivered"}"#;
    let now = now_secs();

    let header = make_signature(payload, "correct-secret", now);
    let wh = Webhook::new("wrong-secret").unwrap();
    let result = wh.verify(payload, &header);
    assert!(matches!(result, Err(WebhookError::InvalidSignature)));
}

#[test]
fn expired_timestamp() {
    let secret = "test-secret";
    let payload = r#"{"event":"delivered"}"#;
    let old_ts = now_secs() - 600; // 10 minutes ago

    let header = make_signature(payload, secret, old_ts);
    let wh = Webhook::new(secret).unwrap();
    let result = wh.verify(payload, &header);
    assert!(matches!(
        result,
        Err(WebhookError::TimestampTolerance { .. })
    ));
}

#[test]
fn parse_signature_header_valid() {
    let (ts, sig) = parse_signature_header("t=1234567890,v1=abcdef").unwrap();
    assert_eq!(ts, 1234567890);
    assert_eq!(sig, "abcdef");
}

#[test]
fn parse_signature_header_missing_parts() {
    assert!(parse_signature_header("t=123").is_err());
    assert!(parse_signature_header("v1=abc").is_err());
    assert!(parse_signature_header("garbage").is_err());
}

#[test]
fn custom_tolerance() {
    let secret = "test-secret";
    let payload = r#"{"event":"delivered"}"#;
    let old_ts = now_secs() - 60; // 1 minute ago

    let header = make_signature(payload, secret, old_ts);

    // Default tolerance (300s) should pass
    let wh = Webhook::new(secret).unwrap();
    assert!(wh.verify(payload, &header).is_ok());

    // Tight tolerance (10s) should fail
    let wh_tight = Webhook::with_tolerance(secret, 10).unwrap();
    assert!(matches!(
        wh_tight.verify(payload, &header),
        Err(WebhookError::TimestampTolerance { .. })
    ));
}

#[test]
fn verify_headers_with_event_metadata() {
    let secret = "test-secret";
    let payload = r#"{"event":"delivered"}"#;
    let now = now_secs();

    let sig_header = make_signature(payload, secret, now);
    let wh = Webhook::new(secret).unwrap();

    let event = wh
        .verify_headers(
            &sig_header,
            Some(&now.to_string()),
            Some("message.delivered"),
            Some("1"),
            payload,
        )
        .unwrap();

    assert_eq!(event.event.as_deref(), Some("message.delivered"));
    assert_eq!(event.delivery_timestamp, Some(now));
    assert_eq!(event.attempt, Some(1));
    assert_eq!(event.payload["event"], "delivered");
}

#[test]
fn verify_headers_without_optional_headers() {
    let secret = "test-secret";
    let payload = r#"{"event":"delivered"}"#;
    let now = now_secs();

    let sig_header = make_signature(payload, secret, now);
    let wh = Webhook::new(secret).unwrap();

    let event = wh
        .verify_headers(&sig_header, None, None, None, payload)
        .unwrap();

    assert!(event.event.is_none());
    assert!(event.delivery_timestamp.is_none());
    assert!(event.attempt.is_none());
}

#[test]
fn empty_secret_returns_error() {
    assert!(matches!(Webhook::new(""), Err(WebhookError::EmptySecret)));
}

#[test]
fn empty_secret_with_tolerance_returns_error() {
    assert!(matches!(
        Webhook::with_tolerance("", 300),
        Err(WebhookError::EmptySecret)
    ));
}

// -- further cases -----------------------------------------------------------

#[test]
fn header_parts_are_trimmed_and_last_wins() {
    let (ts, sig) = parse_signature_header(" v1=aa , t=5 ,x=1, t=7,v1=bb ").unwrap();
    assert_eq!(ts, 7);
    assert_eq!(sig, "bb");
}

#[test]
fn header_with_bad_timestamp_is_rejected_even_if_later_valid() {
    match parse_signature_header("t=abc,t=5,v1=aa") {
        Err(WebhookError::InvalidFormat(m)) => assert_eq!(m, "invalid timestamp in signature"),
        other => panic!("unexpected: {other:?}"),
    }
    match parse_signature_header("t=5") {
        Err(WebhookError::InvalidFormat(m)) => {
            assert_eq!(m, "missing t= or v1= in signature header")
        }
        other => panic!("unexpected: {other:?}"),
    }
    // `+` is accepted before the digits, as `str::parse::<u64>` does.
    assert_eq!(parse_signature_header("t=+12,v1=").unwrap(), (12, String::new()));
    // A value above u64::MAX is not a timestamp.
    assert!(parse_signature_header("t=18446744073709551616,v1=aa").is_err());
}

#[test]
fn tolerance_window_is_inclusive() {
    let secret = "s";
    let payload = "{}";
    let header = make_signature(payload, secret, 1000);
    let digest = digest_of(&header);
    assert!(verify_signature_at(payload, &digest, secret, Some(1000), 300, Some(1300)).is_ok());
    assert!(verify_signature_at(payload, &digest, secret, Some(1000), 300, Some(700)).is_ok());
    assert!(matches!(
        verify_signature_at(payload, &digest, secret, Some(1000), 300, Some(1301)),
        Err(WebhookError::TimestampTolerance { tolerance: 300 })
    ));
    assert!(matches!(
        verify_signature_at(payload, &digest, secret, Some(1000), 300, None),
        Err(WebhookError::SystemClock)
    ));
}

#[test]
fn signature_without_timestamp_covers_payload_alone() {
    let secret = "k";
    let payload = "body";
    let mut mac = HmacSha256::new_from_slice(secret.as_bytes()).unwrap();
    mac.update(payload.as_bytes());
    let digest = hex::encode(mac.finalize().into_bytes());
    assert!(verify_signature_at(payload, &digest, secret, None, 0, None).is_ok());
    assert!(matches!(
        verify_signature_at("bodz", &digest, secret, None, 0, None),
        Err(WebhookError::InvalidSignature)
    ));
    // Upper-case hex is accepted too.
    assert!(verify_signature_at(payload, &digest.to_uppercase(), secret, None, 0, None).is_ok());
}

#[test]
fn non_hex_signature_is_invalid_format() {
    let r = verify_signature_at("{}", "zz", "k", Some(5), 10, Some(5));
    match r {
        Err(WebhookError::InvalidFormat(m)) => assert_eq!(m, "invalid hex in signature"),
        other => panic!("unexpected: {other:?}"),
    }
    // Odd length is not hex either.
    assert!(matches!(
        verify_signature_at("{}", "abc", "k", Some(5), 10, Some(5)),
        Err(WebhookError::InvalidFormat(_))
    ));
}

#[test]
fn valid_signature_on_non_json_body_is_json_error() {
    let secret = "test-secret";
    let payload = "not json";
    let header = make_signature(payload, secret, now_secs());
    let wh = Webhook::new(secret).unwrap();
    let err = wh.verify(payload, &header).unwrap_err();
    assert!(matches!(err, WebhookError::JsonDecode(_)));
    assert!(err.to_string().starts_with("invalid JSON payload: "));
    assert!(err.to_string().len() > "invalid JSON payload: ".len());
}

#[test]
fn delivery_header_must_match_signature() {
    let secret = "test-secret";
    let payload = r#"{"a":1}"#;
    let now = now_secs();
    let header = make_signature(payload, secret, now);
    let wh = Webhook::new(secret).unwrap();
    match wh.verify_headers(&header, Some(&(now + 1).to_string()), None, None, payload) {
        Err(WebhookError::InvalidFormat(m)) => {
            assert_eq!(m, "signature timestamp does not match delivery header")
        }
        other => panic!("unexpected: {other:?}"),
    }
    match wh.verify_headers(&header, Some("soon"), None, None, payload) {
        Err(WebhookError::InvalidFormat(m)) => assert_eq!(m, "invalid delivery timestamp"),
        other => panic!("unexpected: {other:?}"),
    }
    // An unreadable attempt header is dropped, not an error.
    let ev = wh
        .verify_headers(&header, None, Some("message.opened"), Some("first"), payload)
        .unwrap();
    assert_eq!(ev.attempt, None);
    assert_eq!(ev.event.as_deref(), Some("message.opened"));
}

#[test]
fn default_tolerance_is_five_minutes() {
    assert_eq!(DEFAULT_TOLERANCE, 300);
}

#[test]
fn error_messages() {
    assert_eq!(WebhookError::EmptySecret.to_string(), "webhook secret must not be empty");
    assert_eq!(
        WebhookError::InvalidFormat("x".to_string()).to_string(),
        "invalid signature format: x"
    );
    assert_eq!(WebhookError::InvalidSignature.to_string(), "signature mismatch");
    assert_eq!(
        WebhookError::TimestampTolerance { tolerance: 300 }.to_string(),
        "timestamp outside tolerance window (300s)"
    );
    assert_eq!(
        WebhookError::SystemClock.to_string(),
        "system clock is set before Unix epoch"
    );
}

#[test]
fn verify_returns_the_parsed_payload() {
    let secret = "test-secret";
    let payload = r#"{"event":"delivered","n":[1,2]}"#;
    let now = now_secs();
    let header = make_signature(payload, secret, now);
    let wh = Webhook::new(secret).unwrap();
    let expected: serde_json::Value = serde_json::from_str(payload).unwrap();
    assert_eq!(wh.verify(payload, &header).unwrap(), expected);
    let ev = wh.verify_headers(&header, None, None, None, payload).unwrap();
    assert_eq!(ev.payload, expected);
}

#[test]
fn verify_at_fixed_clock_applies_the_tolerance() {
    let secret = "fixed-clock-secret";
    let payload = r#"{"event":"opened"}"#;
    let header = make_signature(payload, secret, 5000);
    let wh = Webhook::with_tolerance(secret, 300).unwrap();
    let v = wh.verify_at(payload, &header, Some(5300)).unwrap();
    assert_eq!(v["event"], "opened");
    assert!(wh.verify_at(payload, &header, Some(4700)).is_ok());
    assert!(matches!(
        wh.verify_at(payload, &header, Some(5301)),
        Err(WebhookError::TimestampTolerance { tolerance: 300 })
    ));
    assert!(matches!(
        wh.verify_at(payload, &header, None),
        Err(WebhookError::SystemClock)
    ));
    let wide = Webhook::with_tolerance(secret, 10_000).unwrap();
    assert!(wide.verify_at(payload, &header, Some(14_000)).is_ok());
}

#[test]
fn verify_headers_at_fixed_clock() {
    let secret = "fixed-clock-secret";
    let payload = r#"{"event":"delivered"}"#;
    let header = make_signature(payload, secret, 7000);
    let wh = Webhook::new(secret).unwrap();
    let ev = wh
        .verify_headers_at(&header, Some("7000"), Some("message.delivered"), Some("2"), payload, Some(7100))
        .unwrap();
    assert_eq!(ev.payload["event"], "delivered");
    assert_eq!(ev.event.as_deref(), Some("message.delivered"));
    assert_eq!(ev.attempt, Some(2));
    assert!(matches!(
        wh.verify_headers_at(&header, None, None, None, payload, Some(7000 + DEFAULT_TOLERANCE + 1)),
        Err(WebhookError::TimestampTolerance { .. })
    ));
    assert!(matches!(
        wh.verify_headers_at(&header, Some("6999"), None, None, payload, Some(7000)),
        Err(WebhookError::InvalidFormat(_))
    ));
    assert!(matches!(
        wh.verify_headers_at(&header, None, None, None, payload, None),
        Err(WebhookError::SystemClock)
    ));
}
