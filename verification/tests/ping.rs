use lettermint::api::ping::PingRequest;
use lettermint::Method;

#[test]
fn endpoint_path_and_method() {
    let req = PingRequest;
    assert_eq!(req.endpoint(), "ping");
    assert_eq!(req.method(), Method::Get);
}

#[test]
fn parse_response_from_plain_text() {
    let resp = PingRequest.parse_response(b"pong").unwrap();
    assert_eq!(resp.message, "pong");
}

#[test]
fn parse_response_trims_whitespace() {
    let resp = PingRequest.parse_response(b"pong\n").unwrap();
    assert_eq!(resp.message, "pong");
}

#[test]
fn parse_response_replaces_invalid_utf8() {
    let resp = PingRequest.parse_response(b"\t po\xffng \r\n").unwrap();
    assert_eq!(resp.message, "po\u{FFFD}ng");
    let resp = PingRequest.parse_response("\u{3000}pong\u{2009}".as_bytes()).unwrap();
    assert_eq!(resp.message, "pong");
}
