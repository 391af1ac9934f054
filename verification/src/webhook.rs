//! Verification of HMAC-SHA256 signatures on inbound Lettermint webhook
//! deliveries.
//!
//! The `X-Lettermint-Signature` header carries the signed timestamp and
//! digest as `t=<unix_seconds>,v1=<hex_hmac_sha256>`. Verification computes
//! the HMAC over `"{timestamp}.{raw_body}"` with the shared secret and
//! rejects deliveries whose timestamp is further than the tolerance (five
//! minutes unless configured) from the local clock.

use crate::json::{is_json_text, json_parse, parse_json};
use crate::text::{
    chars_to_string, decimal, is_whitespace, parse_u32, parse_u32_spec, parse_u64, parse_u64_spec,
    push_decimal, split, str_chars, trim, trim_chars,
};
use hmac::{Hmac, Mac};
use sha2::Sha256;
use vstd::prelude::*;
use vstd::utf8::*;

verus! {

/// Default timestamp tolerance in seconds (5 minutes).
pub const DEFAULT_TOLERANCE: u64 = 300;

// ---------------------------------------------------------------------------
// Errors
// ---------------------------------------------------------------------------

/// Errors that can occur during webhook construction or verification.
#[derive(Debug)]
pub enum WebhookError {
    /// The secret given to the constructor was empty.
    EmptySecret,
    /// A header did not have the expected form; the text says which.
    InvalidFormat(String),
    /// The signature does not match the payload and secret.
    InvalidSignature,
    /// The signed timestamp is further from the clock than the tolerance.
    TimestampTolerance { tolerance: u64 },
    /// The signature was valid but the body was not parseable as JSON.
    JsonDecode(serde_json::Error),
    /// The host clock is set before the Unix epoch.
    SystemClock,
}

/// What a `WebhookError` says, with its message text as chars.
pub enum WebhookFault {
    EmptySecret,
    InvalidFormat(Seq<char>),
    InvalidSignature,
    TimestampTolerance(u64),
    JsonDecode,
    SystemClock,
}

impl WebhookError {
    /// The fault this error reports.
    pub open spec fn fault(&self) -> WebhookFault {
        match self {
            WebhookError::EmptySecret => WebhookFault::EmptySecret,
            WebhookError::InvalidFormat(m) => WebhookFault::InvalidFormat(m@),
            WebhookError::InvalidSignature => WebhookFault::InvalidSignature,
            WebhookError::TimestampTolerance { tolerance } => WebhookFault::TimestampTolerance(
                *tolerance,
            ),
            WebhookError::JsonDecode(_) => WebhookFault::JsonDecode,
            WebhookError::SystemClock => WebhookFault::SystemClock,
        }
    }

    /// The text of the error's message; for `JsonDecode`, the part before
    /// the JSON error's own text.
    pub open spec fn message(&self) -> Seq<char> {
        match self {
            WebhookError::EmptySecret => "webhook secret must not be empty"@,
            WebhookError::InvalidFormat(m) => "invalid signature format: "@ + m@,
            WebhookError::InvalidSignature => "signature mismatch"@,
            WebhookError::TimestampTolerance { tolerance } => "timestamp outside tolerance window ("@
                + decimal(*tolerance as nat) + "s)"@,
            WebhookError::JsonDecode(_) => "invalid JSON payload: "@,
            WebhookError::SystemClock => "system clock is set before Unix epoch"@,
        }
    }

    /// The error's message, as its `Display` renders it; a JSON error's
    /// message goes on with `serde_json`'s text for it.
    pub fn to_string(&self) -> (r: String)
        ensures
            !(self is JsonDecode) ==> r@ == self.message(),
            self is JsonDecode ==> self.message().is_prefix_of(r@),
    {
        match self {
            WebhookError::EmptySecret => String::from_str("webhook secret must not be empty"),
            WebhookError::InvalidFormat(m) => String::from_str("invalid signature format: ").concat(
                m.as_str(),
            ),
            WebhookError::InvalidSignature => String::from_str("signature mismatch"),
            WebhookError::TimestampTolerance { tolerance } => {
                let mut v = str_chars("timestamp outside tolerance window (");
                push_decimal(&mut v, *tolerance as u128);
                v.push('s');
                v.push(')');
                proof {
                    reveal_strlit("s)");
                    assert(v@ =~= "timestamp outside tolerance window ("@ + decimal(
                        *tolerance as nat,
                    ) + "s)"@);
                }
                chars_to_string(v.as_slice())
            },
            WebhookError::JsonDecode(e) => {
                let r = String::from_str("invalid JSON payload: ").concat(
                    json_error_message(e).as_str(),
                );
                assert(self.message().is_prefix_of(r@)) by {
                    assert(r@.take(self.message().len() as int) =~= self.message());
                }
                r
            },
            WebhookError::SystemClock => String::from_str("system clock is set before Unix epoch"),
        }
    }
}

/// Renders a `serde_json::Error` with its `Display` impl; nothing is
/// claimed of the text.
#[verifier::external_body]
fn json_error_message(e: &serde_json::Error) -> (r: String) {
    e.to_string()
}

/// `r` reports the outcome `o`: success for success, the same fault for a
/// failure.
pub open spec fn agrees<T>(r: Result<T, WebhookError>, o: Result<(), WebhookFault>) -> bool {
    match o {
        Ok(()) => r is Ok,
        Err(f) => r matches Err(e) && e.fault() == f,
    }
}

// ---------------------------------------------------------------------------
// The signature header
// ---------------------------------------------------------------------------

/// What the scan of the header has found so far: the last `t=` value and
/// the last `v1=` value.
pub type HeaderFields = (Option<u64>, Option<Seq<char>>);

/// `s` starts with `prefix`.
pub open spec fn has_prefix(s: Seq<char>, prefix: Seq<char>) -> bool {
    prefix.len() <= s.len() && s.take(prefix.len() as int) == prefix
}

/// The scan's step over one comma-separated part, trimmed: a `t=` part
/// sets the timestamp (`None` when it is not a valid `u64`), a `v1=` part
/// sets the signature, any other part is ignored.
pub open spec fn header_step(fields: HeaderFields, part: Seq<char>) -> Option<HeaderFields> {
    let p = trim(part);
    if has_prefix(p, "t="@) {
        match parse_u64_spec(p.skip(2)) {
            Some(t) => Some((Some(t), fields.1)),
            None => None,
        }
    } else if has_prefix(p, "v1="@) {
        Some((fields.0, Some(p.skip(3))))
    } else {
        Some(fields)
    }
}

/// The scan over the parts, left to right; `None` once a `t=` value fails
/// to parse.
pub open spec fn header_scan(parts: Seq<Seq<char>>) -> Option<HeaderFields>
    decreases parts.len(),
{
    if parts.len() == 0 {
        Some((None, None))
    } else {
        match header_scan(parts.drop_last()) {
            Some(fields) => header_step(fields, parts.last()),
            None => None,
        }
    }
}

/// What `parse_signature_header` gives for a header: the timestamp and the
/// signature text, or the fault it reports.
pub open spec fn parse_signature_header_spec(header: Seq<char>) -> Result<
    (u64, Seq<char>),
    WebhookFault,
> {
    match header_scan(split(header, ',')) {
        None => Err(WebhookFault::InvalidFormat("invalid timestamp in signature"@)),
        Some((Some(t), Some(sig))) => Ok((t, sig)),
        Some(_) => Err(WebhookFault::InvalidFormat("missing t= or v1= in signature header"@)),
    }
}

fn starts_with_chars(s: &[char], prefix: &str) -> (r: bool)
    ensures
        r == has_prefix(s@, prefix@),
{
    let p = str_chars(prefix);
    if p.len() > s.len() {
        return false;
    }
    let mut i: usize = 0;
    while i < p.len()
        invariant
            i <= p@.len() <= s@.len(),
            p@ == prefix@,
            forall|k: int| 0 <= k < i ==> s@[k] == p@[k],
        decreases p.len() - i,
    {
        if s[i] != p[i] {
            assert(s@.take(p@.len() as int)[i as int] != p@[i as int]);
            return false;
        }
        i = i + 1;
    }
    assert(s@.take(p@.len() as int) =~= p@);
    true
}

fn copy_from(s: &[char], start: usize) -> (r: Vec<char>)
    requires
        start <= s@.len(),
    ensures
        r@ == s@.skip(start as int),
{
    let mut out: Vec<char> = Vec::new();
    let mut i = start;
    while i < s.len()
        invariant
            start <= i <= s@.len(),
            out@ =~= s@.subrange(start as int, i as int),
        decreases s.len() - i,
    {
        out.push(s[i]);
        i = i + 1;
    }
    out
}

/// The spec view of the scan's state.
pub open spec fn fields_view(f: (Option<u64>, Option<Vec<char>>)) -> HeaderFields {
    (
        f.0,
        match f.1 {
            Some(v) => Some(v@),
            None => None,
        },
    )
}

fn header_step_exec(fields: (Option<u64>, Option<Vec<char>>), part: &[char]) -> (r: Option<
    (Option<u64>, Option<Vec<char>>),
>)
    ensures
        match header_step(fields_view(fields), part@) {
            Some(f) => r matches Some(g) && fields_view(g) == f,
            None => r is None,
        },
{
    let p = trim_chars(part);
    proof {
        reveal_strlit("t=");
        reveal_strlit("v1=");
    }
    if starts_with_chars(p.as_slice(), "t=") {
        let digits = copy_from(p.as_slice(), 2);
        match parse_u64(digits.as_slice()) {
            Some(t) => Some((Some(t), fields.1)),
            None => None,
        }
    } else if starts_with_chars(p.as_slice(), "v1=") {
        let sig = copy_from(p.as_slice(), 3);
        Some((fields.0, Some(sig)))
    } else {
        Some(fields)
    }
}

/// Parses `t=<timestamp>,v1=<signature>` from the signature header.
///
/// Parts are separated by commas and trimmed; the last `t=` and the last
/// `v1=` part win, a `t=` part whose value is not a `u64` is an error, and
/// other parts are ignored.
pub fn parse_signature_header(header: &str) -> (r: Result<(u64, String), WebhookError>)
    ensures
        match parse_signature_header_spec(header@) {
            Ok((t, sig)) => r matches Ok((t2, s2)) && t2 == t && s2@ == sig,
            Err(f) => r matches Err(e) && e.fault() == f,
        },
{
    let chars = str_chars(header);
    let mut state: Option<(Option<u64>, Option<Vec<char>>)> = Some((None, None));
    let mut done: Ghost<Seq<Seq<char>>> = Ghost(Seq::empty());
    let mut cur: Vec<char> = Vec::new();
    let mut i: usize = 0;
    while i < chars.len()
        invariant
            i <= chars@.len(),
            chars@ == header@,
            split(chars@.take(i as int), ',') == done@.push(cur@),
            match header_scan(done@) {
                Some(f) => state matches Some(g) && fields_view(g) == f,
                None => state is None,
            },
        decreases chars.len() - i,
    {
        let c = chars[i];
        let ghost prefix = chars@.take(i + 1);
        assert(prefix.drop_last() =~= chars@.take(i as int));
        assert(prefix.last() == c);
        if c == ',' {
            let ghost old_done = done@;
            state = match state {
                Some(fields) => header_step_exec(fields, cur.as_slice()),
                None => None,
            };
            proof {
                done@ = old_done.push(cur@);
                assert(done@.drop_last() =~= old_done);
            }
            cur = Vec::new();
            assert(split(prefix, ',') =~= done@.push(cur@));
        } else {
            cur.push(c);
            assert(split(prefix, ',') =~= done@.push(cur@));
        }
        i = i + 1;
    }
    assert(chars@.take(i as int) =~= header@);
    let ghost all = done@.push(cur@);
    assert(all.drop_last() =~= done@);
    let last = match state {
        Some(fields) => header_step_exec(fields, cur.as_slice()),
        None => None,
    };
    proof {
        reveal_strlit("invalid timestamp in signature");
        reveal_strlit("missing t= or v1= in signature header");
    }
    match last {
        None => Err(WebhookError::InvalidFormat(String::from_str("invalid timestamp in signature"))),
        Some((Some(t), Some(sig))) => Ok((t, chars_to_string(sig.as_slice()))),
        Some(_) => Err(
            WebhookError::InvalidFormat(String::from_str("missing t= or v1= in signature header")),
        ),
    }
}

// ---------------------------------------------------------------------------
// Hex, HMAC and the clock
// ---------------------------------------------------------------------------

/// `b` is an ASCII hex digit, either case.
pub open spec fn is_hex_byte(b: u8) -> bool {
    (48 <= b <= 57) || (65 <= b <= 70) || (97 <= b <= 102)
}

/// The value of an ASCII hex digit.
pub open spec fn hex_value(b: u8) -> nat {
    if b <= 57 {
        (b - 48) as nat
    } else if b <= 70 {
        (b - 55) as nat
    } else {
        (b - 87) as nat
    }
}

/// `hex::decode` accepts `s`: an even number of hex digits.
pub open spec fn hex_decodable(s: Seq<u8>) -> bool {
    s.len() % 2 == 0 && forall|i: int| 0 <= i < s.len() ==> #[trigger] is_hex_byte(s[i])
}

/// The bytes that `hex::decode` gives for a decodable `s`: each pair of
/// digits, high nibble first.
pub open spec fn hex_decode_spec(s: Seq<u8>) -> Seq<u8> {
    Seq::new(
        s.len() / 2,
        |i: int| (hex_value(s[2 * i]) * 16 + hex_value(s[2 * i + 1])) as u8,
    )
}

/// Decodes hex text with `hex::decode`, mapping its error to `None`.
///
/// `hex::decode` fails on an odd length or on a byte that is not a hex
/// digit, and otherwise decodes each pair of digits, high nibble first.
#[verifier::external_body]
fn hex_decode(text: &str) -> (r: Option<Vec<u8>>)
    ensures
        r is Some <==> hex_decodable(encode_utf8(text@)),
        r matches Some(v) ==> v@ == hex_decode_spec(encode_utf8(text@)),
{
    hex::decode(text).ok()
}

/// The HMAC-SHA256 tag of `message` under `key`.
pub uninterp spec fn hmac_sha256(key: Seq<u8>, message: Seq<u8>) -> Seq<u8>;

/// Checks `tag` against the HMAC-SHA256 of `message` under `key`, with the
/// `hmac` crate's `Hmac::<Sha256>::new_from_slice`, `update` and
/// `verify_slice`.
///
/// `new_from_slice` accepts keys of any length; `verify_slice` succeeds
/// exactly when `tag` equals the computed tag (which also fixes its length).
#[verifier::external_body]
fn hmac_sha256_matches(key: &[u8], message: &[u8], tag: &[u8]) -> (r: bool)
    ensures
        r == (tag@ == hmac_sha256(key@, message@)),
{
    let mut mac = Hmac::<Sha256>::new_from_slice(key).expect("HMAC can take key of any size");
    mac.update(message);
    mac.verify_slice(tag).is_ok()
}

/// Reads the system clock as whole seconds since the Unix epoch, `None`
/// when the clock is set before the epoch.
///
/// Nothing is claimed of the value: it is the time of the call.
#[verifier::external_body]
fn unix_time_secs() -> (r: Option<u64>) {
    match std::time::SystemTime::now().duration_since(std::time::UNIX_EPOCH) {
        Ok(d) => Some(d.as_secs()),
        Err(_) => None,
    }
}

// ---------------------------------------------------------------------------
// Signature verification
// ---------------------------------------------------------------------------

/// The distance between two instants in seconds.
pub open spec fn abs_diff(a: u64, b: u64) -> nat {
    if a >= b {
        (a - b) as nat
    } else {
        (b - a) as nat
    }
}

/// The text that is signed: `"{timestamp}.{payload}"`, or the payload alone
/// when there is no timestamp.
pub open spec fn signed_content(timestamp: Option<u64>, payload: Seq<char>) -> Seq<char> {
    match timestamp {
        Some(t) => decimal(t as nat) + seq!['.'] + payload,
        None => payload,
    }
}

/// The check of the digest alone: the signature must be hex and decode to
/// the HMAC-SHA256 of the signed content under the secret.
pub open spec fn digest_outcome(
    payload: Seq<char>,
    signature: Seq<char>,
    secret: Seq<char>,
    timestamp: Option<u64>,
) -> Result<(), WebhookFault> {
    let sig = encode_utf8(signature);
    if !hex_decodable(sig) {
        Err(WebhookFault::InvalidFormat("invalid hex in signature"@))
    } else if hex_decode_spec(sig) == hmac_sha256(
        encode_utf8(secret),
        encode_utf8(signed_content(timestamp, payload)),
    ) {
        Ok(())
    } else {
        Err(WebhookFault::InvalidSignature)
    }
}

/// The outcome of signature verification when the clock reads `clock`
/// (`None`: before the epoch). With a timestamp, the clock is checked
/// first: more than `tolerance` seconds away is a failure.
pub open spec fn signature_outcome(
    payload: Seq<char>,
    signature: Seq<char>,
    secret: Seq<char>,
    timestamp: Option<u64>,
    tolerance: u64,
    clock: Option<u64>,
) -> Result<(), WebhookFault> {
    match timestamp {
        Some(t) => match clock {
            None => Err(WebhookFault::SystemClock),
            Some(now) => if abs_diff(now, t) > tolerance {
                Err(WebhookFault::TimestampTolerance(tolerance))
            } else {
                digest_outcome(payload, signature, secret, timestamp)
            },
        },
        None => digest_outcome(payload, signature, secret, timestamp),
    }
}

/// Signature verification against a given clock reading.
pub fn verify_signature_at(
    payload: &str,
    expected_signature: &str,
    secret: &str,
    timestamp: Option<u64>,
    tolerance: u64,
    clock: Option<u64>,
) -> (r: Result<(), WebhookError>)
    ensures
        agrees(
            r,
            signature_outcome(payload@, expected_signature@, secret@, timestamp, tolerance, clock),
        ),
{
    if let Some(ts) = timestamp {
        match clock {
            None => {
                return Err(WebhookError::SystemClock);
            },
            Some(now) => {
                let diff = if now >= ts {
                    now - ts
                } else {
                    ts - now
                };
                if diff > tolerance {
                    return Err(WebhookError::TimestampTolerance { tolerance });
                }
            },
        }
    }
    let mut content: Vec<char> = Vec::new();
    if let Some(ts) = timestamp {
        push_decimal(&mut content, ts as u128);
        content.push('.');
    }
    let payload_chars = str_chars(payload);
    let mut i: usize = 0;
    let ghost base = content@;
    while i < payload_chars.len()
        invariant
            i <= payload_chars@.len(),
            content@ == base + payload_chars@.take(i as int),
        decreases payload_chars.len() - i,
    {
        content.push(payload_chars[i]);
        i = i + 1;
        assert(content@ =~= base + payload_chars@.take(i as int));
    }
    assert(payload_chars@.take(i as int) =~= payload@);
    assert(content@ =~= signed_content(timestamp, payload@));
    let content = chars_to_string(content.as_slice());
    proof {
        reveal_strlit("invalid hex in signature");
    }
    let expected_bytes = match hex_decode(expected_signature) {
        Some(b) => b,
        None => {
            return Err(
                WebhookError::InvalidFormat(String::from_str("invalid hex in signature")),
            );
        },
    };
    if hmac_sha256_matches(
        secret.as_bytes(),
        content.as_str().as_bytes(),
        expected_bytes.as_slice(),
    ) {
        Ok(())
    } else {
        Err(WebhookError::InvalidSignature)
    }
}

/// Signature verification against the system clock, read only when there
/// is a timestamp to check.
pub fn verify_signature(
    payload: &str,
    expected_signature: &str,
    secret: &str,
    timestamp: Option<u64>,
    tolerance: u64,
) -> (r: Result<(), WebhookError>)
    ensures
        exists|clock: Option<u64>|
            agrees(
                r,
                #[trigger] signature_outcome(
                    payload@,
                    expected_signature@,
                    secret@,
                    timestamp,
                    tolerance,
                    clock,
                ),
            ),
{
    let clock = match timestamp {
        Some(_) => unix_time_secs(),
        None => None,
    };
    let r = verify_signature_at(payload, expected_signature, secret, timestamp, tolerance, clock);
    assert(agrees(
        r,
        signature_outcome(payload@, expected_signature@, secret@, timestamp, tolerance, clock),
    ));
    r
}

// ---------------------------------------------------------------------------
// The verifier
// ---------------------------------------------------------------------------

/// A verified webhook event with metadata from Lettermint headers.
#[derive(Debug, Clone)]
pub struct WebhookEvent {
    /// The parsed JSON payload.
    pub payload: serde_json::Value,
    /// Event type from `X-Lettermint-Event` (e.g., `message.delivered`).
    pub event: Option<String>,
    /// Delivery timestamp from `X-Lettermint-Delivery`.
    pub delivery_timestamp: Option<u64>,
    /// Retry attempt number from `X-Lettermint-Attempt` (starts at 1).
    pub attempt: Option<u32>,
}

/// A verified event: its JSON value, and its metadata as chars and numbers.
pub struct EventMeta {
    pub payload: serde_json::Value,
    pub event: Option<Seq<char>>,
    pub delivery_timestamp: Option<u64>,
    pub attempt: Option<u32>,
}

/// The view of an optional string.
pub open spec fn opt_chars(s: Option<&str>) -> Option<Seq<char>> {
    match s {
        Some(v) => Some(v@),
        None => None,
    }
}

/// Webhook verifier for Lettermint webhook payloads.
///
/// Its secret is never empty.
pub struct Webhook {
    secret: String,
    tolerance: u64,
}

/// The outcome of `Webhook::verify` when the clock reads `clock`.
pub open spec fn verify_outcome(
    secret: Seq<char>,
    tolerance: u64,
    payload: Seq<char>,
    header: Seq<char>,
    clock: Option<u64>,
) -> Result<serde_json::Value, WebhookFault> {
    match parse_signature_header_spec(header) {
        Err(f) => Err(f),
        Ok((t, sig)) => match signature_outcome(payload, sig, secret, Some(t), tolerance, clock) {
            Err(f) => Err(f),
            Ok(()) => match json_parse(payload) {
                Some(v) => Ok(v),
                None => Err(WebhookFault::JsonDecode),
            },
        },
    }
}

/// `r` reports the outcome `o` of `verify`: the same JSON value, or the
/// same fault.
pub open spec fn value_agrees(
    r: Result<serde_json::Value, WebhookError>,
    o: Result<serde_json::Value, WebhookFault>,
) -> bool {
    match o {
        Ok(v) => r == Ok::<serde_json::Value, WebhookError>(v),
        Err(f) => r matches Err(e) && e.fault() == f,
    }
}

/// The delivery header's check against the signed timestamp `t`: absent is
/// fine, present must be a `u64` equal to `t`.
pub open spec fn delivery_outcome(delivery: Option<Seq<char>>, t: u64) -> Result<
    Option<u64>,
    WebhookFault,
> {
    match delivery {
        None => Ok(None),
        Some(d) => match parse_u64_spec(d) {
            None => Err(WebhookFault::InvalidFormat("invalid delivery timestamp"@)),
            Some(dt) => if dt != t {
                Err(
                    WebhookFault::InvalidFormat(
                        "signature timestamp does not match delivery header"@,
                    ),
                )
            } else {
                Ok(Some(dt))
            },
        },
    }
}

/// The attempt header read as a `u32`; absent or unreadable gives `None`.
pub open spec fn attempt_value(attempt: Option<Seq<char>>) -> Option<u32> {
    match attempt {
        Some(a) => parse_u32_spec(a),
        None => None,
    }
}

/// The outcome of `Webhook::verify_headers` when the clock reads `clock`.
pub open spec fn verify_headers_outcome(
    secret: Seq<char>,
    tolerance: u64,
    signature_header: Seq<char>,
    delivery: Option<Seq<char>>,
    event: Option<Seq<char>>,
    attempt: Option<Seq<char>>,
    payload: Seq<char>,
    clock: Option<u64>,
) -> Result<EventMeta, WebhookFault> {
    match parse_signature_header_spec(signature_header) {
        Err(f) => Err(f),
        Ok((t, sig)) => match delivery_outcome(delivery, t) {
            Err(f) => Err(f),
            Ok(dt) => match signature_outcome(payload, sig, secret, Some(t), tolerance, clock) {
                Err(f) => Err(f),
                Ok(()) => match json_parse(payload) {
                    Some(v) => Ok(
                        EventMeta {
                            payload: v,
                            event: event,
                            delivery_timestamp: dt,
                            attempt: attempt_value(attempt),
                        },
                    ),
                    None => Err(WebhookFault::JsonDecode),
                },
            },
        },
    }
}

/// `r` reports the outcome `o` of `verify_headers`.
pub open spec fn event_agrees(r: Result<WebhookEvent, WebhookError>, o: Result<EventMeta, WebhookFault>) -> bool {
    match o {
        Ok(m) => r matches Ok(ev) && ev.payload == m.payload && ev.delivery_timestamp
            == m.delivery_timestamp && ev.attempt
            == m.attempt && match ev.event {
            Some(e) => m.event == Some(e@),
            None => m.event is None,
        },
        Err(f) => r matches Err(e) && e.fault() == f,
    }
}

impl Webhook {
    #[verifier::type_invariant]
    spec fn secret_not_empty(self) -> bool {
        self.secret@.len() > 0
    }

    /// The shared secret.
    pub closed spec fn secret_chars(&self) -> Seq<char> {
        self.secret@
    }

    /// The timestamp tolerance in seconds.
    pub closed spec fn tolerance_secs(&self) -> u64 {
        self.tolerance
    }

    /// Create a new webhook verifier with the default tolerance of 300
    /// seconds.
    ///
    /// Errors if `secret` is empty.
    pub fn new(secret: &str) -> (r: Result<Webhook, WebhookError>)
        ensures
            secret@.len() == 0 ==> (r matches Err(e) && e.fault() == WebhookFault::EmptySecret),
            secret@.len() > 0 ==> (r matches Ok(w) && w.secret_chars() == secret@
                && w.tolerance_secs() == DEFAULT_TOLERANCE),
    {
        Webhook::with_tolerance(secret, DEFAULT_TOLERANCE)
    }

    /// Create a new webhook verifier with a custom timestamp tolerance in
    /// seconds.
    ///
    /// Errors if `secret` is empty.
    pub fn with_tolerance(secret: &str, tolerance: u64) -> (r: Result<Webhook, WebhookError>)
        ensures
            secret@.len() == 0 ==> (r matches Err(e) && e.fault() == WebhookFault::EmptySecret),
            secret@.len() > 0 ==> (r matches Ok(w) && w.secret_chars() == secret@
                && w.tolerance_secs() == tolerance),
    {
        if secret.is_empty() {
            return Err(WebhookError::EmptySecret);
        }
        Ok(Webhook { secret: String::from_str(secret), tolerance })
    }

    /// `verify` against a given clock reading (`None`: the clock is set
    /// before the epoch).
    pub fn verify_at(&self, payload: &str, signature_header: &str, clock: Option<u64>) -> (r: Result<
        serde_json::Value,
        WebhookError,
    >)
        ensures
            value_agrees(
                r,
                verify_outcome(
                    self.secret_chars(),
                    self.tolerance_secs(),
                    payload@,
                    signature_header@,
                    clock,
                ),
            ),
            r matches Ok(v) ==> json_parse(payload@) == Some(v),
    {
        let (timestamp, signature) = match parse_signature_header(signature_header) {
            Ok(p) => p,
            Err(e) => {
                assert(value_agrees(
                    Err::<serde_json::Value, WebhookError>(e),
                    verify_outcome(
                        self.secret_chars(),
                        self.tolerance_secs(),
                        payload@,
                        signature_header@,
                        clock,
                    ),
                ));
                return Err(e);
            },
        };
        let checked = verify_signature_at(
            payload,
            signature.as_str(),
            self.secret.as_str(),
            Some(timestamp),
            self.tolerance,
            clock,
        );
        let r = match checked {
            Err(e) => Err(e),
            Ok(()) => match parse_json(payload) {
                Ok(v) => Ok(v),
                Err(e) => Err(WebhookError::JsonDecode(e)),
            },
        };
        assert(value_agrees(
            r,
            verify_outcome(
                self.secret_chars(),
                self.tolerance_secs(),
                payload@,
                signature_header@,
                clock,
            ),
        ));
        r
    }

    /// Verify a webhook payload using the `X-Lettermint-Signature` header
    /// value, `t=<timestamp>,v1=<hex_digest>`, and return the parsed JSON
    /// body.
    pub fn verify(&self, payload: &str, signature_header: &str) -> (r: Result<
        serde_json::Value,
        WebhookError,
    >)
        ensures
            exists|clock: Option<u64>|
                value_agrees(
                    r,
                    #[trigger] verify_outcome(
                        self.secret_chars(),
                        self.tolerance_secs(),
                        payload@,
                        signature_header@,
                        clock,
                    ),
                ),
            r matches Ok(v) ==> json_parse(payload@) == Some(v),
    {
        let clock = unix_time_secs();
        self.verify_at(payload, signature_header, clock)
    }

    /// `verify_headers` against a given clock reading (`None`: the clock is
    /// set before the epoch).
    pub fn verify_headers_at(
        &self,
        signature_header: &str,
        delivery_header: Option<&str>,
        event_header: Option<&str>,
        attempt_header: Option<&str>,
        payload: &str,
        clock: Option<u64>,
    ) -> (r: Result<WebhookEvent, WebhookError>)
        ensures
            event_agrees(
                r,
                verify_headers_outcome(
                    self.secret_chars(),
                    self.tolerance_secs(),
                    signature_header@,
                    opt_chars(delivery_header),
                    opt_chars(event_header),
                    opt_chars(attempt_header),
                    payload@,
                    clock,
                ),
            ),
            r matches Ok(ev) ==> json_parse(payload@) == Some(ev.payload),
    {
        let ghost outcome = |c: Option<u64>|
            verify_headers_outcome(
                self.secret_chars(),
                self.tolerance_secs(),
                signature_header@,
                opt_chars(delivery_header),
                opt_chars(event_header),
                opt_chars(attempt_header),
                payload@,
                c,
            );
        let (timestamp, signature) = match parse_signature_header(signature_header) {
            Ok(p) => p,
            Err(e) => {
                assert(event_agrees(Err(e), outcome(clock)));
                return Err(e);
            },
        };
        proof {
            reveal_strlit("invalid delivery timestamp");
            reveal_strlit("signature timestamp does not match delivery header");
        }
        let delivery_timestamp = match delivery_header {
            Some(delivery) => {
                let dchars = str_chars(delivery);
                match parse_u64(dchars.as_slice()) {
                    None => {
                        let e = WebhookError::InvalidFormat(
                            String::from_str("invalid delivery timestamp"),
                        );
                        assert(event_agrees(Err(e), outcome(clock)));
                        return Err(e);
                    },
                    Some(dt) => {
                        if dt != timestamp {
                            let e = WebhookError::InvalidFormat(
                                String::from_str(
                                    "signature timestamp does not match delivery header",
                                ),
                            );
                            assert(event_agrees(Err(e), outcome(clock)));
                            return Err(e);
                        }
                        Some(dt)
                    },
                }
            },
            None => None,
        };
        let attempt = match attempt_header {
            Some(a) => {
                let achars = str_chars(a);
                parse_u32(achars.as_slice())
            },
            None => None,
        };
        let checked = verify_signature_at(
            payload,
            signature.as_str(),
            self.secret.as_str(),
            Some(timestamp),
            self.tolerance,
            clock,
        );
        if let Err(e) = checked {
            assert(event_agrees(Err(e), outcome(clock)));
            return Err(e);
        }
        let value = match parse_json(payload) {
            Ok(v) => v,
            Err(e) => {
                let e = WebhookError::JsonDecode(e);
                assert(event_agrees(Err(e), outcome(clock)));
                return Err(e);
            },
        };
        let event = match event_header {
            Some(e) => Some(String::from_str(e)),
            None => None,
        };
        let r = Ok(WebhookEvent { payload: value, event, delivery_timestamp, attempt });
        assert(event_agrees(r, outcome(clock)));
        r
    }

    /// Verify using HTTP headers and return a `WebhookEvent` with metadata.
    ///
    /// - `signature_header` (`X-Lettermint-Signature`, required): `t=<ts>,v1=<hash>`
    /// - `delivery_header` (`X-Lettermint-Delivery`, optional): delivery timestamp,
    ///   which must equal the signed one
    /// - `event_header` (`X-Lettermint-Event`, optional): event type
    /// - `attempt_header` (`X-Lettermint-Attempt`, optional): retry attempt number,
    ///   kept only when it reads as a `u32`
    pub fn verify_headers(
        &self,
        signature_header: &str,
        delivery_header: Option<&str>,
        event_header: Option<&str>,
        attempt_header: Option<&str>,
        payload: &str,
    ) -> (r: Result<WebhookEvent, WebhookError>)
        ensures
            exists|clock: Option<u64>|
                event_agrees(
                    r,
                    #[trigger] verify_headers_outcome(
                        self.secret_chars(),
                        self.tolerance_secs(),
                        signature_header@,
                        opt_chars(delivery_header),
                        opt_chars(event_header),
                        opt_chars(attempt_header),
                        payload@,
                        clock,
                    ),
                ),
            r matches Ok(ev) ==> json_parse(payload@) == Some(ev.payload),
    {
        let clock = unix_time_secs();
        self.verify_headers_at(
            signature_header,
            delivery_header,
            event_header,
            attempt_header,
            payload,
            clock,
        )
    }
}

// ---------------------------------------------------------------------------
// Laws
// ---------------------------------------------------------------------------

/// The lowercase hex digit for a value below sixteen.
pub open spec fn hex_digit_char(d: nat) -> char {
    seq!['0', '1', '2', '3', '4', '5', '6', '7', '8', '9', 'a', 'b', 'c', 'd', 'e', 'f'][d as int]
}

/// `c` is an ASCII hex digit, either case.
pub open spec fn is_hex_char(c: char) -> bool {
    ('0' <= c <= '9') || ('a' <= c <= 'f') || ('A' <= c <= 'F')
}

/// Lowercase hex text for `bytes`, high nibble first: the digest format of
/// the `v1=` part.
pub open spec fn hex_encode_spec(bytes: Seq<u8>) -> Seq<char> {
    Seq::new(
        2 * bytes.len(),
        |i: int|
            if i % 2 == 0 {
                hex_digit_char((bytes[i / 2] / 16) as nat)
            } else {
                hex_digit_char((bytes[i / 2] % 16) as nat)
            },
    )
}

/// The signature header that a sender writes for timestamp `t` and digest
/// text `digest`: `t=<t>,v1=<digest>`.
pub open spec fn signature_header_text(t: u64, digest: Seq<char>) -> Seq<char> {
    "t="@ + decimal(t as nat) + seq![','] + "v1="@ + digest
}

/// The signature header that a holder of `secret` writes for `payload`
/// signed at `t`.
pub open spec fn signed_header(secret: Seq<char>, t: u64, payload: Seq<char>) -> Seq<char> {
    signature_header_text(
        t,
        hex_encode_spec(hmac_sha256(encode_utf8(secret), encode_utf8(signed_content(Some(t), payload)))),
    )
}

proof fn lemma_trim_keeps(s: Seq<char>)
    requires
        s.len() > 0,
        !is_whitespace(s[0]),
        !is_whitespace(s.last()),
    ensures
        trim(s) == s,
{
}

/// A header in the documented form `t=<t>,v1=<hex digest>` reads back as
/// exactly that timestamp and digest.
pub proof fn lemma_signature_header_roundtrip(t: u64, digest: Seq<char>)
    requires
        forall|i: int| 0 <= i < digest.len() ==> #[trigger] is_hex_char(digest[i]),
    ensures
        parse_signature_header_spec(signature_header_text(t, digest)) == Ok::<(u64, Seq<char>), WebhookFault>((t, digest)),
{
    reveal_strlit("t=");
    reveal_strlit("v1=");
    crate::text::lemma_decimal_digits(t as nat);
    crate::text::lemma_parse_decimal(t);
    let dec = decimal(t as nat);
    let a = "t="@ + dec;
    let b = "v1="@ + digest;
    assert(signature_header_text(t, digest) =~= a + seq![','] + b);
    assert forall|k: int| 0 <= k < a.len() implies #[trigger] a[k] != ',' by {
        if k >= 2 {
            assert(a[k] == dec[k - 2]);
            assert(crate::text::is_digit(dec[k - 2]));
        }
    }
    assert forall|k: int| 0 <= k < b.len() implies #[trigger] b[k] != ',' by {
        if k >= 3 {
            assert(b[k] == digest[k - 3]);
            assert(is_hex_char(digest[k - 3]));
        }
    }
    crate::text::lemma_split_no_sep(a, ',');
    crate::text::lemma_split_append_piece(a, b, ',');
    let parts = split(a + seq![','] + b, ',');
    assert(parts =~= seq![a, b]);
    assert(a.last() == dec.last());
    assert(crate::text::is_digit(dec[dec.len() - 1]));
    lemma_trim_keeps(a);
    if digest.len() > 0 {
        assert(b.last() == digest[digest.len() - 1]);
        assert(is_hex_char(digest[digest.len() - 1]));
    }
    lemma_trim_keeps(b);
    assert(a.take(2) =~= "t="@);
    assert(a.skip(2) =~= dec);
    assert(b.take(3) =~= "v1="@);
    assert(b.skip(3) =~= digest);
    assert(!has_prefix(b, "t="@)) by {
        assert(b.take(2)[0] == 'v');
    }
    assert(parts.drop_last() =~= seq![a]);
    assert(seq![a].drop_last() =~= Seq::<Seq<char>>::empty());
    assert(trim(a) == a);
    assert(has_prefix(a, "t="@));
    assert(parse_u64_spec(a.skip(2)) == Some(t));
    assert(header_step((None, None), a) == Some((Some(t), None::<Seq<char>>)));
    assert(header_scan(Seq::<Seq<char>>::empty()) == Some((None::<u64>, None::<Seq<char>>)));
    assert(seq![a].last() == a);
    assert(header_scan(seq![a]) == Some((Some(t), None::<Seq<char>>)));
    assert(trim(b) == b);
    assert(has_prefix(b, "v1="@));
    assert(header_step((Some(t), None), b) == Some((Some(t), Some(digest))));
    assert(header_scan(parts) == Some((Some(t), Some(digest))));
}

proof fn lemma_hex_digit_char(d: nat)
    requires
        d < 16,
    ensures
        is_hex_char(hex_digit_char(d)),
        '\0' <= hex_digit_char(d) <= '\u{7f}',
        is_hex_byte(hex_digit_char(d) as u8),
        hex_value(hex_digit_char(d) as u8) == d,
{
}

/// Lowercase hex text is decodable and decodes back to the bytes it was
/// made from.
pub proof fn lemma_hex_roundtrip(bytes: Seq<u8>)
    ensures
        forall|i: int| 0 <= i < hex_encode_spec(bytes).len() ==> #[trigger] is_hex_char(
            hex_encode_spec(bytes)[i],
        ),
        hex_decodable(encode_utf8(hex_encode_spec(bytes))),
        hex_decode_spec(encode_utf8(hex_encode_spec(bytes))) == bytes,
{
    let h = hex_encode_spec(bytes);
    assert forall|i: int| 0 <= i < h.len() implies #[trigger] is_hex_char(h[i]) && '\0' <= h[i]
        <= '\u{7f}' by {
        if i % 2 == 0 {
            lemma_hex_digit_char((bytes[i / 2] / 16) as nat);
        } else {
            lemma_hex_digit_char((bytes[i / 2] % 16) as nat);
        }
    }
    assert(is_ascii_chars(h));
    is_ascii_chars_encode_utf8(h);
    let e = encode_utf8(h);
    assert forall|i: int| 0 <= i < e.len() implies #[trigger] is_hex_byte(e[i]) by {
        assert(e[i] == h[i] as u8);
        if i % 2 == 0 {
            lemma_hex_digit_char((bytes[i / 2] / 16) as nat);
        } else {
            lemma_hex_digit_char((bytes[i / 2] % 16) as nat);
        }
    }
    assert(e.len() % 2 == 0);
    let d = hex_decode_spec(e);
    assert forall|k: int| 0 <= k < bytes.len() implies #[trigger] d[k] == bytes[k] by {
        assert((2 * k) / 2 == k);
        assert((2 * k + 1) / 2 == k);
        assert((2 * k) % 2 == 0);
        assert((2 * k + 1) % 2 == 1);
        assert(e[2 * k] == h[2 * k] as u8);
        assert(e[2 * k + 1] == h[2 * k + 1] as u8);
        lemma_hex_digit_char((bytes[k] / 16) as nat);
        lemma_hex_digit_char((bytes[k] % 16) as nat);
        assert(hex_value(e[2 * k]) == bytes[k] / 16);
        assert(hex_value(e[2 * k + 1]) == bytes[k] % 16);
    }
    assert(d =~= bytes);
}

/// A delivery signed with the verifier's own secret, whose timestamp is
/// within the tolerance of the clock and whose body is JSON, is accepted.
pub proof fn lemma_signed_delivery_accepted(
    secret: Seq<char>,
    tolerance: u64,
    payload: Seq<char>,
    t: u64,
    now: u64,
)
    requires
        abs_diff(now, t) <= tolerance,
        is_json_text(payload),
    ensures
        verify_outcome(secret, tolerance, payload, signed_header(secret, t, payload), Some(now))
            == Ok::<serde_json::Value, WebhookFault>(json_parse(payload)->Some_0),
{
    let mac = hmac_sha256(encode_utf8(secret), encode_utf8(signed_content(Some(t), payload)));
    lemma_hex_roundtrip(mac);
    lemma_signature_header_roundtrip(t, hex_encode_spec(mac));
}

/// An outcome of `verify_headers` and one of `verify` are the same: both
/// successes with one JSON value, or failures with one fault.
pub open spec fn same_verdict(
    a: Result<EventMeta, WebhookFault>,
    b: Result<serde_json::Value, WebhookFault>,
) -> bool {
    match (a, b) {
        (Ok(m), Ok(v)) => m.payload == v,
        (Err(f), Err(g)) => f == g,
        _ => false,
    }
}

/// Without a delivery header, or with one that repeats the signed timestamp
/// in decimal, `verify_headers` gives the verdict of `verify` on the same
/// signature header, payload and clock, with the same JSON value.
pub proof fn lemma_verify_headers_agrees_with_verify(
    secret: Seq<char>,
    tolerance: u64,
    header: Seq<char>,
    event: Option<Seq<char>>,
    attempt: Option<Seq<char>>,
    payload: Seq<char>,
    clock: Option<u64>,
)
    ensures
        same_verdict(
            verify_headers_outcome(secret, tolerance, header, None, event, attempt, payload, clock),
            verify_outcome(secret, tolerance, payload, header, clock),
        ),
        parse_signature_header_spec(header) matches Ok((t, _)) ==> same_verdict(
            verify_headers_outcome(
                secret,
                tolerance,
                header,
                Some(decimal(t as nat)),
                event,
                attempt,
                payload,
                clock,
            ),
            verify_outcome(secret, tolerance, payload, header, clock),
        ),
{
    if let Ok((t, _)) = parse_signature_header_spec(header) {
        crate::text::lemma_parse_decimal(t);
    }
}

/// Widening the tolerance never turns an accepted delivery into a rejected
/// one, and the accepted value stays the same.
pub proof fn lemma_wider_tolerance_accepts(
    secret: Seq<char>,
    tolerance: u64,
    wider: u64,
    payload: Seq<char>,
    header: Seq<char>,
    clock: Option<u64>,
)
    requires
        tolerance <= wider,
        verify_outcome(secret, tolerance, payload, header, clock) is Ok,
    ensures
        verify_outcome(secret, wider, payload, header, clock) == verify_outcome(
            secret,
            tolerance,
            payload,
            header,
            clock,
        ),
{
}

/// A delivery whose signed timestamp is further from the clock than the
/// tolerance is rejected with the tolerance, whatever its signature.
pub proof fn lemma_outside_tolerance_rejected(
    secret: Seq<char>,
    tolerance: u64,
    payload: Seq<char>,
    header: Seq<char>,
    now: u64,
)
    requires
        parse_signature_header_spec(header) matches Ok((t, _)) && abs_diff(now, t) > tolerance,
    ensures
        verify_outcome(secret, tolerance, payload, header, Some(now)) == Err::<
            serde_json::Value,
            WebhookFault,
        >(WebhookFault::TimestampTolerance(tolerance)),
{
}

/// The tolerance window in plain seconds: a signed timestamp `t` read
/// against the clock `now` is rejected with the tolerance exactly when it
/// lies more than `tolerance` seconds before or after `now`; inside the
/// window (both ends included) the digest alone decides. Without a clock
/// reading a timestamp is never accepted.
pub proof fn lemma_signature_tolerance_window(
    payload: Seq<char>,
    signature: Seq<char>,
    secret: Seq<char>,
    t: u64,
    tolerance: u64,
    now: u64,
)
    ensures
        t > now + tolerance ==> signature_outcome(
            payload,
            signature,
            secret,
            Some(t),
            tolerance,
            Some(now),
        ) == Err::<(), WebhookFault>(WebhookFault::TimestampTolerance(tolerance)),
        now > t + tolerance ==> signature_outcome(
            payload,
            signature,
            secret,
            Some(t),
            tolerance,
            Some(now),
        ) == Err::<(), WebhookFault>(WebhookFault::TimestampTolerance(tolerance)),
        (t <= now + tolerance && now <= t + tolerance) ==> signature_outcome(
            payload,
            signature,
            secret,
            Some(t),
            tolerance,
            Some(now),
        ) == digest_outcome(payload, signature, secret, Some(t)),
        signature_outcome(payload, signature, secret, Some(t), tolerance, None) == Err::<
            (),
            WebhookFault,
        >(WebhookFault::SystemClock),
{
}

/// A delivery whose signed timestamp lies more than the tolerance ahead of
/// the clock, or more than the tolerance behind it, is rejected with the
/// tolerance by `verify` and by `verify_headers` (without a delivery
/// header, or with one naming the signed timestamp), whatever its
/// signature and body.
pub proof fn lemma_stale_or_future_rejected(
    secret: Seq<char>,
    tolerance: u64,
    payload: Seq<char>,
    header: Seq<char>,
    event: Option<Seq<char>>,
    attempt: Option<Seq<char>>,
    now: u64,
)
    requires
        parse_signature_header_spec(header) matches Ok((t, _)) && (t > now + tolerance || now > t
            + tolerance),
    ensures
        verify_outcome(secret, tolerance, payload, header, Some(now)) == Err::<
            serde_json::Value,
            WebhookFault,
        >(WebhookFault::TimestampTolerance(tolerance)),
        verify_headers_outcome(secret, tolerance, header, None, event, attempt, payload, Some(now))
            == Err::<EventMeta, WebhookFault>(WebhookFault::TimestampTolerance(tolerance)),
        parse_signature_header_spec(header) matches Ok((t, _)) ==> verify_headers_outcome(
            secret,
            tolerance,
            header,
            Some(decimal(t as nat)),
            event,
            attempt,
            payload,
            Some(now),
        ) == Err::<EventMeta, WebhookFault>(WebhookFault::TimestampTolerance(tolerance)),
{
    if let Ok((t, _)) = parse_signature_header_spec(header) {
        crate::text::lemma_parse_decimal(t);
    }
}

/// A delivery signed with the verifier's own secret, whose timestamp `t`
/// lies within `tolerance` seconds of the clock on either side (both ends
/// included), and whose body is JSON, is accepted with the parsed body.
pub proof fn lemma_signed_delivery_in_window_accepted(
    secret: Seq<char>,
    tolerance: u64,
    payload: Seq<char>,
    t: u64,
    now: u64,
)
    requires
        t <= now + tolerance,
        now <= t + tolerance,
        is_json_text(payload),
    ensures
        verify_outcome(secret, tolerance, payload, signed_header(secret, t, payload), Some(now))
            == Ok::<serde_json::Value, WebhookFault>(json_parse(payload)->Some_0),
{
    let mac = hmac_sha256(encode_utf8(secret), encode_utf8(signed_content(Some(t), payload)));
    lemma_hex_roundtrip(mac);
    lemma_signature_header_roundtrip(t, hex_encode_spec(mac));
}

} // verus!
