//! What the library decides around one exchange with the API: the shape of
//! the request for an endpoint, and what a response's status and error body
//! mean. Sending the request is left to the HTTP client that carries it.

use crate::api::email::headers_view;
use crate::text::{chars_to_string, str_chars};
use std::collections::HashMap;
use vstd::prelude::*;

verus! {

/// `http::Error`, carried opaquely when a request cannot be built.
#[verifier::external_type_specification]
#[verifier::external_body]
pub struct ExHttpError(http::Error);

/// The HTTP method of a request.
#[derive(Debug, Clone, PartialEq, Eq)]
pub enum Method {
    Get,
    Head,
    Post,
    Put,
    Delete,
    Connect,
    Options,
    Trace,
    Patch,
    /// Any other method, by name.
    Extension(String),
}

/// Requests with these methods carry no body: `GET`, `DELETE` and `HEAD`.
pub open spec fn has_body(m: Method) -> bool {
    !(m is Get || m is Delete || m is Head)
}

/// The media type the library sends and accepts.
pub const JSON_MEDIA_TYPE: &'static str = "application/json";

/// The request path for an endpoint: the endpoint itself when it starts with
/// `/`, otherwise the endpoint behind a `/`.
pub open spec fn request_path(endpoint: Seq<char>) -> Seq<char> {
    if endpoint.len() > 0 && endpoint[0] == '/' {
        endpoint
    } else {
        seq!['/'] + endpoint
    }
}

/// The headers of a request, in order: `Accept: application/json`, the
/// endpoint's extra headers, and `Content-Type: application/json` when the
/// request has a body.
pub open spec fn request_headers(extra: Seq<(Seq<char>, Seq<char>)>, body: bool) -> Seq<
    (Seq<char>, Seq<char>),
> {
    seq![("Accept"@, JSON_MEDIA_TYPE@)] + extra + if body {
        seq![("Content-Type"@, JSON_MEDIA_TYPE@)]
    } else {
        Seq::empty()
    }
}

/// The request to make for an endpoint; when `has_body` holds, its body is
/// the endpoint's request serialized as JSON, otherwise it is empty.
#[derive(Debug)]
pub struct RequestPlan {
    pub method: Method,
    pub uri: String,
    pub headers: Vec<(String, String)>,
    pub has_body: bool,
}

/// The request for an endpoint at path `endpoint` with method `method` and
/// the endpoint's `extra_headers`.
pub fn plan_request(method: Method, endpoint: &str, extra_headers: Vec<(String, String)>) -> (r:
    RequestPlan)
    ensures
        r.method == method,
        r.uri@ == request_path(endpoint@),
        r.has_body == has_body(method),
        r.has_body == !(method == Method::Get || method == Method::Delete || method == Method::Head),
        headers_view(r.headers@) == request_headers(headers_view(extra_headers@), has_body(method)),
{
    let chars = str_chars(endpoint);
    let uri = if chars.len() > 0 && chars[0] == '/' {
        String::from_str(endpoint)
    } else {
        let mut v: Vec<char> = Vec::new();
        v.push('/');
        let mut i: usize = 0;
        while i < chars.len()
            invariant
                i <= chars@.len(),
                v@ == seq!['/'] + chars@.take(i as int),
            decreases chars.len() - i,
        {
            v.push(chars[i]);
            i = i + 1;
            assert(v@ =~= seq!['/'] + chars@.take(i as int));
        }
        assert(chars@.take(i as int) =~= chars@);
        chars_to_string(v.as_slice())
    };
    let body = match &method {
        Method::Get | Method::Delete | Method::Head => false,
        _ => true,
    };
    let mut headers: Vec<(String, String)> = Vec::new();
    headers.push((String::from_str("Accept"), String::from_str(JSON_MEDIA_TYPE)));
    let ghost first = headers_view(headers@);
    assert(first =~= seq![("Accept"@, JSON_MEDIA_TYPE@)]);
    let mut i: usize = 0;
    while i < extra_headers.len()
        invariant
            i <= extra_headers@.len(),
            headers_view(headers@) =~= first + headers_view(extra_headers@).take(i as int),
        decreases extra_headers.len() - i,
    {
        let pair = &extra_headers[i];
        let name = pair.0.clone();
        let value = pair.1.clone();
        assert(name@ == extra_headers@[i as int].0@ && value@ == extra_headers@[i as int].1@);
        assert(headers_view(extra_headers@)[i as int] == (name@, value@));
        let ghost before = headers@;
        headers.push((name, value));
        assert(headers_view(headers@) =~= headers_view(before).push((name@, value@)));
        i = i + 1;
        assert(headers_view(headers@) =~= first + headers_view(extra_headers@).take(i as int));
    }
    assert(headers_view(extra_headers@).take(i as int) =~= headers_view(extra_headers@));
    let ghost middle = headers_view(headers@);
    if body {
        headers.push((String::from_str("Content-Type"), String::from_str(JSON_MEDIA_TYPE)));
        assert(headers_view(headers@) =~= middle + seq![("Content-Type"@, JSON_MEDIA_TYPE@)]);
    } else {
        assert(middle =~= middle + Seq::<(Seq<char>, Seq<char>)>::empty());
    }
    RequestPlan { method, uri, headers, has_body: body }
}

/// The error body that the API sends with a failure status, as far as it
/// reads as this shape.
#[derive(Debug, Clone, PartialEq)]
pub struct ErrorBody {
    pub error_type: Option<String>,
    pub error: Option<String>,
    pub message: Option<String>,
    pub errors: Option<HashMap<String, Vec<String>>>,
}

/// An error thrown when querying the API.
#[derive(Debug)]
#[non_exhaustive]
pub enum QueryError<E> {
    /// Underlying HTTP client error (DNS, TLS, timeout, header build, ...).
    Client { source: E },
    /// The request body could not be serialized to JSON.
    SerializeBody { source: serde_json::Error },
    /// A successful response body could not be parsed as JSON into the
    /// endpoint's response type.
    DeserializeResponse { source: serde_json::Error },
    /// Failed to construct the HTTP request (e.g., invalid header value or URI).
    Body { source: http::Error },
    /// Validation error (HTTP 422) with per-field details.
    Validation {
        error_type: Option<String>,
        message: Option<String>,
        /// Per-field validation errors (e.g., `{"from": ["domain not verified"]}`)
        errors: Option<HashMap<String, Vec<String>>>,
        body: Vec<u8>,
    },
    /// Authentication or authorization error (HTTP 401/403).
    Authentication { message: Option<String>, body: Vec<u8> },
    /// Rate limit exceeded (HTTP 429).
    RateLimit { message: Option<String>, body: Vec<u8> },
    /// Any other non-success API response.
    Api { status: u16, error_type: Option<String>, message: Option<String>, body: Vec<u8> },
}

impl<E> QueryError<E> {
    /// Wrap an underlying client error in `QueryError::Client`.
    pub fn client(source: E) -> (r: Self)
        ensures
            r == (QueryError::Client::<E> { source }),
    {
        QueryError::Client { source }
    }
}

/// A successful status: `200..=299`.
pub open spec fn is_success(status: u16) -> bool {
    200 <= status <= 299
}

/// The error type the API reports: `error_type`, or else `error`.
pub open spec fn reported_error_type(parsed: Option<ErrorBody>) -> Option<String> {
    match parsed {
        Some(p) => match p.error_type {
            Some(t) => Some(t),
            None => p.error,
        },
        None => None,
    }
}

/// The message the API reports.
pub open spec fn reported_message(parsed: Option<ErrorBody>) -> Option<String> {
    match parsed {
        Some(p) => p.message,
        None => None,
    }
}

/// The per-field errors the API reports.
pub open spec fn reported_errors(parsed: Option<ErrorBody>) -> Option<HashMap<String, Vec<String>>> {
    match parsed {
        Some(p) => p.errors,
        None => None,
    }
}

/// `e` is the error for a failure status: 422 is a validation error, 401
/// and 403 are authentication errors, 429 is a rate limit, and any other
/// status is a generic API error that keeps the status. Each carries the
/// raw body and what the error body reported.
pub open spec fn describes_failure<E>(
    e: QueryError<E>,
    status: u16,
    body: Seq<u8>,
    parsed: Option<ErrorBody>,
) -> bool {
    let error_type = reported_error_type(parsed);
    let message = reported_message(parsed);
    if status == 422 {
        e matches QueryError::Validation { error_type: t, message: m, errors: f, body: b } && t
            == error_type && m == message && f == reported_errors(parsed) && b@ == body
    } else if status == 401 || status == 403 {
        e matches QueryError::Authentication { message: m, body: b } && m == message && b@ == body
    } else if status == 429 {
        e matches QueryError::RateLimit { message: m, body: b } && m == message && b@ == body
    } else {
        e matches QueryError::Api { status: s, error_type: t, message: m, body: b } && s == status
            && t == error_type && m == message && b@ == body
    }
}

/// What a response's status means: success lets the endpoint parse the
/// body; any other status is an error built from the raw body and from
/// `parsed`, the body read as an `ErrorBody` (`None` when it does not read
/// as one).
pub fn check_response<E>(status: u16, body: Vec<u8>, parsed: Option<ErrorBody>) -> (r: Result<
    (),
    QueryError<E>,
>)
    ensures
        is_success(status) ==> r is Ok,
        !is_success(status) ==> (r matches Err(e) && describes_failure(e, status, body@, parsed)),
{
    if 200 <= status && status <= 299 {
        return Ok(());
    }
    let (error_type, message, errors) = match parsed {
        Some(p) => {
            let t = match p.error_type {
                Some(t) => Some(t),
                None => p.error,
            };
            (t, p.message, p.errors)
        },
        None => (None, None, None),
    };
    if status == 422 {
        Err(QueryError::Validation { error_type, message, errors, body })
    } else if status == 401 || status == 403 {
        Err(QueryError::Authentication { message, body })
    } else if status == 429 {
        Err(QueryError::RateLimit { message, body })
    } else {
        Err(QueryError::Api { status, error_type, message, body })
    }
}

/// Which methods carry a JSON body: every method but `GET`, `DELETE` and
/// `HEAD`, named one by one.
pub proof fn lemma_methods_with_body(name: String)
    ensures
        !has_body(Method::Get),
        !has_body(Method::Delete),
        !has_body(Method::Head),
        has_body(Method::Post),
        has_body(Method::Put),
        has_body(Method::Patch),
        has_body(Method::Options),
        has_body(Method::Connect),
        has_body(Method::Trace),
        has_body(Method::Extension(name)),
{
}

/// The headers of a planned request: `Accept: application/json` first, then
/// the endpoint's extra headers in order, and, exactly for the methods other
/// than `GET`, `DELETE` and `HEAD`, `Content-Type: application/json` last.
pub proof fn lemma_request_headers_shape(m: Method, extra: Seq<(Seq<char>, Seq<char>)>)
    ensures
        ({
            let h = request_headers(extra, has_body(m));
            let bodyless = m == Method::Get || m == Method::Delete || m == Method::Head;
            &&& h[0] == ("Accept"@, "application/json"@)
            &&& h.subrange(1, extra.len() + 1int) == extra
            &&& bodyless ==> h.len() == extra.len() + 1
            &&& !bodyless ==> h.len() == extra.len() + 2 && h.last() == (
                "Content-Type"@,
                "application/json"@,
            )
        }),
{
    let h = request_headers(extra, has_body(m));
    assert(h.subrange(1, extra.len() + 1int) =~= extra);
}

/// How a failure status is classified: 422 and only 422 is a validation
/// error, 401 and 403 and only those are authentication errors, 429 and only
/// 429 is a rate limit, and every other status is a generic API error that
/// keeps that very status. Every kind carries the raw body.
pub proof fn lemma_failure_classification<E>(
    e: QueryError<E>,
    status: u16,
    body: Seq<u8>,
    parsed: Option<ErrorBody>,
)
    requires
        describes_failure(e, status, body, parsed),
    ensures
        (e is Validation) <==> status == 422,
        (e is Authentication) <==> (status == 401 || status == 403),
        (e is RateLimit) <==> status == 429,
        (e is Api) <==> (status != 401 && status != 403 && status != 422 && status != 429),
        e matches QueryError::Api { status: s, .. } ==> s == status,
        match e {
            QueryError::Validation { body: b, .. } => b@ == body,
            QueryError::Authentication { body: b, .. } => b@ == body,
            QueryError::RateLimit { body: b, .. } => b@ == body,
            QueryError::Api { body: b, .. } => b@ == body,
            _ => false,
        },
{
}

/// A response is a success exactly for the statuses `200` to `299`; for
/// any other status `check_response`'s error is classified as above.
pub proof fn lemma_success_statuses(status: u16)
    ensures
        is_success(status) <==> (200 <= status && status <= 299),
        status == 200 ==> is_success(status),
        status == 204 ==> is_success(status),
        status == 299 ==> is_success(status),
        status == 199 ==> !is_success(status),
        status == 300 ==> !is_success(status),
{
}

/// The request path always starts with one `/` of its own or of the
/// endpoint, and keeps the whole endpoint: it is the endpoint, or a `/`
/// and the endpoint.
pub proof fn lemma_request_path_shape(endpoint: Seq<char>)
    ensures
        request_path(endpoint).len() > 0,
        request_path(endpoint)[0] == '/',
        request_path(endpoint) == endpoint || request_path(endpoint) == seq!['/'] + endpoint,
        endpoint.len() > 0 && endpoint[0] == '/' ==> request_path(endpoint) == endpoint,
        (endpoint.len() == 0 || endpoint[0] != '/') ==> request_path(endpoint).len()
            == endpoint.len() + 1 && request_path(endpoint).skip(1) == endpoint,
{
    if endpoint.len() == 0 || endpoint[0] != '/' {
        assert((seq!['/'] + endpoint).skip(1) =~= endpoint);
    }
}

} // verus!
