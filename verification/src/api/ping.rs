//! Pinging the Lettermint API to verify connectivity and credentials.

use crate::client::Method;
use crate::text::{chars_to_string, str_chars, trim, trim_chars};
use vstd::prelude::*;
use vstd::utf8::{decode_utf8, valid_utf8};

verus! {

/// Ping the Lettermint API to verify connectivity and credentials.
#[derive(Debug, Clone, Copy)]
pub struct PingRequest;

/// The (empty) body of a ping request.
#[derive(Debug, Clone, Copy)]
pub struct EmptyBody;

/// Response from the ping endpoint.
#[derive(Debug, Clone, PartialEq)]
pub struct PingResponse {
    pub message: String,
}

/// The text that `String::from_utf8_lossy` makes of `bytes`: the decoded
/// text, with each invalid sequence replaced by U+FFFD.
pub uninterp spec fn utf8_lossy(bytes: Seq<u8>) -> Seq<char>;

/// Decodes `bytes` with `String::from_utf8_lossy`.
///
/// Its documentation promises the decoded text for valid UTF-8; for other
/// input the replacement of invalid sequences is named, not described.
#[verifier::external_body]
fn from_utf8_lossy(bytes: &[u8]) -> (r: String)
    ensures
        r@ == utf8_lossy(bytes@),
        valid_utf8(bytes@) ==> r@ == decode_utf8(bytes@),
{
    String::from_utf8_lossy(bytes).into_owned()
}

impl PingRequest {
    /// The path of the endpoint.
    pub fn endpoint(&self) -> (r: &'static str)
        ensures
            r@ == "ping"@,
    {
        "ping"
    }

    /// A ping is a `GET`.
    pub fn method(&self) -> (r: Method)
        ensures
            r == Method::Get,
    {
        Method::Get
    }

    /// The body of a ping: empty.
    pub fn body(&self) -> EmptyBody {
        EmptyBody
    }

    /// The response is plain text, not JSON: its bytes decoded (invalid
    /// UTF-8 replaced) and trimmed. This never fails.
    pub fn parse_response(&self, body: &[u8]) -> (r: Result<PingResponse, serde_json::Error>)
        ensures
            r matches Ok(p) && p.message@ == trim(utf8_lossy(body@)),
            valid_utf8(body@) ==> (r matches Ok(p) && p.message@ == trim(decode_utf8(body@))),
    {
        let text = from_utf8_lossy(body);
        let chars = str_chars(text.as_str());
        let trimmed = trim_chars(chars.as_slice());
        Ok(PingResponse { message: chars_to_string(trimmed.as_slice()) })
    }
}

} // verus!
