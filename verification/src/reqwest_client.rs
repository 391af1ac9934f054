//! The Lettermint client carried by `reqwest`: its configuration and the
//! URL and header decisions it makes for each request.

use crate::text::{chars_to_string, str_chars};
use vstd::prelude::*;

verus! {

/// `reqwest::Client`, held opaquely as the transport.
#[verifier::external_type_specification]
#[verifier::external_body]
pub struct ExReqwestClient(reqwest::Client);

/// `Clone` for `reqwest::Client` (a shared handle); nothing is claimed of
/// the copy.
pub assume_specification[ <reqwest::Client as Clone>::clone ](c: &reqwest::Client) -> reqwest::Client;

/// Default Lettermint API URL.
pub const LETTERMINT_API_URL: &'static str = "https://api.lettermint.co/v1/";

/// Default request timeout in seconds.
pub const DEFAULT_TIMEOUT_SECS: u64 = 30;

/// The `User-Agent` the default transport sends.
pub const USER_AGENT: &'static str = "Lettermint/0.2.0 (Rust)";

/// The header that carries the API token.
pub const TOKEN_HEADER: &'static str = "x-lettermint-token";

/// Every byte of `s` may stand in an HTTP header value: no control
/// character but tab, and no DEL.
pub open spec fn is_header_value(s: Seq<char>) -> bool {
    forall|i: int|
        0 <= i < s.len() ==> ((#[trigger] s[i] as u32) >= 32 && (s[i] as u32) != 127) || s[i]
            == '\t'
}

/// Builds a `reqwest::Client` with `ClientBuilder::timeout` and
/// `ClientBuilder::user_agent`.
///
/// `build` fails when the user agent is not a valid header value, which
/// `requires` rules out; its other failures (of the rustls backend) come
/// only from settings this builder does not make (extra root certificates,
/// TLS version bounds, CRLs, a client identity). Nothing is claimed of the
/// client.
#[verifier::external_body]
fn build_http_client(timeout_secs: u64, user_agent: &str) -> (r: reqwest::Client)
    requires
        is_header_value(user_agent@),
{
    reqwest::Client::builder().timeout(std::time::Duration::from_secs(timeout_secs)).user_agent(
        user_agent,
    ).build().expect("default reqwest client should build")
}

/// The transport with a 30 second timeout and the library's user agent.
fn default_reqwest_client() -> reqwest::Client {
    proof {
        reveal_strlit("Lettermint/0.2.0 (Rust)");
    }
    build_http_client(DEFAULT_TIMEOUT_SECS, USER_AGENT)
}

/// The text that `Debug` for `str` gives for `s`: quoted and escaped.
pub uninterp spec fn str_debug(s: Seq<char>) -> Seq<char>;

/// Renders `s` with `Debug` for `str` (`format!("{:?}", s)`).
#[verifier::external_body]
fn debug_str(s: &str) -> (r: String)
    ensures
        r@ == str_debug(s@),
{
    format!("{:?}", s)
}

/// Whether every char of `s` may stand in an HTTP header value.
pub fn is_header_value_str(s: &str) -> (r: bool)
    ensures
        r == is_header_value(s@),
{
    let chars = str_chars(s);
    let mut i: usize = 0;
    while i < chars.len()
        invariant
            i <= chars@.len(),
            chars@ == s@,
            forall|k: int| 0 <= k < i ==> ((#[trigger] chars@[k] as u32) >= 32 && (chars@[k] as u32)
                != 127) || chars@[k] == '\t',
        decreases chars.len() - i,
    {
        let c = chars[i];
        let v = c as u32;
        if !((v >= 32 && v != 127) || c == '\t') {
            assert(!is_header_value(s@)) by {
                assert(s@[i as int] == c);
            }
            return false;
        }
        i = i + 1;
    }
    true
}

/// `s` without the trailing occurrences of `c`.
pub open spec fn strip_trailing(s: Seq<char>, c: char) -> Seq<char>
    decreases s.len(),
{
    if s.len() > 0 && s.last() == c {
        strip_trailing(s.drop_last(), c)
    } else {
        s
    }
}

/// `s` without the leading occurrences of `c`.
pub open spec fn strip_leading(s: Seq<char>, c: char) -> Seq<char>
    decreases s.len(),
{
    if s.len() > 0 && s[0] == c {
        strip_leading(s.drop_first(), c)
    } else {
        s
    }
}

/// The URL for a request path: the base URL without its trailing slashes,
/// one slash, and the path without its leading slashes.
pub open spec fn join_url_spec(base: Seq<char>, path: Seq<char>) -> Seq<char> {
    strip_trailing(base, '/') + seq!['/'] + strip_leading(path, '/')
}

/// A reqwest-based Lettermint API client.
#[derive(Clone)]
pub struct LettermintClient {
    api_token: String,
    base_url: String,
    client: reqwest::Client,
}

impl LettermintClient {
    /// The API token.
    pub closed spec fn api_token_spec(&self) -> Seq<char> {
        self.api_token@
    }

    /// The transport.
    pub closed spec fn transport(&self) -> reqwest::Client {
        self.client
    }

    /// The base URL.
    pub closed spec fn base_url_spec(&self) -> Seq<char> {
        self.base_url@
    }

    /// Create a new client with the default Lettermint API URL and a 30s timeout.
    pub fn new(api_token: &str) -> (r: LettermintClient)
        ensures
            r.api_token_spec() == api_token@,
            r.base_url_spec() == LETTERMINT_API_URL@,
    {
        LettermintClient {
            api_token: String::from_str(api_token),
            base_url: String::from_str(LETTERMINT_API_URL),
            client: default_reqwest_client(),
        }
    }

    /// Create a new client with a custom base URL.
    ///
    /// The URL should include the API version path (e.g.,
    /// `https://api.lettermint.co/v1/`).
    pub fn with_base_url(api_token: &str, base_url: &str) -> (r: LettermintClient)
        ensures
            r.api_token_spec() == api_token@,
            r.base_url_spec() == base_url@,
    {
        LettermintClient {
            api_token: String::from_str(api_token),
            base_url: String::from_str(base_url),
            client: default_reqwest_client(),
        }
    }

    /// Create a new client with a pre-configured `reqwest::Client`.
    pub fn with_reqwest_client(api_token: &str, client: reqwest::Client) -> (r: LettermintClient)
        ensures
            r.api_token_spec() == api_token@,
            r.base_url_spec() == LETTERMINT_API_URL@,
            r.transport() == client,
    {
        LettermintClient {
            api_token: String::from_str(api_token),
            base_url: String::from_str(LETTERMINT_API_URL),
            client,
        }
    }

    /// The API token.
    pub fn api_token(&self) -> (r: &str)
        ensures
            r@ == self.api_token_spec(),
    {
        self.api_token.as_str()
    }

    /// The base URL.
    pub fn base_url(&self) -> (r: &str)
        ensures
            r@ == self.base_url_spec(),
    {
        self.base_url.as_str()
    }

    /// The transport.
    pub fn http_client(&self) -> (r: &reqwest::Client)
        ensures
            *r == self.transport(),
    {
        &self.client
    }

    /// The token header that authenticates each request, or `None` when
    /// the token cannot stand in a header value (then the request fails
    /// with an authentication-header error).
    pub fn auth_header(&self) -> (r: Option<(String, String)>)
        ensures
            is_header_value(self.api_token_spec()) ==> (r matches Some(h) && h.0@ == TOKEN_HEADER@
                && h.1@ == self.api_token_spec()),
            !is_header_value(self.api_token_spec()) ==> r is None,
    {
        if is_header_value_str(self.api_token.as_str()) {
            Some((String::from_str(TOKEN_HEADER), self.api_token.clone()))
        } else {
            None
        }
    }

    /// The client as its `Debug` rendering shows it, with the token
    /// masked: `LettermintClient { api_token: "***", base_url: <base_url:?> }`.
    pub fn debug_string(&self) -> (r: String)
        ensures
            r@ == "LettermintClient { api_token: \"***\", base_url: "@ + str_debug(
                self.base_url_spec(),
            ) + " }"@,
    {
        String::from_str("LettermintClient { api_token: \"***\", base_url: ").concat(
            debug_str(self.base_url.as_str()).as_str(),
        ).concat(" }")
    }

    /// The URL for a request path (with its query, if any): the base URL
    /// and the path joined by exactly one slash.
    pub fn request_url(&self, path: &str) -> (r: String)
        ensures
            r@ == join_url_spec(self.base_url_spec(), path@),
    {
        join_url(self.base_url.as_str(), path)
    }
}

proof fn lemma_strip_trailing_take(s: Seq<char>, j: int, c: char)
    requires
        0 <= j <= s.len(),
        forall|k: int| j <= k < s.len() ==> #[trigger] s[k] == c,
    ensures
        strip_trailing(s, c) == strip_trailing(s.take(j), c),
    decreases s.len() - j,
{
    if j < s.len() {
        assert(s.drop_last().take(j) =~= s.take(j));
        lemma_strip_trailing_take(s.drop_last(), j, c);
    } else {
        assert(s.take(j) =~= s);
    }
}

proof fn lemma_strip_leading_skip(s: Seq<char>, i: int, c: char)
    requires
        0 <= i <= s.len(),
        forall|k: int| 0 <= k < i ==> #[trigger] s[k] == c,
    ensures
        strip_leading(s, c) == strip_leading(s.skip(i), c),
    decreases i,
{
    if i > 0 {
        assert(s.drop_first().skip(i - 1) =~= s.skip(i));
        assert forall|k: int| 0 <= k < i - 1 implies #[trigger] s.drop_first()[k] == c by {
            assert(s[k + 1] == c);
        }
        lemma_strip_leading_skip(s.drop_first(), i - 1, c);
    } else {
        assert(s.skip(0) =~= s);
    }
}

/// Joins a base URL and a path with exactly one slash between them.
pub fn join_url(base: &str, path: &str) -> (r: String)
    ensures
        r@ == join_url_spec(base@, path@),
{
    let b = str_chars(base);
    let p = str_chars(path);
    let mut end: usize = b.len();
    while end > 0 && b[end - 1] == '/'
        invariant
            end <= b@.len(),
            forall|k: int| end <= k < b@.len() ==> #[trigger] b@[k] == '/',
        decreases end,
    {
        end = end - 1;
    }
    proof {
        lemma_strip_trailing_take(b@, end as int, '/');
        let t = b@.take(end as int);
        if t.len() > 0 {
            assert(t.last() == b@[end - 1]);
        }
    }
    let mut start: usize = 0;
    while start < p.len() && p[start] == '/'
        invariant
            start <= p@.len(),
            forall|k: int| 0 <= k < start ==> #[trigger] p@[k] == '/',
        decreases p.len() - start,
    {
        start = start + 1;
    }
    proof {
        lemma_strip_leading_skip(p@, start as int, '/');
    }
    let mut out: Vec<char> = Vec::new();
    let mut i: usize = 0;
    while i < end
        invariant
            i <= end <= b@.len(),
            out@ =~= b@.take(i as int),
        decreases end - i,
    {
        out.push(b[i]);
        i = i + 1;
    }
    out.push('/');
    let ghost head = out@;
    let mut k: usize = start;
    while k < p.len()
        invariant
            start <= k <= p@.len(),
            out@ =~= head + p@.subrange(start as int, k as int),
        decreases p.len() - k,
    {
        out.push(p[k]);
        k = k + 1;
    }
    assert(out@ =~= join_url_spec(base@, path@));
    chars_to_string(out.as_slice())
}

/// Trailing slashes on the base URL make no difference to any request URL.
pub proof fn lemma_join_url_trailing_slash(base: Seq<char>, path: Seq<char>)
    ensures
        join_url_spec(base.push('/'), path) == join_url_spec(base, path),
{
    assert(base.push('/').drop_last() =~= base);
}

/// Leading slashes on the path make no difference either.
pub proof fn lemma_join_url_leading_slash(base: Seq<char>, path: Seq<char>)
    ensures
        join_url_spec(base, seq!['/'] + path) == join_url_spec(base, path),
{
    assert((seq!['/'] + path).drop_first() =~= path);
}

/// Stripping leading `c`s drops exactly the run of `c` at the front: the
/// result is `s` from the first other char on.
proof fn lemma_strip_leading_run(s: Seq<char>, c: char) -> (n: int)
    ensures
        0 <= n <= s.len(),
        strip_leading(s, c) == s.skip(n),
        forall|i: int| 0 <= i < n ==> s[i] == c,
        n < s.len() ==> s[n] != c,
    decreases s.len(),
{
    if s.len() > 0 && s[0] == c {
        let k = lemma_strip_leading_run(s.drop_first(), c);
        assert(s.drop_first().skip(k) =~= s.skip(k + 1));
        assert forall|i: int| 0 <= i < k + 1 implies s[i] == c by {
            if i > 0 {
                assert(s[i] == s.drop_first()[i - 1]);
            }
        }
        k + 1
    } else {
        assert(s.skip(0) =~= s);
        0
    }
}

/// Stripping trailing `c`s drops exactly the run of `c` at the end: the
/// result is `s` up to and including the last other char.
proof fn lemma_strip_trailing_run(s: Seq<char>, c: char) -> (m: int)
    ensures
        0 <= m <= s.len(),
        strip_trailing(s, c) == s.take(m),
        forall|i: int| m <= i < s.len() ==> s[i] == c,
        m > 0 ==> s[m - 1] != c,
    decreases s.len(),
{
    if s.len() > 0 && s.last() == c {
        let k = lemma_strip_trailing_run(s.drop_last(), c);
        assert(s.drop_last().take(k) =~= s.take(k));
        assert forall|i: int| k <= i < s.len() implies s[i] == c by {
            if i < s.len() - 1 {
                assert(s[i] == s.drop_last()[i]);
            }
        }
        k
    } else {
        assert(s.take(s.len() as int) =~= s);
        s.len() as int
    }
}

/// The request URL keeps every char of the base URL up to its trailing
/// slashes and every char of the path after its leading slashes (query
/// string included), with exactly one slash between them.
pub proof fn lemma_join_url_keeps_every_char(base: Seq<char>, path: Seq<char>)
    ensures
        exists|m: int, n: int|
            {
                &&& 0 <= m <= base.len()
                &&& 0 <= n <= path.len()
                &&& forall|i: int| m <= i < base.len() ==> base[i] == '/'
                &&& m > 0 ==> base[m - 1] != '/'
                &&& forall|i: int| 0 <= i < n ==> path[i] == '/'
                &&& n < path.len() ==> path[n] != '/'
                &&& #[trigger] join_url_spec(base, path) == base.take(m) + seq!['/'] + path.skip(n)
            },
{
    let m = lemma_strip_trailing_run(base, '/');
    let n = lemma_strip_leading_run(path, '/');
    assert(join_url_spec(base, path) == base.take(m) + seq!['/'] + path.skip(n));
}

/// With no trailing slash on the base URL and no leading slash on the path,
/// the request URL is the base, one slash and the path, char for char; a
/// path without a leading slash always ends the URL whole.
pub proof fn lemma_join_url_plain(base: Seq<char>, path: Seq<char>)
    ensures
        (base.len() == 0 || base.last() != '/') && (path.len() == 0 || path[0] != '/')
            ==> join_url_spec(base, path) == base + seq!['/'] + path,
        (path.len() == 0 || path[0] != '/') ==> {
            let u = join_url_spec(base, path);
            &&& u == strip_trailing(base, '/') + seq!['/'] + path
            &&& u.len() == strip_trailing(base, '/').len() + 1 + path.len()
            &&& u.skip(u.len() - path.len()) == path
        },
{
    let m = lemma_strip_trailing_run(base, '/');
    let n = lemma_strip_leading_run(path, '/');
    if path.len() == 0 || path[0] != '/' {
        assert(n == 0);
        assert(path.skip(0) =~= path);
        let u = join_url_spec(base, path);
        assert(u.skip(u.len() - path.len()) =~= path);
    }
    if base.len() == 0 || base.last() != '/' {
        assert(m == base.len());
        assert(base.take(base.len() as int) =~= base);
    }
}

} // verus!
