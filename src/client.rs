//! Client configuration, request URLs and the classification of responses.
use std::time::Duration;
use vstd::prelude::*;
use vstd::utf8::encode_utf8;

use crate::error::ApiError;
use crate::node_type::NodeType;

verus! {

/// Request timeout that a new configuration starts with, in seconds.
pub const DEFAULT_TIMEOUT_SECS: u64 = 5;

/// The duration of `secs` whole seconds, as `Duration::from_secs` builds it.
pub uninterp spec fn duration_from_secs(secs: u64) -> Duration;

/// Relies on `Duration::from_secs`: the same number of seconds gives the
/// same duration.
pub assume_specification[ core::time::Duration::from_secs ](secs: u64) -> (r: Duration)
    ensures
        r == duration_from_secs(secs),
;

/// Relies on `Duration`'s `Clone`: the type is `Copy`, so a clone is the
/// same value.
pub assume_specification[ <Duration as Clone>::clone ](d: &Duration) -> (r: Duration)
    ensures
        r == *d,
;

/// Client configuration.
#[derive(Debug, Clone)]
pub struct Config {
    /// Base URL of the API server
    pub api_host: String,
    /// API authentication token
    pub token: String,
    /// Request timeout (default: 5 seconds)
    pub timeout: Duration,
    /// Enable debug logging
    pub debug: bool,
}

// ---------------------------------------------------------------------------
// Form encoding of query values
// ---------------------------------------------------------------------------

/// Bytes that `application/x-www-form-urlencoded` leaves as they are.
pub open spec fn form_byte_unchanged(b: u8) -> bool {
    ||| b == 0x2a  // '*'
    ||| b == 0x2d  // '-'
    ||| b == 0x2e  // '.'
    ||| 0x30 <= b <= 0x39  // '0'..='9'
    ||| 0x41 <= b <= 0x5a  // 'A'..='Z'
    ||| b == 0x5f  // '_'
    ||| 0x61 <= b <= 0x7a  // 'a'..='z'

}

/// Uppercase hexadecimal digit of `n < 16`.
pub open spec fn hex_digit_upper(n: u8) -> char {
    if n < 10 {
        (0x30 + n) as char
    } else {
        (0x41 + n - 10) as char
    }
}

/// Form encoding of one byte: unchanged, `+` for a space, else `%XX`.
pub open spec fn form_encode_byte(b: u8) -> Seq<char> {
    if form_byte_unchanged(b) {
        seq![b as char]
    } else if b == 0x20 {
        seq!['+']
    } else {
        seq!['%', hex_digit_upper(b / 16), hex_digit_upper(b % 16)]
    }
}

/// Form encoding of a byte string, byte by byte.
pub open spec fn form_encode_bytes(bytes: Seq<u8>) -> Seq<char>
    decreases bytes.len(),
{
    if bytes.len() == 0 {
        Seq::empty()
    } else {
        form_encode_bytes(bytes.drop_last()) + form_encode_byte(bytes.last())
    }
}

/// Form encoding of the UTF-8 bytes of `s`.
pub open spec fn form_encoded(s: Seq<char>) -> Seq<char> {
    form_encode_bytes(encode_utf8(s))
}

/// Relies on `url::form_urlencoded::byte_serialize`, collected into a
/// string: each byte of the input is kept when it is an ASCII letter, a digit
/// or one of `*-._`, a space becomes `+`, and every other byte becomes `%`
/// followed by its two uppercase hexadecimal digits.
#[verifier::external_body]
fn form_urlencode(s: &str) -> (r: String)
    ensures
        r@ == form_encoded(s@),
{
    url::form_urlencoded::byte_serialize(s.as_bytes()).collect()
}

// ---------------------------------------------------------------------------
// URLs
// ---------------------------------------------------------------------------

/// `s` without the `/` characters that end it.
pub open spec fn trim_trailing_slashes(s: Seq<char>) -> Seq<char>
    decreases s.len(),
{
    if s.len() > 0 && s.last() == '/' {
        trim_trailing_slashes(s.drop_last())
    } else {
        s
    }
}

/// Cutting `s` after its last character that is not `/` is trimming its
/// trailing slashes.
proof fn lemma_trim_at(s: Seq<char>, k: int)
    requires
        0 <= k <= s.len(),
        forall|i: int| k <= i < s.len() ==> s[i] == '/',
        k == 0 || s[k - 1] != '/',
    ensures
        trim_trailing_slashes(s) == s.subrange(0, k),
    decreases s.len() - k,
{
    if s.len() == k {
        assert(s.subrange(0, k) =~= s);
    } else {
        assert(s.last() == '/');
        let t = s.drop_last();
        lemma_trim_at(t, k);
        assert(t.subrange(0, k) =~= s.subrange(0, k));
    }
}

/// `s` without its trailing `/` characters.
fn trim_end_slashes(s: &str) -> (r: &str)
    ensures
        r@ == trim_trailing_slashes(s@),
{
    let n = s.unicode_len();
    let mut k: usize = n;
    while k > 0 && s.get_char(k - 1) == '/'
        invariant
            n == s@.len(),
            k <= n,
            forall|i: int| k <= i < n ==> s@[i] == '/',
        decreases k,
    {
        k = k - 1;
    }
    proof {
        lemma_trim_at(s@, k as int);
    }
    s.substring_char(0, k)
}

/// The query text for `params` that follows the token: `&key=value` for each
/// pair in order, the value form-encoded.
pub open spec fn query_tail(params: Seq<(Seq<char>, Seq<char>)>) -> Seq<char>
    decreases params.len(),
{
    if params.len() == 0 {
        Seq::empty()
    } else {
        query_tail(params.drop_last()) + "&"@ + params.last().0 + "="@ + form_encoded(
            params.last().1,
        )
    }
}

/// The text of each key and value of `params`.
pub open spec fn params_view(params: Seq<(&str, &str)>) -> Seq<(Seq<char>, Seq<char>)> {
    params.map_values(|p: (&str, &str)| (p.0@, p.1@))
}

/// The URL of `path` on `api_host`, authenticated by `token`, with `params`.
pub open spec fn request_url(
    api_host: Seq<char>,
    token: Seq<char>,
    path: Seq<char>,
    params: Seq<(Seq<char>, Seq<char>)>,
) -> Seq<char> {
    trim_trailing_slashes(api_host) + path + "?token="@ + form_encoded(token) + query_tail(params)
}

/// The operations of the enhanced API, each a path segment after the node
/// type.
#[derive(Debug, Clone, Copy, PartialEq, Eq, Structural)]
pub enum Endpoint {
    Config,
    Register,
    Unregister,
    Verify,
    Users,
    Submit,
    SubmitWithAgent,
    SubmitStatsWithAgent,
    Heartbeat,
}

impl Endpoint {
    /// Path segment of the operation.
    pub open spec fn segment(self) -> Seq<char> {
        match self {
            Endpoint::Config => "config"@,
            Endpoint::Register => "register"@,
            Endpoint::Unregister => "unregister"@,
            Endpoint::Verify => "verify"@,
            Endpoint::Users => "users"@,
            Endpoint::Submit => "submit"@,
            Endpoint::SubmitWithAgent => "submitWithAgent"@,
            Endpoint::SubmitStatsWithAgent => "submitStatsWithAgent"@,
            Endpoint::Heartbeat => "heartbeat"@,
        }
    }

    /// Path segment of the operation.
    pub fn as_str(&self) -> (r: &'static str)
        ensures
            r@ == self.segment(),
    {
        match self {
            Endpoint::Config => "config",
            Endpoint::Register => "register",
            Endpoint::Unregister => "unregister",
            Endpoint::Verify => "verify",
            Endpoint::Users => "users",
            Endpoint::Submit => "submit",
            Endpoint::SubmitWithAgent => "submitWithAgent",
            Endpoint::SubmitStatsWithAgent => "submitStatsWithAgent",
            Endpoint::Heartbeat => "heartbeat",
        }
    }
}

/// Path of the plain configuration of a node type.
pub open spec fn raw_config_path_spec(node_type: NodeType) -> Seq<char> {
    "/api/v1/server/"@ + node_type.name() + "/config"@
}

/// Path of an operation of the enhanced API for a node type.
pub open spec fn enhanced_path_spec(node_type: NodeType, endpoint: Endpoint) -> Seq<char> {
    "/api/v1/server/enhanced/"@ + node_type.name() + "/"@ + endpoint.segment()
}

/// Path of the plain configuration of `node_type`.
pub fn raw_config_path(node_type: NodeType) -> (r: String)
    ensures
        r@ == raw_config_path_spec(node_type),
{
    let mut path = "/api/v1/server/".to_owned();
    path.append(node_type.as_str());
    path.append("/config");
    path
}

/// Path of `endpoint` in the enhanced API for `node_type`.
pub fn enhanced_path(node_type: NodeType, endpoint: Endpoint) -> (r: String)
    ensures
        r@ == enhanced_path_spec(node_type, endpoint),
{
    let mut path = "/api/v1/server/enhanced/".to_owned();
    path.append(node_type.as_str());
    path.append("/");
    path.append(endpoint.as_str());
    path
}

impl Config {
    /// Create a new configuration with a 5 second timeout and debug
    /// logging off.
    pub fn new(api_host: &str, token: &str) -> (r: Config)
        ensures
            r.api_host@ == api_host@,
            r.token@ == token@,
            r.timeout == duration_from_secs(DEFAULT_TIMEOUT_SECS),
            !r.debug,
    {
        Config {
            api_host: api_host.to_owned(),
            token: token.to_owned(),
            timeout: Duration::from_secs(DEFAULT_TIMEOUT_SECS),
            debug: false,
        }
    }

    /// Set the request timeout.
    pub fn with_timeout(self, timeout: Duration) -> (r: Config)
        ensures
            r.api_host == self.api_host,
            r.token == self.token,
            r.timeout == timeout,
            r.debug == self.debug,
    {
        Config { timeout, ..self }
    }

    /// Enable or disable debug mode.
    pub fn with_debug(self, debug: bool) -> (r: Config)
        ensures
            r.api_host == self.api_host,
            r.token == self.token,
            r.timeout == self.timeout,
            r.debug == debug,
    {
        Config { debug, ..self }
    }

    /// Build the URL of `path` with the token as first query parameter,
    /// followed by `params` in order; values are form-encoded.
    pub fn build_url(&self, path: &str, params: &[(&str, &str)]) -> (r: String)
        ensures
            r@ == request_url(self.api_host@, self.token@, path@, params_view(params@)),
    {
        let mut url = trim_end_slashes(self.api_host.as_str()).to_owned();
        url.append(path);
        url.append("?token=");
        let token = form_urlencode(self.token.as_str());
        url.append(token.as_str());
        let ghost head = url@;
        let mut i: usize = 0;
        while i < params.len()
            invariant
                i <= params@.len(),
                head == trim_trailing_slashes(self.api_host@) + path@ + "?token="@ + form_encoded(
                    self.token@,
                ),
                url@ == head + query_tail(params_view(params@).subrange(0, i as int)),
            decreases params@.len() - i,
        {
            let (key, value) = params[i];
            url.append("&");
            url.append(key);
            url.append("=");
            let encoded = form_urlencode(value);
            url.append(encoded.as_str());
            proof {
                let all = params_view(params@);
                let done = all.subrange(0, i + 1);
                assert(done.drop_last() =~= all.subrange(0, i as int));
                assert(done.last() == (key@, value@));
            }
            i = i + 1;
        }
        proof {
            let all = params_view(params@);
            assert(all.subrange(0, all.len() as int) =~= all);
        }
        url
    }
}

/// Key of the ETag cache entry of a node type and register ID.
pub open spec fn cache_key_spec(node_type: NodeType, register_id: Seq<char>) -> Seq<char> {
    node_type.name() + ":"@ + register_id
}

/// Key of the ETag cache entry of `node_type` and `register_id`:
/// `<node type>:<register id>`.
pub fn cache_key(node_type: NodeType, register_id: &str) -> (r: String)
    ensures
        r@ == cache_key_spec(node_type, register_id@),
{
    let mut key = node_type.as_str().to_owned();
    key.append(":");
    key.append(register_id);
    key
}

// ---------------------------------------------------------------------------
// Requests of each operation
// ---------------------------------------------------------------------------

/// The decimal digit of `d < 10`.
pub open spec fn decimal_digit(d: nat) -> char {
    (0x30 + d) as char
}

/// Decimal digits of a natural number, most significant first.
pub open spec fn decimal_digits(n: nat) -> Seq<char>
    decreases n,
{
    if n < 10 {
        seq![decimal_digit(n)]
    } else {
        decimal_digits(n / 10).push(decimal_digit(n % 10))
    }
}

/// Decimal form of an integer, with a leading `-` when it is negative.
pub open spec fn decimal(n: int) -> Seq<char> {
    if n < 0 {
        seq!['-'] + decimal_digits((-n) as nat)
    } else {
        decimal_digits(n as nat)
    }
}

/// The decimal digit `d < 10` as a one-character string.
fn digit_str(d: u64) -> (r: &'static str)
    requires
        d < 10,
    ensures
        r@ == seq![decimal_digit(d as nat)],
{
    proof {
        reveal_strlit("0");
        reveal_strlit("1");
        reveal_strlit("2");
        reveal_strlit("3");
        reveal_strlit("4");
        reveal_strlit("5");
        reveal_strlit("6");
        reveal_strlit("7");
        reveal_strlit("8");
        reveal_strlit("9");
    }
    let r = if d == 0 {
        "0"
    } else if d == 1 {
        "1"
    } else if d == 2 {
        "2"
    } else if d == 3 {
        "3"
    } else if d == 4 {
        "4"
    } else if d == 5 {
        "5"
    } else if d == 6 {
        "6"
    } else if d == 7 {
        "7"
    } else if d == 8 {
        "8"
    } else {
        "9"
    };
    assert(r@ =~= seq![decimal_digit(d as nat)]);
    r
}

/// Append the decimal digits of `m` to `out`.
fn append_decimal_digits(out: &mut String, m: u64)
    ensures
        final(out)@ == old(out)@ + decimal_digits(m as nat),
    decreases m,
{
    if m >= 10 {
        append_decimal_digits(out, m / 10);
    }
    out.append(digit_str(m % 10));
    proof {
        if m >= 10 {
            assert(decimal_digits(m as nat) == decimal_digits((m / 10) as nat).push(
                decimal_digit((m % 10) as nat),
            ));
        }
    }
    assert(out@ =~= old(out)@ + decimal_digits(m as nat));
}

/// Decimal form of `n`: its digits without leading zeros, after a `-` when
/// it is negative.
fn i64_to_decimal(n: i64) -> (r: String)
    ensures
        r@ == decimal(n as int),
{
    if n < 0 {
        let magnitude: u64 = ((-(n + 1)) as u64) + 1;
        let mut out = "-".to_owned();
        proof {
            reveal_strlit("-");
        }
        append_decimal_digits(&mut out, magnitude);
        assert(out@ =~= decimal(n as int));
        out
    } else {
        let mut out = String::new();
        append_decimal_digits(&mut out, n as u64);
        assert(out@ =~= decimal(n as int));
        out
    }
}

/// HTTP method of a request.
#[derive(Debug, Clone, Copy, PartialEq, Eq, Structural)]
pub enum HttpMethod {
    Get,
    Post,
}

/// An operation of the API, with what its URL needs.
#[derive(Debug, Clone, Copy)]
pub enum Operation<'a> {
    /// Raw node configuration.
    RawConfig { node_type: NodeType, node_id: i64 },
    /// Node configuration in its envelope.
    Config { node_type: NodeType, node_id: i64 },
    /// Register a node.
    Register { node_type: NodeType, node_id: i64 },
    /// Unregister a registration.
    Unregister { node_type: NodeType, register_id: &'a str },
    /// Check a registration; the register ID travels in the body.
    Verify { node_type: NodeType },
    /// User list of a registration, fetched conditionally.
    Users { node_type: NodeType, register_id: &'a str },
    /// Submit user traffic.
    Submit { node_type: NodeType },
    /// Submit user traffic with agent information.
    SubmitWithAgent { node_type: NodeType },
    /// Submit aggregated traffic statistics.
    SubmitStatsWithAgent { node_type: NodeType },
    /// Heartbeat of a registration.
    Heartbeat { node_type: NodeType },
}

/// HTTP method of an operation: the fetches are GETs, the rest POSTs.
pub open spec fn operation_method(op: Operation) -> HttpMethod {
    match op {
        Operation::RawConfig { .. } | Operation::Config { .. } | Operation::Users { .. } => {
            HttpMethod::Get
        },
        _ => HttpMethod::Post,
    }
}

/// Path of an operation.
pub open spec fn operation_path(op: Operation) -> Seq<char> {
    match op {
        Operation::RawConfig { node_type, .. } => raw_config_path_spec(node_type),
        Operation::Config { node_type, .. } => enhanced_path_spec(node_type, Endpoint::Config),
        Operation::Register { node_type, .. } => enhanced_path_spec(node_type, Endpoint::Register),
        Operation::Unregister { node_type, .. } => enhanced_path_spec(
            node_type,
            Endpoint::Unregister,
        ),
        Operation::Verify { node_type } => enhanced_path_spec(node_type, Endpoint::Verify),
        Operation::Users { node_type, .. } => enhanced_path_spec(node_type, Endpoint::Users),
        Operation::Submit { node_type } => enhanced_path_spec(node_type, Endpoint::Submit),
        Operation::SubmitWithAgent { node_type } => enhanced_path_spec(
            node_type,
            Endpoint::SubmitWithAgent,
        ),
        Operation::SubmitStatsWithAgent { node_type } => enhanced_path_spec(
            node_type,
            Endpoint::SubmitStatsWithAgent,
        ),
        Operation::Heartbeat { node_type } => enhanced_path_spec(node_type, Endpoint::Heartbeat),
    }
}

/// Query parameters of an operation, after the token.
pub open spec fn operation_params(op: Operation) -> Seq<(Seq<char>, Seq<char>)> {
    match op {
        Operation::RawConfig { node_id, .. } => seq![("node_id"@, decimal(node_id as int))],
        Operation::Config { node_id, .. } => seq![("node_id"@, decimal(node_id as int))],
        Operation::Register { node_id, .. } => seq![("node_id"@, decimal(node_id as int))],
        Operation::Unregister { register_id, .. } => seq![("register_id"@, register_id@)],
        Operation::Users { register_id, .. } => seq![("register_id"@, register_id@)],
        _ => Seq::empty(),
    }
}

/// ETag cache key that guards an operation: only the user list is fetched
/// conditionally.
pub open spec fn operation_cache_key(op: Operation) -> Option<Seq<char>> {
    match op {
        Operation::Users { node_type, register_id } => Some(
            cache_key_spec(node_type, register_id@),
        ),
        _ => None,
    }
}

/// What a client sends for an operation.
#[derive(Debug, Clone)]
pub struct RequestPlan {
    pub method: HttpMethod,
    pub url: String,
    /// Key of the ETag cache entry that guards the request, if it is a
    /// conditional fetch.
    pub cache_key: Option<String>,
}

impl Config {
    /// The request of `op`: its method, its authenticated URL and, for a
    /// conditional fetch, its cache key.
    pub fn plan(&self, op: Operation) -> (r: RequestPlan)
        ensures
            r.method == operation_method(op),
            r.url@ == request_url(self.api_host@, self.token@, operation_path(op), operation_params(op)),
            match operation_cache_key(op) {
                Some(k) => r.cache_key matches Some(c) && c@ == k,
                None => r.cache_key is None,
            },
    {
        match op {
            Operation::RawConfig { node_type, node_id } => {
                let id = i64_to_decimal(node_id);
                let params = [("node_id", id.as_str())];
                let url = self.build_url(raw_config_path(node_type).as_str(), &params);
                proof {
                    assert(params_view(params@) =~= operation_params(op));
                }
                RequestPlan { method: HttpMethod::Get, url, cache_key: None }
            },
            Operation::Config { node_type, node_id } => {
                let id = i64_to_decimal(node_id);
                let params = [("node_id", id.as_str())];
                let url = self.build_url(enhanced_path(node_type, Endpoint::Config).as_str(), &params);
                proof {
                    assert(params_view(params@) =~= operation_params(op));
                }
                RequestPlan { method: HttpMethod::Get, url, cache_key: None }
            },
            Operation::Register { node_type, node_id } => {
                let id = i64_to_decimal(node_id);
                let params = [("node_id", id.as_str())];
                let url = self.build_url(enhanced_path(node_type, Endpoint::Register).as_str(), &params);
                proof {
                    assert(params_view(params@) =~= operation_params(op));
                }
                RequestPlan { method: HttpMethod::Post, url, cache_key: None }
            },
            Operation::Unregister { node_type, register_id } => {
                let params = [("register_id", register_id)];
                let url = self.build_url(enhanced_path(node_type, Endpoint::Unregister).as_str(), &params);
                proof {
                    assert(params_view(params@) =~= operation_params(op));
                }
                RequestPlan { method: HttpMethod::Post, url, cache_key: None }
            },
            Operation::Users { node_type, register_id } => {
                let params = [("register_id", register_id)];
                let url = self.build_url(enhanced_path(node_type, Endpoint::Users).as_str(), &params);
                proof {
                    assert(params_view(params@) =~= operation_params(op));
                }
                let key = cache_key(node_type, register_id);
                RequestPlan { method: HttpMethod::Get, url, cache_key: Some(key) }
            },
            Operation::Verify { node_type } => self.plain_post(node_type, Endpoint::Verify),
            Operation::Submit { node_type } => self.plain_post(node_type, Endpoint::Submit),
            Operation::SubmitWithAgent { node_type } => self.plain_post(
                node_type,
                Endpoint::SubmitWithAgent,
            ),
            Operation::SubmitStatsWithAgent { node_type } => self.plain_post(
                node_type,
                Endpoint::SubmitStatsWithAgent,
            ),
            Operation::Heartbeat { node_type } => self.plain_post(node_type, Endpoint::Heartbeat),
        }
    }

    /// A POST to `endpoint` of `node_type` with no parameter but the token.
    fn plain_post(&self, node_type: NodeType, endpoint: Endpoint) -> (r: RequestPlan)
        ensures
            r.method == HttpMethod::Post,
            r.url@ == request_url(
                self.api_host@,
                self.token@,
                enhanced_path_spec(node_type, endpoint),
                Seq::empty(),
            ),
            r.cache_key is None,
    {
        let params: [(&str, &str); 0] = [];
        let url = self.build_url(enhanced_path(node_type, endpoint).as_str(), &params);
        proof {
            assert(params_view(params@) =~= Seq::empty());
        }
        RequestPlan { method: HttpMethod::Post, url, cache_key: None }
    }
}

// ---------------------------------------------------------------------------
// Responses
// ---------------------------------------------------------------------------

/// How a response status is handled.
#[derive(Debug, Clone, Copy, PartialEq, Eq, Structural)]
pub enum StatusClass {
    /// 2xx: the body is the result.
    Success,
    /// 304: the cached data is still valid.
    NotModified,
    /// Anything else: the body is the server's error message.
    Failure,
}

/// The class of `status`.
pub open spec fn status_class(status: u16) -> StatusClass {
    if 200 <= status <= 299 {
        StatusClass::Success
    } else if status == 304 {
        StatusClass::NotModified
    } else {
        StatusClass::Failure
    }
}

/// Classify a response status.
pub fn classify_status(status: u16) -> (r: StatusClass)
    ensures
        r == status_class(status),
{
    if 200 <= status && status <= 299 {
        StatusClass::Success
    } else if status == 304 {
        StatusClass::NotModified
    } else {
        StatusClass::Failure
    }
}

/// Message of a server error whose body could not be read.
pub open spec fn unreadable_body_message() -> Seq<char> {
    "Unknown error"@
}

/// The outcome of a response with `status` to a request for `url`; `body` is
/// the response text, `None` when it could not be read. Only a failure uses
/// it.
pub open spec fn response_outcome_ok(
    r: Result<(), ApiError>,
    status: u16,
    url: Seq<char>,
    body: Option<Seq<char>>,
) -> bool {
    match status_class(status) {
        StatusClass::Success => r is Ok,
        StatusClass::NotModified => r matches Err(ApiError::NotModified { url: u }) && u@ == url,
        StatusClass::Failure => r matches Err(
            ApiError::ServerError { status_code, message, url: u },
        ) && status_code == status && u@ == url && message@ == match body {
            Some(b) => b,
            None => unreadable_body_message(),
        },
    }
}

/// Check a response status: 2xx succeeds, 304 is the not-modified signal,
/// any other status is a server error carrying the body text (or a
/// fallback message) and the URL.
pub fn check_response(status: u16, url: &str, body: Option<String>) -> (r: Result<(), ApiError>)
    ensures
        response_outcome_ok(r, status, url@, match body {
            Some(b) => Some(b@),
            None => None,
        }),
{
    match classify_status(status) {
        StatusClass::Success => Ok(()),
        StatusClass::NotModified => Err(ApiError::not_modified(url)),
        StatusClass::Failure => {
            let message = match body {
                Some(b) => b,
                None => "Unknown error".to_owned(),
            };
            Err(ApiError::ServerError { status_code: status, message, url: url.to_owned() })
        },
    }
}

} // verus!
