//! The checks every request passes before it is forwarded: client identity
//! for rate limiting, bearer tokens, transport and size limits, allowed
//! origins, CSRF tokens; and the timing of responses.
use vstd::prelude::*;
use vstd::utf8::{valid_utf8, decode_utf8};
use base64::Engine as _;
use crate::gateway::config::SecurityConfig;
use crate::gateway::reply::{Rejection, rejects};
use crate::text::{
    seq_starts_with, split_on, starts_with, str_eq, split_char, chars_of, string_of_range, join2, join3,
    parse_unsigned, parse_usize, listed, contains_text,
};

verus! {

// ---------------------------------------------------------------------------
// Trusted items
// ---------------------------------------------------------------------------

/// What `base64`'s `STANDARD_NO_PAD` engine decodes `text` to, or `None`
/// where it reports an error.
pub uninterp spec fn base64_no_pad_decoded(text: Seq<char>) -> Option<Seq<u8>>;

/// The string held by the top-level field `key` of the JSON document
/// `text`, or `None` where `text` is no JSON document, has no such field, or
/// the field holds no string.
pub uninterp spec fn json_string_field(text: Seq<char>, key: Seq<char>) -> Option<Seq<char>>;

/// `base64::engine::general_purpose::STANDARD_NO_PAD.decode`; the bytes are
/// named `base64_no_pad_decoded` of the input.
#[verifier::external_body]
fn decode_base64_no_pad(text: &str) -> (r: Option<Vec<u8>>)
    ensures
        match base64_no_pad_decoded(text@) {
            Some(b) => r is Some && r->0@ == b,
            None => r is None,
        },
{
    base64::engine::general_purpose::STANDARD_NO_PAD.decode(text).ok()
}

/// `String::from_utf8`: the text that `bytes` encode, when they are UTF-8.
#[verifier::external_body]
fn utf8_text(bytes: Vec<u8>) -> (r: Option<String>)
    ensures
        match r {
            Some(s) => valid_utf8(bytes@) && s@ == decode_utf8(bytes@),
            None => !valid_utf8(bytes@),
        },
{
    String::from_utf8(bytes).ok()
}

/// `serde_json::from_str::<serde_json::Value>` followed by reading the
/// string held by field `key` (`Value::get`, then `Value::as_str`); the
/// result is named `json_string_field`.
#[verifier::external_body]
fn read_json_string_field(text: &str, key: &str) -> (r: Option<String>)
    ensures
        match json_string_field(text@, key@) {
            Some(v) => r is Some && r->0@ == v,
            None => r is None,
        },
{
    match serde_json::from_str::<serde_json::Value>(text) {
        Ok(v) => match v.get(key) {
            Some(field) => field.as_str().map(String::from),
            None => None,
        },
        Err(_) => None,
    }
}

#[verifier::external_type_specification]
#[verifier::external_body]
pub struct ExSystemTime(std::time::SystemTime);

/// `SystemTime::now`.
#[verifier::external_body]
pub(crate) fn system_now() -> std::time::SystemTime {
    std::time::SystemTime::now()
}

/// `SystemTime::elapsed` in whole milliseconds; `None` where the clock went
/// backwards. Nothing is promised of the value, which depends on the clock.
#[verifier::external_body]
fn elapsed_millis(t: &std::time::SystemTime) -> Option<u128> {
    match t.elapsed() {
        Ok(d) => Some(d.as_millis()),
        Err(_) => None,
    }
}

// ---------------------------------------------------------------------------
// Specifications
// ---------------------------------------------------------------------------

/// The subject of a token with three dot-separated parts, read from the
/// unpadded base64 JSON of its middle part.
pub open spec fn token_subject(token: Seq<char>) -> Option<Seq<char>> {
    let parts = split_on(token, '.');
    if parts.len() != 3 {
        None
    } else {
        match base64_no_pad_decoded(parts[1]) {
            Some(b) => if valid_utf8(b) {
                json_string_field(decode_utf8(b), "sub"@)
            } else {
                None
            },
            None => None,
        }
    }
}

/// The header text after `Bearer `, when it starts so.
pub open spec fn bearer_of(header: Option<Seq<char>>) -> Option<Seq<char>> {
    match header {
        Some(h) => if seq_starts_with(h, "Bearer "@) {
            Some(h.subrange(7, h.len() as int))
        } else {
            None
        },
        None => None,
    }
}

/// Whom a request is counted against: the token's subject, else the client
/// address, else `unknown`.
pub open spec fn client_identifier(authorization: Option<Seq<char>>, ip: Option<Seq<char>>) -> Seq<char> {
    match bearer_of(authorization) {
        Some(t) if token_subject(t) is Some => "user:"@ + token_subject(t)->0,
        _ => match ip {
            Some(a) => "ip:"@ + a,
            None => "unknown"@,
        },
    }
}

pub open spec fn opt_view(o: Option<&str>) -> Option<Seq<char>> {
    match o {
        Some(s) => Some(s@),
        None => None,
    }
}

/// Why the security checks refuse a request, if they do: plain HTTP where
/// HTTPS is required, a declared length above the limit, an origin that is
/// not allowed.
pub open spec fn security_outcome(
    c: SecurityConfig,
    scheme: Option<Seq<char>>,
    content_length: Option<Seq<char>>,
    origin: Option<Seq<char>>,
) -> Option<(u16, Seq<char>)> {
    let sch = match scheme {
        Some(s) => s,
        None => "http"@,
    };
    let too_large = match content_length {
        Some(t) => match parse_unsigned(t, usize::MAX as nat) {
            Some(n) => n > c.max_request_size,
            None => false,
        },
        None => false,
    };
    if c.require_https && sch != "https"@ {
        Some((426, "HTTPS required"@))
    } else if too_large {
        Some((413, "Request too large"@))
    } else if !listed(c.allowed_origins@, "*"@) && origin is Some && !listed(c.allowed_origins@, origin->0) {
        Some((403, "Origin not allowed"@))
    } else {
        None
    }
}

/// Methods that change state.
pub open spec fn state_changing(method: Seq<char>) -> bool {
    method == "POST"@ || method == "PUT"@ || method == "DELETE"@ || method == "PATCH"@
}

// ---------------------------------------------------------------------------
// Executable checks
// ---------------------------------------------------------------------------

/// The subject (`sub`) of a token, read without checking its signature.
pub fn extract_user_id_from_token(token: &str) -> (r: Result<String, ()>)
    ensures
        match token_subject(token@) {
            Some(s) => r is Ok && r->Ok_0@ == s,
            None => r is Err,
        },
{
    let parts = split_char(token, '.');
    if parts.len() != 3 {
        return Err(());
    }
    let payload = match decode_base64_no_pad(parts[1].as_str()) {
        Some(b) => b,
        None => return Err(()),
    };
    let text = match utf8_text(payload) {
        Some(t) => t,
        None => return Err(()),
    };
    match read_json_string_field(text.as_str(), "sub") {
        Some(s) => Ok(s),
        None => Err(()),
    }
}

/// The bearer token of an `Authorization` header.
pub fn bearer_token(authorization: Option<&str>) -> (r: Option<String>)
    ensures
        match bearer_of(opt_view(authorization)) {
            Some(t) => r is Some && r->0@ == t,
            None => r is None,
        },
{
    match authorization {
        Some(h) => {
            if starts_with(h, "Bearer ") {
                proof {
                    reveal_strlit("Bearer ");
                }
                let cs = chars_of(h);
                Some(string_of_range(&cs, 7, cs.len()))
            } else {
                None
            }
        },
        None => None,
    }
}

/// Whom a request is counted against. `ip` is the readable text of
/// `x-forwarded-for`, or of `x-real-ip` when the former is absent.
pub fn extract_client_identifier(authorization: Option<&str>, ip: Option<&str>) -> (id: String)
    ensures
        id@ == client_identifier(opt_view(authorization), opt_view(ip)),
{
    match bearer_token(authorization) {
        Some(t) => {
            match extract_user_id_from_token(t.as_str()) {
                Ok(user_id) => {
                    return join2("user:", user_id.as_str());
                },
                Err(_) => {},
            }
        },
        None => {},
    }
    match ip {
        Some(a) => join2("ip:", a),
        None => crate::text::own("unknown"),
    }
}

/// A request is authenticated when it carries a bearer token.
pub fn is_authenticated_request(authorization: Option<&str>) -> (b: bool)
    ensures
        b == (bearer_of(opt_view(authorization)) is Some),
        b <==> (authorization matches Some(h) && seq_starts_with(h@, "Bearer "@)),
{
    match authorization {
        Some(h) => starts_with(h, "Bearer "),
        None => false,
    }
}

/// The counter key of a client's requests to one method and path.
pub fn rate_limit_key(client_id: &str, method: &str, path: &str) -> (k: String)
    ensures
        k@ == "gateway_rate_limit:"@ + client_id@ + ":"@ + method@ + ":"@ + path@,
{
    let a = join3("gateway_rate_limit:", client_id, ":");
    let b = join3(a.as_str(), method, ":");
    join2(b.as_str(), path)
}

/// The answer to a rate-limit check: refused only when the counter says
/// the limit is reached; a failed check lets the request through.
pub fn rate_limit_outcome(check: Result<bool, ()>) -> (r: Result<(), Rejection>)
    ensures
        match check {
            Ok(false) => r is Err && rejects(r->Err_0, 429, "Rate limit exceeded"@),
            _ => r is Ok,
        },
{
    match check {
        Ok(false) => Err(Rejection::new(429, "Rate limit exceeded")),
        _ => Ok(()),
    }
}

/// The bearer token that authentication checks, or the refusal of a
/// request without one.
pub fn auth_token(authorization: Option<&str>) -> (r: Result<String, Rejection>)
    ensures
        match bearer_of(opt_view(authorization)) {
            Some(t) => r is Ok && r->Ok_0@ == t,
            None => r is Err && rejects(r->Err_0, 401, "Missing or invalid authorization header"@),
        },
{
    match bearer_token(authorization) {
        Some(t) => Ok(t),
        None => Err(Rejection::new(401, "Missing or invalid authorization header")),
    }
}

/// The answer of authentication once the token was checked and, for a
/// valid token, the session looked up.
pub fn auth_outcome(token_valid: bool, session_present: bool) -> (r: Result<(), Rejection>)
    ensures
        !token_valid ==> r is Err && rejects(r->Err_0, 401, "Invalid or expired token"@),
        token_valid && !session_present ==> r is Err && rejects(r->Err_0, 401, "Session expired or invalid"@),
        token_valid && session_present ==> r is Ok,
{
    if !token_valid {
        Err(Rejection::new(401, "Invalid or expired token"))
    } else if !session_present {
        Err(Rejection::new(401, "Session expired or invalid"))
    } else {
        Ok(())
    }
}

/// The transport, size and origin checks (see `security_outcome`). The
/// header arguments are the readable texts of `content-length` and `origin`.
pub fn security_middleware(
    security: &SecurityConfig,
    scheme: Option<&str>,
    content_length: Option<&str>,
    origin: Option<&str>,
) -> (r: Result<(), Rejection>)
    ensures
        match security_outcome(*security, opt_view(scheme), opt_view(content_length), opt_view(origin)) {
            Some((s, m)) => r is Err && rejects(r->Err_0, s, m),
            None => r is Ok,
        },
{
    if security.require_https {
        let sch = match scheme {
            Some(s) => s,
            None => "http",
        };
        if !str_eq(sch, "https") {
            return Err(Rejection::new(426, "HTTPS required"));
        }
    }
    match content_length {
        Some(t) => match parse_usize(t) {
            Some(n) => {
                if n > security.max_request_size {
                    return Err(Rejection::new(413, "Request too large"));
                }
            },
            None => {},
        },
        None => {},
    }
    if !contains_text(&security.allowed_origins, "*") {
        match origin {
            Some(o) => {
                if !contains_text(&security.allowed_origins, o) {
                    return Err(Rejection::new(403, "Origin not allowed"));
                }
            },
            None => {},
        }
    }
    Ok(())
}

/// With CSRF protection on, a state-changing request must carry an
/// `X-CSRF-Token` header (its readable text is `csrf_token`).
pub fn csrf_middleware(enabled: bool, method: &str, csrf_token: Option<&str>) -> (r: Result<(), Rejection>)
    ensures
        (enabled && state_changing(method@) && csrf_token is None) ==> r is Err
            && rejects(r->Err_0, 403, "CSRF token required"@),
        !(enabled && state_changing(method@) && csrf_token is None) ==> r is Ok,
{
    if !enabled {
        return Ok(());
    }
    if str_eq(method, "POST") || str_eq(method, "PUT") || str_eq(method, "DELETE") || str_eq(method, "PATCH") {
        if csrf_token.is_none() {
            return Err(Rejection::new(403, "CSRF token required"));
        }
    }
    Ok(())
}

// ---------------------------------------------------------------------------
// Response timing
// ---------------------------------------------------------------------------

/// How long a response took, and whether that was slow (over a second).
#[derive(PartialEq, Eq, Structural, Clone, Copy, Debug)]
pub struct ResponseTiming {
    pub response_time_ms: u128,
    pub slow: bool,
}

impl ResponseTiming {
    pub fn from_millis(ms: u128) -> (t: Self)
        ensures
            t.response_time_ms == ms,
            t.slow == (ms > 1000),
    {
        ResponseTiming { response_time_ms: ms, slow: ms > 1000 }
    }
}

/// Measures the time from the start of a request to its response.
pub struct ResponseTimeTracker {
    pub start_time: std::time::SystemTime,
}

impl ResponseTimeTracker {
    /// Starts measuring now.
    pub fn new() -> Self {
        ResponseTimeTracker { start_time: system_now() }
    }

    /// The time since the start, or `None` where the clock went backwards.
    pub fn finish(&self) -> (r: Option<ResponseTiming>)
        ensures
            r matches Some(t) ==> t.slow == (t.response_time_ms > 1000),
    {
        match elapsed_millis(&self.start_time) {
            Some(ms) => Some(ResponseTiming::from_millis(ms)),
            None => None,
        }
    }
}

} // verus!
