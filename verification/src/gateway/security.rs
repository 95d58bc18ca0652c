//! Request screening (blocked addresses, bots, path traversal, injection
//! patterns, oversized headers, flooding), CSRF tokens and the security
//! headers of every response.
use vstd::prelude::*;
use vstd::utf8::encode_utf8;
use sha2::Digest as _;
use base64::Engine as _;
use crate::gateway::reply::{Rejection, rejects};
use crate::text::{
    contains, join2, lower_text, push_signed_decimal, seq_contains, seq_starts_with, signed_decimal,
    split_char, split_on, starts_with, str_eq, to_lower, trim, trimmed, own, lemma_split_nonempty,
};
use crate::time::{utc_now, MAX_SECS};

verus! {

/// The SHA-256 digest of `data`.
pub uninterp spec fn sha256_digest(data: Seq<u8>) -> Seq<u8>;

/// `data` in the standard base64 alphabet, with padding.
pub uninterp spec fn base64_standard_encoded(data: Seq<u8>) -> Seq<char>;

/// `sha2::Sha256::digest`: the digest of the bytes, named `sha256_digest`
/// of them; a SHA-256 output is 32 bytes long (`OutputSize = U32`).
#[verifier::external_body]
fn sha256(data: &[u8]) -> (r: Vec<u8>)
    ensures
        r@ == sha256_digest(data@),
        r@.len() == 32,
{
    sha2::Sha256::digest(data).to_vec()
}

/// `base64::engine::general_purpose::STANDARD.encode`: the text is named
/// `base64_standard_encoded` of the bytes. The crate panics where the
/// encoded length overflows `usize`, which `requires` leaves out.
#[verifier::external_body]
fn base64_standard(data: &[u8]) -> (r: String)
    requires
        (data@.len() / 3) * 4 + 4 <= usize::MAX,
    ensures
        r@ == base64_standard_encoded(data@),
{
    base64::engine::general_purpose::STANDARD.encode(data)
}

/// The bytes that a CSRF token hashes: the user id, the timestamp in
/// decimal and the signing key, as UTF-8.
pub open spec fn csrf_input(user_id: Seq<char>, timestamp: int) -> Seq<u8> {
    encode_utf8(user_id) + encode_utf8(signed_decimal(timestamp)) + encode_utf8("csrf_secret_key"@)
}

/// The CSRF token of a user at a second: the base64 text of the SHA-256
/// digest of `csrf_input`.
pub open spec fn csrf_token(user_id: Seq<char>, timestamp: int) -> Seq<char> {
    base64_standard_encoded(sha256_digest(csrf_input(user_id, timestamp)))
}

/// Appends bytes to `out`.
fn push_bytes(out: &mut Vec<u8>, b: &[u8])
    ensures
        final(out)@ == old(out)@ + b@,
{
    let ghost start = old(out)@;
    let mut i: usize = 0;
    while i < b.len()
        invariant
            i <= b@.len(),
            out@ == start + b@.subrange(0, i as int),
        decreases b.len() - i,
    {
        out.push(b[i]);
        i = i + 1;
        assert(out@ =~= start + b@.subrange(0, i as int));
    }
    assert(b@.subrange(0, b@.len() as int) =~= b@);
}

/// `token` is the token of `user` at one of the `max_age` seconds that end
/// at `now`.
pub open spec fn token_fresh_at(token: Seq<char>, user: Seq<char>, max_age: int, now: int) -> bool {
    exists|i: int| 0 <= i < max_age && token == #[trigger] csrf_token(user, now - i)
}

/// Stateless CSRF tokens, bound to a user and a second.
pub struct CSRFProtection;

impl CSRFProtection {
    /// The token of `user_id` at `timestamp`.
    pub fn generate_token(user_id: &str, timestamp: i64) -> (t: String)
        ensures
            t@ == csrf_token(user_id@, timestamp as int),
    {
        let mut data: Vec<u8> = Vec::new();
        push_bytes(&mut data, user_id.as_bytes());
        let mut ts = String::new();
        proof {
            reveal_strlit("");
        }
        push_signed_decimal(&mut ts, timestamp);
        push_bytes(&mut data, ts.as_str().as_bytes());
        push_bytes(&mut data, "csrf_secret_key".as_bytes());
        let digest = sha256(data.as_slice());
        base64_standard(digest.as_slice())
    }

    /// Whether `token` is the token of `user_id` at one of the
    /// `max_age_seconds` seconds that end at `now` (`now`, `now - 1`, ...).
    pub fn validate_token_at(token: &str, user_id: &str, max_age_seconds: i64, now: i64) -> (b: bool)
        requires
            max_age_seconds <= 0 || now - (max_age_seconds - 1) >= i64::MIN,
        ensures
            b == exists|i: int| 0 <= i < max_age_seconds && token@ == #[trigger] csrf_token(user_id@, now - i),
    {
        let mut i: i64 = 0;
        while i < max_age_seconds
            invariant
                0 <= i,
                max_age_seconds <= 0 || i <= max_age_seconds,
                max_age_seconds <= 0 || now - (max_age_seconds - 1) >= i64::MIN,
                forall|j: int| 0 <= j < i ==> token@ != #[trigger] csrf_token(user_id@, now - j),
            decreases max_age_seconds - i,
        {
            let expected = Self::generate_token(user_id, now - i);
            if str_eq(token, expected.as_str()) {
                return true;
            }
            i = i + 1;
        }
        false
    }

    /// Whether `token` is the token of `user_id` at one of the last
    /// `max_age_seconds` seconds of the clock: the answer of
    /// `validate_token_at` at the second the clock reads. Where the clock
    /// cannot be read (before the epoch or past the representable range)
    /// no token is accepted.
    pub fn validate_token(token: &str, user_id: &str, max_age_seconds: i64) -> (b: bool)
        ensures
            b ==> exists|now: int| 0 <= now <= MAX_SECS
                && #[trigger] token_fresh_at(token@, user_id@, max_age_seconds as int, now),
            max_age_seconds <= 0 ==> !b,
            b ==> exists|t: int| token@ == #[trigger] csrf_token(user_id@, t),
    {
        match utc_now() {
            Some(now) => {
                let b = Self::validate_token_at(token, user_id, max_age_seconds, now.secs);
                assert(token_fresh_at(token@, user_id@, max_age_seconds as int, now.secs as int) == b);
                b
            },
            None => false,
        }
    }
}

/// A token generated at second `t` is fresh at every second `now` fewer
/// than `max_age` seconds later, and no token is fresh under an age limit
/// that is not positive.
pub proof fn law_token_round_trip(user_id: Seq<char>, t: int, now: int, max_age: int, token: Seq<char>)
    ensures
        0 <= now - t < max_age ==> token_fresh_at(csrf_token(user_id, t), user_id, max_age, now),
        max_age <= 0 ==> !token_fresh_at(token, user_id, max_age, now),
{
    if 0 <= now - t < max_age {
        assert(csrf_token(user_id, t) == csrf_token(user_id, now - (now - t)));
    }
}

/// A token generated for a user at a second is accepted for that user at
/// every later second while it is younger than the age limit.
pub proof fn law_fresh_token_accepted(user_id: Seq<char>, issued: int, now: int, max_age: int)
    requires
        now - max_age < issued <= now,
    ensures
        exists|i: int| 0 <= i < max_age && csrf_token(user_id, issued) == #[trigger] csrf_token(user_id, now - i),
{
    let i = now - issued;
    assert(csrf_token(user_id, issued) == csrf_token(user_id, now - i));
}

/// The headers that every response carries, in the order they are set.
pub open spec fn security_header_list() -> Seq<(Seq<char>, Seq<char>)> {
    seq![
        ("content-security-policy"@, "default-src 'self'; script-src 'self' 'unsafe-inline'; style-src 'self' 'unsafe-inline'; img-src 'self' data: https:; connect-src 'self' wss: https:; font-src 'self' data:; object-src 'none'; media-src 'self'; frame-src 'none';"@),
        ("strict-transport-security"@, "max-age=31536000; includeSubDomains; preload"@),
        ("x-frame-options"@, "DENY"@),
        ("x-content-type-options"@, "nosniff"@),
        ("x-xss-protection"@, "1; mode=block"@),
        ("referrer-policy"@, "strict-origin-when-cross-origin"@),
        ("permissions-policy"@, "camera=(), microphone=(), geolocation=(), payment=()"@),
        ("server"@, "LinkWithMentor"@),
    ]
}

/// The security headers of responses.
pub struct SecurityHeaders;

impl SecurityHeaders {
    /// The security headers, as name and value, in the order they are set.
    pub fn add_security_headers() -> (h: Vec<(String, String)>)
        ensures
            h@.len() == security_header_list().len(),
            forall|i: int| 0 <= i < h@.len() ==>
                ((#[trigger] h@[i]).0@, h@[i].1@) == security_header_list()[i],
    {
        let mut h: Vec<(String, String)> = Vec::new();
        h.push((own("content-security-policy"), own("default-src 'self'; script-src 'self' 'unsafe-inline'; style-src 'self' 'unsafe-inline'; img-src 'self' data: https:; connect-src 'self' wss: https:; font-src 'self' data:; object-src 'none'; media-src 'self'; frame-src 'none';")));
        h.push((own("strict-transport-security"), own("max-age=31536000; includeSubDomains; preload")));
        h.push((own("x-frame-options"), own("DENY")));
        h.push((own("x-content-type-options"), own("nosniff")));
        h.push((own("x-xss-protection"), own("1; mode=block")));
        h.push((own("referrer-policy"), own("strict-origin-when-cross-origin")));
        h.push((own("permissions-policy"), own("camera=(), microphone=(), geolocation=(), payment=()")));
        h.push((own("server"), own("LinkWithMentor")));
        h
    }
}

/// The store keys that the screening reads and writes per client address.
#[derive(PartialEq, Eq, Structural, Clone, Copy, Debug)]
pub enum SecurityKey {
    Blocklist,
    FailedAttempts,
    BotRateLimit,
    AttackAttempts,
    IpRateLimit,
    DdosFrequency,
}

pub open spec fn key_prefix(k: SecurityKey) -> Seq<char> {
    match k {
        SecurityKey::Blocklist => "ip_blocklist:"@,
        SecurityKey::FailedAttempts => "failed_attempts:"@,
        SecurityKey::BotRateLimit => "bot_rate_limit:"@,
        SecurityKey::AttackAttempts => "attack_attempts:"@,
        SecurityKey::IpRateLimit => "ip_rate_limit:"@,
        SecurityKey::DdosFrequency => "ddos_freq:"@,
    }
}

/// The store key of kind `k` for a client address.
pub fn security_key(k: SecurityKey, client_ip: &str) -> (r: String)
    ensures
        r@ == key_prefix(k) + client_ip@,
{
    match k {
        SecurityKey::Blocklist => join2("ip_blocklist:", client_ip),
        SecurityKey::FailedAttempts => join2("failed_attempts:", client_ip),
        SecurityKey::BotRateLimit => join2("bot_rate_limit:", client_ip),
        SecurityKey::AttackAttempts => join2("attack_attempts:", client_ip),
        SecurityKey::IpRateLimit => join2("ip_rate_limit:", client_ip),
        SecurityKey::DdosFrequency => join2("ddos_freq:", client_ip),
    }
}

/// The first address of an `X-Forwarded-For` list: the text before the
/// first comma, trimmed.
pub fn first_forwarded(xff: &str) -> (r: String)
    ensures
        r@ == trimmed(split_on(xff@, ',')[0]),
{
    proof {
        lemma_split_nonempty(xff@, ',');
    }
    let parts = split_char(xff, ',');
    trim(parts[0].as_str())
}

/// The client address: the first forwarded address where it is a valid IP
/// address, else the `X-Real-IP` address where it is one, else `unknown`.
/// (Whether a text is an IP address is decided by the caller, with
/// `std::net::IpAddr`.)
pub fn client_ip(forwarded: Option<&str>, forwarded_is_ip: bool, real_ip: Option<&str>, real_ip_is_ip: bool) -> (r: String)
    ensures
        r@ == match (forwarded, real_ip) {
            (Some(f), _) if forwarded_is_ip => f@,
            (_, Some(x)) if real_ip_is_ip => x@,
            _ => "unknown"@,
        },
{
    match forwarded {
        Some(f) => {
            if forwarded_is_ip {
                return own(f);
            }
        },
        None => {},
    }
    match real_ip {
        Some(x) => {
            if real_ip_is_ip {
                return own(x);
            }
        },
        None => {},
    }
    own("unknown")
}

/// More than ten failed attempts block an address.
pub open spec fn blocks_after(failed_attempts: u32) -> bool {
    failed_attempts > 10
}

/// The address check: refused with 403 when the address is blocked; with
/// 429 when it failed more than ten times (and is then blocked for an hour).
pub fn ip_restriction_outcome(is_blocked: bool, failed_attempts: u32) -> (r: Result<(), Rejection>)
    ensures
        is_blocked ==> r is Err && rejects(r->Err_0, 403, "Access denied"@),
        !is_blocked && blocks_after(failed_attempts) ==> r is Err
            && rejects(r->Err_0, 429, "Too many failed attempts. IP temporarily blocked."@),
        !is_blocked && !blocks_after(failed_attempts) ==> r is Ok,
        !is_blocked && failed_attempts > 10 ==> r is Err
            && rejects(r->Err_0, 429, "Too many failed attempts. IP temporarily blocked."@),
        !is_blocked && failed_attempts <= 10 ==> r is Ok,
{
    if is_blocked {
        Err(Rejection::new(403, "Access denied"))
    } else if failed_attempts > 10 {
        Err(Rejection::new(429, "Too many failed attempts. IP temporarily blocked."))
    } else {
        Ok(())
    }
}

/// The user agent, lower-cased, names a bot or a scripted client.
pub open spec fn bot_user_agent(user_agent: Seq<char>) -> bool {
    let l = lower_text(user_agent);
    ||| seq_contains(l, "bot"@)
    ||| seq_contains(l, "crawler"@)
    ||| seq_contains(l, "spider"@)
    ||| seq_contains(l, "scraper"@)
    ||| seq_contains(l, "curl"@)
    ||| seq_contains(l, "wget"@)
    ||| seq_contains(l, "python-requests"@)
}

/// Whether the user agent is a bot's (which is then rate limited more strictly).
pub fn is_bot_user_agent(user_agent: &str) -> (b: bool)
    ensures
        b == bot_user_agent(user_agent@),
        b <==> (seq_contains(lower_text(user_agent@), "bot"@) || seq_contains(lower_text(user_agent@), "crawler"@) || seq_contains(lower_text(user_agent@), "spider"@) || seq_contains(lower_text(user_agent@), "scraper"@) || seq_contains(lower_text(user_agent@), "curl"@) || seq_contains(lower_text(user_agent@), "wget"@) || seq_contains(lower_text(user_agent@), "python-requests"@)),
{
    let l = to_lower(user_agent);
    let s = l.as_str();
    contains(s, "bot") || contains(s, "crawler") || contains(s, "spider") || contains(s, "scraper")
        || contains(s, "curl") || contains(s, "wget") || contains(s, "python-requests")
}

/// The path climbs out of its directory, plainly or percent-encoded.
pub open spec fn path_traversal(path: Seq<char>) -> bool {
    seq_contains(path, ".."@) || seq_contains(path, "%2e%2e"@)
}

/// The query, lower-cased, holds an SQL or script keyword.
pub open spec fn sql_pattern(query: Seq<char>) -> bool {
    let l = lower_text(query);
    ||| seq_contains(l, "union"@)
    ||| seq_contains(l, "select"@)
    ||| seq_contains(l, "insert"@)
    ||| seq_contains(l, "delete"@)
    ||| seq_contains(l, "update"@)
    ||| seq_contains(l, "drop"@)
    ||| seq_contains(l, "exec"@)
    ||| seq_contains(l, "script"@)
}

fn has_sql_pattern(query: &str) -> (b: bool)
    ensures
        b == sql_pattern(query@),
{
    let l = to_lower(query);
    let s = l.as_str();
    contains(s, "union") || contains(s, "select") || contains(s, "insert") || contains(s, "delete")
        || contains(s, "update") || contains(s, "drop") || contains(s, "exec") || contains(s, "script")
}

/// The pattern check, in order: a bot over its rate limit (429), a path
/// traversal (400), an injection pattern in the query (400).
/// `bot_allowed` is the bot rate limit's answer, `true` for other clients.
pub fn suspicious_pattern_outcome(path: &str, query: Option<&str>, bot_allowed: bool) -> (r: Result<(), Rejection>)
    ensures
        !bot_allowed ==> r is Err && rejects(r->Err_0, 429, "Bot rate limit exceeded"@),
        bot_allowed && path_traversal(path@) ==> r is Err && rejects(r->Err_0, 400, "Invalid path"@),
        bot_allowed && (seq_contains(path@, ".."@) || seq_contains(path@, "%2e%2e"@)) ==> r is Err
            && rejects(r->Err_0, 400, "Invalid path"@),
        bot_allowed && !path_traversal(path@) ==> match query {
            Some(q) => if sql_pattern(q@) {
                r is Err && rejects(r->Err_0, 400, "Invalid query parameters"@)
            } else {
                r is Ok
            },
            None => r is Ok,
        },
        bot_allowed && !path_traversal(path@) ==> (query matches Some(q) && (seq_contains(lower_text(q@), "union"@) || seq_contains(lower_text(q@), "select"@) || seq_contains(lower_text(q@), "insert"@) || seq_contains(lower_text(q@), "delete"@) || seq_contains(lower_text(q@), "update"@) || seq_contains(lower_text(q@), "drop"@) || seq_contains(lower_text(q@), "exec"@) || seq_contains(lower_text(q@), "script"@))
            ==> (r is Err && rejects(r->Err_0, 400, "Invalid query parameters"@))),
{
    if !bot_allowed {
        return Err(Rejection::new(429, "Bot rate limit exceeded"));
    }
    if contains(path, "..") || contains(path, "%2e%2e") {
        return Err(Rejection::new(400, "Invalid path"));
    }
    match query {
        Some(q) => {
            if has_sql_pattern(q) {
                Err(Rejection::new(400, "Invalid query parameters"))
            } else {
                Ok(())
            }
        },
        None => Ok(()),
    }
}

/// A query is an injection pattern exactly when its lower-cased text
/// holds one of the keywords `union`, `select`, `insert`, `delete`,
/// `update`, `drop`, `exec`, `script`; such a query, on a path without
/// traversal and from a client within its limits, is refused with 400
/// "Invalid query parameters".
pub proof fn law_sql_keywords_refused(q: Seq<char>)
    ensures
        sql_pattern(q) <==> (seq_contains(lower_text(q), "union"@) || seq_contains(lower_text(q), "select"@) || seq_contains(lower_text(q), "insert"@) || seq_contains(lower_text(q), "delete"@) || seq_contains(lower_text(q), "update"@) || seq_contains(lower_text(q), "drop"@) || seq_contains(lower_text(q), "exec"@) || seq_contains(lower_text(q), "script"@)),
{
}

/// The screening lists: a user agent is a bot's exactly when its
/// lower-cased text holds `bot`, `crawler`, `spider`, `scraper`, `curl`,
/// `wget` or `python-requests`; a path traverses exactly when it holds
/// `..` or `%2e%2e`; a path is probed by scanners exactly when it starts
/// with one of the admin, configuration, backup, test, debug or version
/// control paths; an address is blocked after more than ten failures.
pub proof fn law_screening_lists(user_agent: Seq<char>, path: Seq<char>, failed_attempts: u32)
    ensures
        bot_user_agent(user_agent) <==> (seq_contains(lower_text(user_agent), "bot"@) || seq_contains(lower_text(user_agent), "crawler"@) || seq_contains(lower_text(user_agent), "spider"@) || seq_contains(lower_text(user_agent), "scraper"@) || seq_contains(lower_text(user_agent), "curl"@) || seq_contains(lower_text(user_agent), "wget"@) || seq_contains(lower_text(user_agent), "python-requests"@)),
        path_traversal(path) <==> (seq_contains(path, ".."@) || seq_contains(path, "%2e%2e"@)),
        attack_path(path) <==> (seq_starts_with(path, "/admin"@) || seq_starts_with(path, "/wp-admin"@) || seq_starts_with(path, "/phpmyadmin"@) || seq_starts_with(path, "/.env"@) || seq_starts_with(path, "/config"@) || seq_starts_with(path, "/backup"@) || seq_starts_with(path, "/test"@) || seq_starts_with(path, "/debug"@) || seq_starts_with(path, "/.git"@) || seq_starts_with(path, "/api/v1/admin"@)),
        blocks_after(failed_attempts) <==> failed_attempts > 10,
{
}

/// The header check: a header value longer than 8 KiB is refused.
pub fn header_outcome(value_lengths: &Vec<usize>) -> (r: Result<(), Rejection>)
    ensures
        (exists|i: int| 0 <= i < value_lengths@.len() && #[trigger] value_lengths@[i] > 8192) ==> r is Err
            && rejects(r->Err_0, 400, "Header too long"@),
        (forall|i: int| 0 <= i < value_lengths@.len() ==> #[trigger] value_lengths@[i] <= 8192) ==> r is Ok,
{
    let mut i: usize = 0;
    while i < value_lengths.len()
        invariant
            i <= value_lengths@.len(),
            forall|j: int| 0 <= j < i ==> #[trigger] value_lengths@[j] <= 8192,
        decreases value_lengths.len() - i,
    {
        if value_lengths[i] > 8192 {
            return Err(Rejection::new(400, "Header too long"));
        }
        i = i + 1;
    }
    Ok(())
}

/// The path is one that scanners probe.
pub open spec fn attack_path(path: Seq<char>) -> bool {
    ||| seq_starts_with(path, "/admin"@)
    ||| seq_starts_with(path, "/wp-admin"@)
    ||| seq_starts_with(path, "/phpmyadmin"@)
    ||| seq_starts_with(path, "/.env"@)
    ||| seq_starts_with(path, "/config"@)
    ||| seq_starts_with(path, "/backup"@)
    ||| seq_starts_with(path, "/test"@)
    ||| seq_starts_with(path, "/debug"@)
    ||| seq_starts_with(path, "/.git"@)
    ||| seq_starts_with(path, "/api/v1/admin"@)
}

/// Whether the path is one that scanners probe (recorded, not refused).
pub fn is_attack_path(path: &str) -> (b: bool)
    ensures
        b == attack_path(path@),
        b <==> (seq_starts_with(path@, "/admin"@) || seq_starts_with(path@, "/wp-admin"@) || seq_starts_with(path@, "/phpmyadmin"@) || seq_starts_with(path@, "/.env"@) || seq_starts_with(path@, "/config"@) || seq_starts_with(path@, "/backup"@) || seq_starts_with(path@, "/test"@) || seq_starts_with(path@, "/debug"@) || seq_starts_with(path@, "/.git"@) || seq_starts_with(path@, "/api/v1/admin"@)),
{
    starts_with(path, "/admin") || starts_with(path, "/wp-admin") || starts_with(path, "/phpmyadmin")
        || starts_with(path, "/.env") || starts_with(path, "/config") || starts_with(path, "/backup")
        || starts_with(path, "/test") || starts_with(path, "/debug") || starts_with(path, "/.git")
        || starts_with(path, "/api/v1/admin")
}

/// The per-address rate limit: 100 requests a minute.
pub fn ip_rate_outcome(allowed: bool) -> (r: Result<(), Rejection>)
    ensures
        allowed ==> r is Ok,
        !allowed ==> r is Err && rejects(r->Err_0, 429, "IP rate limit exceeded"@),
{
    if allowed { Ok(()) } else { Err(Rejection::new(429, "IP rate limit exceeded")) }
}

/// The failed attempts after one more.
pub fn next_failed_attempts(current: u32) -> (n: u32)
    requires
        current < u32::MAX,
    ensures
        n == current + 1,
{
    current + 1
}

/// The flood check: more than 1000 requests within a minute block the
/// address for an hour; otherwise the count goes up by one.
pub fn ddos_outcome(request_count: u32) -> (r: Result<u32, Rejection>)
    ensures
        request_count > 1000 ==> r is Err
            && rejects(r->Err_0, 429, "Request rate too high. IP temporarily blocked."@),
        request_count <= 1000 ==> r == Ok::<u32, Rejection>((request_count + 1) as u32),
{
    if request_count > 1000 {
        Err(Rejection::new(429, "Request rate too high. IP temporarily blocked."))
    } else {
        Ok(request_count + 1)
    }
}

} // verus!
