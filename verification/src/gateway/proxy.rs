//! Forwarding a request to its service: which paths need a caller, which
//! service a path names, which headers travel, and how failures are told.
use vstd::prelude::*;
use crate::gateway::config::{service_for_path, service_name_for_path};
use crate::text::{seq_starts_with, starts_with, lower_text, to_lower, str_eq, join2, lemma_prefix_clash};
use crate::gateway::auth::{RouteAuthRules, is_best_rule, default_auth_rules};

verus! {

/// Paths that only an authenticated caller may reach.
pub open spec fn protected_path(p: Seq<char>) -> bool {
    ||| seq_starts_with(p, "/auth/logout"@)
    ||| seq_starts_with(p, "/auth/me"@)
    ||| seq_starts_with(p, "/auth/switch-role"@)
    ||| seq_starts_with(p, "/profiles"@)
    ||| seq_starts_with(p, "/mentor-profiles"@)
    ||| seq_starts_with(p, "/mentee-profiles"@)
    ||| seq_starts_with(p, "/payment-methods"@)
    ||| seq_starts_with(p, "/chat"@)
    ||| seq_starts_with(p, "/messages"@)
    ||| seq_starts_with(p, "/video"@)
    ||| seq_starts_with(p, "/calls"@)
    ||| seq_starts_with(p, "/meetings"@)
    ||| seq_starts_with(p, "/sessions"@)
    ||| seq_starts_with(p, "/payments"@)
    ||| seq_starts_with(p, "/transactions"@)
    ||| seq_starts_with(p, "/subscriptions"@)
}

/// The message that goes with a failed forward's status.
pub open spec fn proxy_error_text(status: u16) -> Seq<char> {
    if status == 503 {
        "Service temporarily unavailable"@
    } else if status == 504 {
        "Request timeout"@
    } else if status == 502 {
        "Service connection failed"@
    } else {
        "Internal server error"@
    }
}

/// The status of a forward that failed in transport: a timeout, a failed
/// connection, or anything else.
pub open spec fn transport_status(is_timeout: bool, is_connect: bool) -> u16 {
    if is_timeout {
        504
    } else if is_connect {
        502
    } else {
        500
    }
}

/// Headers that are not passed on: `host`, `connection` and
/// `content-length`, in any case.
pub open spec fn hop_header(name: Seq<char>) -> bool {
    let l = lower_text(name);
    l == "host"@ || l == "connection"@ || l == "content-length"@
}

/// Whether only an authenticated caller may reach `path`.
pub fn is_protected_route(path: &str) -> (b: bool)
    ensures
        b == protected_path(path@),
        b <==> (seq_starts_with(path@, "/auth/logout"@) || seq_starts_with(path@, "/auth/me"@) || seq_starts_with(path@, "/auth/switch-role"@) || seq_starts_with(path@, "/profiles"@) || seq_starts_with(path@, "/mentor-profiles"@) || seq_starts_with(path@, "/mentee-profiles"@) || seq_starts_with(path@, "/payment-methods"@) || seq_starts_with(path@, "/chat"@) || seq_starts_with(path@, "/messages"@) || seq_starts_with(path@, "/video"@) || seq_starts_with(path@, "/calls"@) || seq_starts_with(path@, "/meetings"@) || seq_starts_with(path@, "/sessions"@) || seq_starts_with(path@, "/payments"@) || seq_starts_with(path@, "/transactions"@) || seq_starts_with(path@, "/subscriptions"@)),
{
    starts_with(path, "/auth/logout") || starts_with(path, "/auth/me") || starts_with(path, "/auth/switch-role")
        || starts_with(path, "/profiles") || starts_with(path, "/mentor-profiles") || starts_with(path, "/mentee-profiles")
        || starts_with(path, "/payment-methods") || starts_with(path, "/chat") || starts_with(path, "/messages")
        || starts_with(path, "/video") || starts_with(path, "/calls") || starts_with(path, "/meetings")
        || starts_with(path, "/sessions") || starts_with(path, "/payments") || starts_with(path, "/transactions")
        || starts_with(path, "/subscriptions")
}

/// The service that serves `path`, by its prefix.
pub fn extract_service_name(path: &str) -> (r: Option<&'static str>)
    ensures
        match service_for_path(path@) {
            Some(n) => r is Some && r->0@ == n,
            None => r is None,
        },
{
    service_name_for_path(path)
}

/// The error message for a failed forward.
pub fn proxy_error_message(status: u16) -> (m: &'static str)
    ensures
        m@ == proxy_error_text(status),
        status == 503 ==> m@ == "Service temporarily unavailable"@,
        status == 504 ==> m@ == "Request timeout"@,
        status == 502 ==> m@ == "Service connection failed"@,
        status != 503 && status != 504 && status != 502 ==> m@ == "Internal server error"@,
{
    if status == 503 {
        "Service temporarily unavailable"
    } else if status == 504 {
        "Request timeout"
    } else if status == 502 {
        "Service connection failed"
    } else {
        "Internal server error"
    }
}

/// The status for a forward that failed in transport.
pub fn transport_error_status(is_timeout: bool, is_connect: bool) -> (s: u16)
    ensures
        s == transport_status(is_timeout, is_connect),
        is_timeout ==> s == 504,
        !is_timeout && is_connect ==> s == 502,
        !is_timeout && !is_connect ==> s == 500,
{
    if is_timeout {
        504
    } else if is_connect {
        502
    } else {
        500
    }
}

/// Whether a request header is passed on to the service.
pub fn forwards_header(name: &str) -> (b: bool)
    ensures
        b == !hop_header(name@),
        !b <==> (lower_text(name@) == "host"@ || lower_text(name@) == "connection"@
            || lower_text(name@) == "content-length"@),
{
    let l = to_lower(name);
    !(str_eq(l.as_str(), "host") || str_eq(l.as_str(), "connection") || str_eq(l.as_str(), "content-length"))
}

/// The address a request is forwarded to: the service address followed by
/// the request's path and query (`/` when it has none).
pub fn target_url(service_url: &str, path_and_query: Option<&str>) -> (u: String)
    ensures
        u@ == service_url@ + match path_and_query {
            Some(p) => p@,
            None => "/"@,
        },
{
    match path_and_query {
        Some(p) => join2(service_url, p),
        None => join2(service_url, "/"),
    }
}


/// A path under a public key of the route rules is under no protected
/// prefix.
proof fn lemma_public_not_protected(p: Seq<char>, a: Seq<char>)
    requires
        a == "/health"@ || a == "/auth/register"@ || a == "/auth/login"@,
        seq_starts_with(p, a),
    ensures
        !protected_path(p),
{
    reveal_strlit("/health");
    reveal_strlit("/auth/register");
    reveal_strlit("/auth/login");
    reveal_strlit("/auth/logout");
    reveal_strlit("/auth/me");
    reveal_strlit("/auth/switch-role");
    reveal_strlit("/profiles");
    reveal_strlit("/mentor-profiles");
    reveal_strlit("/mentee-profiles");
    reveal_strlit("/payment-methods");
    reveal_strlit("/chat");
    reveal_strlit("/messages");
    reveal_strlit("/video");
    reveal_strlit("/calls");
    reveal_strlit("/meetings");
    reveal_strlit("/sessions");
    reveal_strlit("/payments");
    reveal_strlit("/transactions");
    reveal_strlit("/subscriptions");
    if a == "/health"@ {
        if seq_starts_with(p, "/auth/logout"@) { lemma_prefix_clash(p, a, "/auth/logout"@, 1); }
        if seq_starts_with(p, "/auth/me"@) { lemma_prefix_clash(p, a, "/auth/me"@, 1); }
        if seq_starts_with(p, "/auth/switch-role"@) { lemma_prefix_clash(p, a, "/auth/switch-role"@, 1); }
        if seq_starts_with(p, "/profiles"@) { lemma_prefix_clash(p, a, "/profiles"@, 1); }
        if seq_starts_with(p, "/mentor-profiles"@) { lemma_prefix_clash(p, a, "/mentor-profiles"@, 1); }
        if seq_starts_with(p, "/mentee-profiles"@) { lemma_prefix_clash(p, a, "/mentee-profiles"@, 1); }
        if seq_starts_with(p, "/payment-methods"@) { lemma_prefix_clash(p, a, "/payment-methods"@, 1); }
        if seq_starts_with(p, "/chat"@) { lemma_prefix_clash(p, a, "/chat"@, 1); }
        if seq_starts_with(p, "/messages"@) { lemma_prefix_clash(p, a, "/messages"@, 1); }
        if seq_starts_with(p, "/video"@) { lemma_prefix_clash(p, a, "/video"@, 1); }
        if seq_starts_with(p, "/calls"@) { lemma_prefix_clash(p, a, "/calls"@, 1); }
        if seq_starts_with(p, "/meetings"@) { lemma_prefix_clash(p, a, "/meetings"@, 1); }
        if seq_starts_with(p, "/sessions"@) { lemma_prefix_clash(p, a, "/sessions"@, 1); }
        if seq_starts_with(p, "/payments"@) { lemma_prefix_clash(p, a, "/payments"@, 1); }
        if seq_starts_with(p, "/transactions"@) { lemma_prefix_clash(p, a, "/transactions"@, 1); }
        if seq_starts_with(p, "/subscriptions"@) { lemma_prefix_clash(p, a, "/subscriptions"@, 1); }
    } else if a == "/auth/register"@ {
        if seq_starts_with(p, "/auth/logout"@) { lemma_prefix_clash(p, a, "/auth/logout"@, 6); }
        if seq_starts_with(p, "/auth/me"@) { lemma_prefix_clash(p, a, "/auth/me"@, 6); }
        if seq_starts_with(p, "/auth/switch-role"@) { lemma_prefix_clash(p, a, "/auth/switch-role"@, 6); }
        if seq_starts_with(p, "/profiles"@) { lemma_prefix_clash(p, a, "/profiles"@, 1); }
        if seq_starts_with(p, "/mentor-profiles"@) { lemma_prefix_clash(p, a, "/mentor-profiles"@, 1); }
        if seq_starts_with(p, "/mentee-profiles"@) { lemma_prefix_clash(p, a, "/mentee-profiles"@, 1); }
        if seq_starts_with(p, "/payment-methods"@) { lemma_prefix_clash(p, a, "/payment-methods"@, 1); }
        if seq_starts_with(p, "/chat"@) { lemma_prefix_clash(p, a, "/chat"@, 1); }
        if seq_starts_with(p, "/messages"@) { lemma_prefix_clash(p, a, "/messages"@, 1); }
        if seq_starts_with(p, "/video"@) { lemma_prefix_clash(p, a, "/video"@, 1); }
        if seq_starts_with(p, "/calls"@) { lemma_prefix_clash(p, a, "/calls"@, 1); }
        if seq_starts_with(p, "/meetings"@) { lemma_prefix_clash(p, a, "/meetings"@, 1); }
        if seq_starts_with(p, "/sessions"@) { lemma_prefix_clash(p, a, "/sessions"@, 1); }
        if seq_starts_with(p, "/payments"@) { lemma_prefix_clash(p, a, "/payments"@, 1); }
        if seq_starts_with(p, "/transactions"@) { lemma_prefix_clash(p, a, "/transactions"@, 1); }
        if seq_starts_with(p, "/subscriptions"@) { lemma_prefix_clash(p, a, "/subscriptions"@, 1); }
    } else if a == "/auth/login"@ {
        if seq_starts_with(p, "/auth/logout"@) { lemma_prefix_clash(p, a, "/auth/logout"@, 9); }
        if seq_starts_with(p, "/auth/me"@) { lemma_prefix_clash(p, a, "/auth/me"@, 6); }
        if seq_starts_with(p, "/auth/switch-role"@) { lemma_prefix_clash(p, a, "/auth/switch-role"@, 6); }
        if seq_starts_with(p, "/profiles"@) { lemma_prefix_clash(p, a, "/profiles"@, 1); }
        if seq_starts_with(p, "/mentor-profiles"@) { lemma_prefix_clash(p, a, "/mentor-profiles"@, 1); }
        if seq_starts_with(p, "/mentee-profiles"@) { lemma_prefix_clash(p, a, "/mentee-profiles"@, 1); }
        if seq_starts_with(p, "/payment-methods"@) { lemma_prefix_clash(p, a, "/payment-methods"@, 1); }
        if seq_starts_with(p, "/chat"@) { lemma_prefix_clash(p, a, "/chat"@, 1); }
        if seq_starts_with(p, "/messages"@) { lemma_prefix_clash(p, a, "/messages"@, 1); }
        if seq_starts_with(p, "/video"@) { lemma_prefix_clash(p, a, "/video"@, 1); }
        if seq_starts_with(p, "/calls"@) { lemma_prefix_clash(p, a, "/calls"@, 1); }
        if seq_starts_with(p, "/meetings"@) { lemma_prefix_clash(p, a, "/meetings"@, 1); }
        if seq_starts_with(p, "/sessions"@) { lemma_prefix_clash(p, a, "/sessions"@, 1); }
        if seq_starts_with(p, "/payments"@) { lemma_prefix_clash(p, a, "/payments"@, 1); }
        if seq_starts_with(p, "/transactions"@) { lemma_prefix_clash(p, a, "/transactions"@, 1); }
        if seq_starts_with(p, "/subscriptions"@) { lemma_prefix_clash(p, a, "/subscriptions"@, 1); }
    }
}

/// No path that the proxy treats as protected is declared public by the
/// gateway's route rules: the rule that decides such a path requires
/// authentication.
pub proof fn law_protected_never_public(rules: RouteAuthRules, path: Seq<char>)
    requires
        rules.rules.entries@.len() == default_auth_rules().len(),
        forall|i: int| 0 <= i < rules.rules.entries@.len() ==> (#[trigger] rules.rules.entries@[i]).0@ == default_auth_rules()[i].0
            && rules.rules.entries@[i].1 == default_auth_rules()[i].1,
        protected_path(path),
    ensures
        !exists|i: int| #[trigger] is_best_rule(rules.rules.entries@, path, i) && !rules.rules.entries@[i].1.requires_auth,
{
    let e = rules.rules.entries@;
    if exists|i: int| #[trigger] is_best_rule(e, path, i) && !e[i].1.requires_auth {
        let i = choose|i: int| #[trigger] is_best_rule(e, path, i) && !e[i].1.requires_auth;
        assert(e[i].0@ == default_auth_rules()[i].0 && e[i].1 == default_auth_rules()[i].1);
        if i <= 2 {
            lemma_public_not_protected(path, e[i].0@);
        } else {
            assert(default_auth_rules()[i].1.requires_auth);
        }
    }
}


} // verus!
