//! Path-prefix routing to the downstream services, with per-route timeouts,
//! retries and cache lifetimes, and path pattern utilities.
use vstd::prelude::*;
use crate::gateway::config::{ServiceConfig, default_services, service_for_path};
use crate::table::{Table, table_lookup};
use crate::text::{
    seq_starts_with, seq_ends_with, split_on, starts_with, ends_with, split_char, own, str_eq,
    strip_prefix, chars_of, string_of_range, parse_u32, parse_unsigned, join2, lemma_split_nonempty, lemma_prefix_clash,
};

verus! {

pub struct RouteConfig {
    pub service_name: String,
    pub path_prefix: String,
    pub strip_prefix: bool,
    pub timeout_override: Option<u64>,
    pub retry_override: Option<u32>,
    pub cache_ttl: Option<u64>,
}

/// A route as plain values.
pub struct RouteView {
    pub service: Seq<char>,
    pub prefix: Seq<char>,
    pub strip: bool,
    pub timeout: Option<u64>,
    pub retry: Option<u32>,
    pub ttl: Option<u64>,
}

impl RouteConfig {
    pub open spec fn view(&self) -> RouteView {
        RouteView {
            service: self.service_name@,
            prefix: self.path_prefix@,
            strip: self.strip_prefix,
            timeout: self.timeout_override,
            retry: self.retry_override,
            ttl: self.cache_ttl,
        }
    }
}

pub open spec fn rv(service: Seq<char>, prefix: Seq<char>, timeout: Option<u64>, retry: Option<u32>, ttl: Option<u64>) -> RouteView {
    RouteView { service, prefix, strip: false, timeout, retry, ttl }
}

/// The gateway's routes, one per path prefix.
pub open spec fn default_routes() -> Seq<RouteView> {
    seq![
        rv("user-management"@, "/auth"@, None, None, None),
        rv("user-management"@, "/users"@, None, None, Some(300)),
        rv("user-management"@, "/profiles"@, None, None, Some(600)),
        rv("user-management"@, "/mentor-profiles"@, None, None, Some(600)),
        rv("user-management"@, "/mentee-profiles"@, None, None, Some(600)),
        rv("user-management"@, "/payment-methods"@, None, None, None),
        rv("chat"@, "/chat"@, Some(60), Some(2), None),
        rv("chat"@, "/messages"@, Some(30), Some(3), Some(60)),
        rv("video"@, "/video"@, Some(120), Some(1), None),
        rv("video"@, "/calls"@, Some(120), Some(1), None),
        rv("meetings"@, "/meetings"@, None, None, Some(300)),
        rv("meetings"@, "/sessions"@, None, None, Some(300)),
        rv("payment"@, "/payments"@, Some(60), Some(1), None),
        rv("payment"@, "/transactions"@, Some(45), Some(1), None),
        rv("payment"@, "/subscriptions"@, Some(45), Some(2), Some(300)),
        rv("safety"@, "/safety"@, Some(10), Some(3), Some(60)),
        rv("safety"@, "/moderation"@, Some(15), Some(3), None),
        rv("notifications"@, "/notifications"@, Some(30), Some(2), None),
        rv("notifications"@, "/preferences"@, Some(15), Some(3), Some(300)),
        rv("analytics"@, "/analytics"@, Some(60), Some(2), Some(300)),
        rv("analytics"@, "/dashboards"@, Some(45), Some(2), Some(600)),
        rv("analytics"@, "/reports"@, Some(120), Some(1), Some(1800)),
        rv("video-lectures"@, "/lectures"@, Some(60), Some(2), Some(600)),
        rv("video-lectures"@, "/uploads"@, Some(300), Some(1), None),
    ]
}

/// Route `i` is the most specific route for `path`: its non-empty prefix
/// matches, no matching prefix is longer, and every earlier matching prefix
/// is shorter. (Matching prefixes of one path are prefixes of each other, so
/// their order by length is the same counted in bytes or in characters.)
pub open spec fn is_best_route(rs: Seq<RouteConfig>, path: Seq<char>, i: int) -> bool {
    &&& 0 <= i < rs.len()
    &&& seq_starts_with(path, rs[i].path_prefix@)
    &&& rs[i].path_prefix@.len() > 0
    &&& forall|j: int| 0 <= j < rs.len() && seq_starts_with(path, #[trigger] rs[j].path_prefix@)
        ==> rs[j].path_prefix@.len() <= rs[i].path_prefix@.len()
    &&& forall|j: int| 0 <= j < i && seq_starts_with(path, #[trigger] rs[j].path_prefix@)
        ==> rs[j].path_prefix@.len() < rs[i].path_prefix@.len()
}

/// No route with a non-empty prefix matches `path`.
pub open spec fn no_route(rs: Seq<RouteConfig>, path: Seq<char>) -> bool {
    forall|j: int| 0 <= j < rs.len() && seq_starts_with(path, #[trigger] rs[j].path_prefix@)
        ==> rs[j].path_prefix@.len() == 0
}

/// The path a request is sent on with: without the route's prefix when the
/// route strips it.
pub open spec fn target_path(route: RouteView, path: Seq<char>) -> Seq<char> {
    if route.strip && seq_starts_with(path, route.prefix) {
        path.subrange(route.prefix.len() as int, path.len() as int)
    } else {
        path
    }
}

/// The timeout of a route: its own, else its service's, else 30 seconds.
pub open spec fn route_timeout(route: RouteView, services: Seq<(String, ServiceConfig)>) -> u64 {
    match route.timeout {
        Some(t) => t,
        None => match table_lookup(services, route.service) {
            Some(c) => c.timeout_seconds,
            None => 30,
        },
    }
}

/// The retry count of a route: its own, else its service's, else 3.
pub open spec fn route_retries(route: RouteView, services: Seq<(String, ServiceConfig)>) -> u32 {
    match route.retry {
        Some(t) => t,
        None => match table_lookup(services, route.service) {
            Some(c) => c.retry_attempts,
            None => 3,
        },
    }
}

/// Load-balancing priority of a service: lower is served first.
pub open spec fn service_priority(name: Seq<char>) -> u8 {
    if name == "safety"@ {
        1
    } else if name == "user-management"@ {
        2
    } else if name == "payment"@ {
        3
    } else if name == "chat"@ {
        4
    } else if name == "video"@ {
        5
    } else if name == "meetings"@ {
        6
    } else {
        10
    }
}

pub open spec fn websocket_path(p: Seq<char>) -> bool {
    seq_starts_with(p, "/chat"@) || seq_starts_with(p, "/video"@) || seq_starts_with(p, "/calls"@)
        || seq_starts_with(p, "/meetings"@)
}

pub struct Router {
    pub routes: Vec<RouteConfig>,
    pub service_configs: Table<ServiceConfig>,
}

fn route(service: &str, prefix: &str, timeout: Option<u64>, retry: Option<u32>, ttl: Option<u64>) -> (r: RouteConfig)
    ensures
        r@ == rv(service@, prefix@, timeout, retry, ttl),
{
    RouteConfig {
        service_name: own(service),
        path_prefix: own(prefix),
        strip_prefix: false,
        timeout_override: timeout,
        retry_override: retry,
        cache_ttl: ttl,
    }
}

impl Router {
    /// A router over the gateway's routes and the given services.
    pub fn new(service_configs: Table<ServiceConfig>) -> (r: Self)
        ensures
            r.routes@.len() == default_routes().len(),
            forall|i: int| 0 <= i < r.routes@.len() ==> #[trigger] r.routes@[i]@ == default_routes()[i],
            r.service_configs == service_configs,
    {
        let routes = Self::build_default_routes();
        Router { routes, service_configs }
    }

    /// The gateway's routes, in order.
    pub fn build_default_routes() -> (v: Vec<RouteConfig>)
        ensures
            v@.len() == default_routes().len(),
            forall|i: int| 0 <= i < v@.len() ==> #[trigger] v@[i]@ == default_routes()[i],
    {
        let mut v: Vec<RouteConfig> = Vec::new();
        v.push(route("user-management", "/auth", None, None, None));
        v.push(route("user-management", "/users", None, None, Some(300)));
        v.push(route("user-management", "/profiles", None, None, Some(600)));
        v.push(route("user-management", "/mentor-profiles", None, None, Some(600)));
        v.push(route("user-management", "/mentee-profiles", None, None, Some(600)));
        v.push(route("user-management", "/payment-methods", None, None, None));
        v.push(route("chat", "/chat", Some(60), Some(2), None));
        v.push(route("chat", "/messages", Some(30), Some(3), Some(60)));
        v.push(route("video", "/video", Some(120), Some(1), None));
        v.push(route("video", "/calls", Some(120), Some(1), None));
        v.push(route("meetings", "/meetings", None, None, Some(300)));
        v.push(route("meetings", "/sessions", None, None, Some(300)));
        v.push(route("payment", "/payments", Some(60), Some(1), None));
        v.push(route("payment", "/transactions", Some(45), Some(1), None));
        v.push(route("payment", "/subscriptions", Some(45), Some(2), Some(300)));
        v.push(route("safety", "/safety", Some(10), Some(3), Some(60)));
        v.push(route("safety", "/moderation", Some(15), Some(3), None));
        v.push(route("notifications", "/notifications", Some(30), Some(2), None));
        v.push(route("notifications", "/preferences", Some(15), Some(3), Some(300)));
        v.push(route("analytics", "/analytics", Some(60), Some(2), Some(300)));
        v.push(route("analytics", "/dashboards", Some(45), Some(2), Some(600)));
        v.push(route("analytics", "/reports", Some(120), Some(1), Some(1800)));
        v.push(route("video-lectures", "/lectures", Some(60), Some(2), Some(600)));
        v.push(route("video-lectures", "/uploads", Some(300), Some(1), None));
        v
    }

    /// The most specific route for `path`: the longest matching prefix, the
    /// earliest among equally long ones.
    pub fn find_route(&self, path: &str) -> (r: Option<&RouteConfig>)
        ensures
            match r {
                Some(route) => exists|i: int| #[trigger] is_best_route(self.routes@, path@, i) && *route == self.routes@[i],
                None => no_route(self.routes@, path@),
            },
    {
        let mut best: Option<usize> = None;
        let mut best_len: usize = 0;
        let mut i: usize = 0;
        while i < self.routes.len()
            invariant
                i <= self.routes@.len(),
                forall|j: int| 0 <= j < i && seq_starts_with(path@, #[trigger] self.routes@[j].path_prefix@)
                    ==> self.routes@[j].path_prefix@.len() <= best_len,
                match best {
                    Some(b) => b < i && seq_starts_with(path@, self.routes@[b as int].path_prefix@)
                        && best_len == self.routes@[b as int].path_prefix@.len() && best_len > 0
                        && forall|j: int| 0 <= j < b && seq_starts_with(path@, #[trigger] self.routes@[j].path_prefix@)
                            ==> self.routes@[j].path_prefix@.len() < best_len,
                    None => best_len == 0,
                },
            decreases self.routes.len() - i,
        {
            let route = &self.routes[i];
            let n = chars_of(route.path_prefix.as_str()).len();
            if starts_with(path, route.path_prefix.as_str()) && n > best_len {
                best = Some(i);
                best_len = n;
            }
            i = i + 1;
        }
        match best {
            Some(b) => {
                assert(is_best_route(self.routes@, path@, b as int));
                Some(&self.routes[b])
            },
            None => None,
        }
    }

    /// The settings of a service.
    pub fn get_service_config(&self, service_name: &str) -> (r: Option<&ServiceConfig>)
        ensures
            match table_lookup(self.service_configs.entries@, service_name@) {
                Some(c) => r is Some && *r->0 == c,
                None => r is None,
            },
    {
        self.service_configs.get(service_name)
    }

    /// The service address, the request path (without the prefix when the
    /// route strips it) and, if present, `?` and the query.
    pub fn build_target_url(&self, route: &RouteConfig, original_path: &str, query: Option<&str>) -> (url: String)
        requires
            table_lookup(self.service_configs.entries@, route.service_name@) is Some,
        ensures
            url@ == table_lookup(self.service_configs.entries@, route.service_name@)->0.base_url@
                + target_path(route@, original_path@) + match query {
                    Some(q) => seq!['?'] + q@,
                    None => Seq::<char>::empty(),
                },
    {
        let service_config = self.service_configs.get(route.service_name.as_str()).unwrap();
        let target = if route.strip_prefix {
            match strip_prefix(original_path, route.path_prefix.as_str()) {
                Some(rest) => rest,
                None => own(original_path),
            }
        } else {
            own(original_path)
        };
        let mut url = join2(service_config.base_url.as_str(), target.as_str());
        match query {
            Some(q) => {
                let ghost before = url@;
                url.append("?");
                url.append(q);
                proof {
                    reveal_strlit("?");
                    assert(before + "?"@ + q@ =~= before + (seq!['?'] + q@));
                }
            },
            None => {
                assert(url@ =~= url@ + Seq::<char>::empty());
            },
        }
        url
    }

    /// Only `GET` responses of routes with a cache lifetime are cached.
    pub fn should_cache_route(&self, route: &RouteConfig, method: &str) -> (b: bool)
        ensures
            b == (method@ == "GET"@ && route.cache_ttl is Some),
    {
        if !str_eq(method, "GET") {
            return false;
        }
        route.cache_ttl.is_some()
    }

    /// The route's cache lifetime.
    pub fn get_cache_ttl(&self, route: &RouteConfig) -> (r: Option<u64>)
        ensures
            r == route.cache_ttl,
    {
        route.cache_ttl
    }

    /// The route's timeout in seconds.
    pub fn get_timeout(&self, route: &RouteConfig) -> (t: u64)
        ensures
            t == route_timeout(route@, self.service_configs.entries@),
    {
        match route.timeout_override {
            Some(t) => t,
            None => match self.service_configs.get(route.service_name.as_str()) {
                Some(c) => c.timeout_seconds,
                None => 30,
            },
        }
    }

    /// The route's retry count.
    pub fn get_retry_attempts(&self, route: &RouteConfig) -> (t: u32)
        ensures
            t == route_retries(route@, self.service_configs.entries@),
    {
        match route.retry_override {
            Some(t) => t,
            None => match self.service_configs.get(route.service_name.as_str()) {
                Some(c) => c.retry_attempts,
                None => 3,
            },
        }
    }

    /// Whether a path may be upgraded to a WebSocket.
    pub fn supports_websocket(&self, path: &str) -> (b: bool)
        ensures
            b == websocket_path(path@),
            b <==> (seq_starts_with(path@, "/chat"@) || seq_starts_with(path@, "/video"@)
                || seq_starts_with(path@, "/calls"@) || seq_starts_with(path@, "/meetings"@)),
    {
        starts_with(path, "/chat") || starts_with(path, "/video") || starts_with(path, "/calls")
            || starts_with(path, "/meetings")
    }

    /// The route's load-balancing priority.
    pub fn get_route_priority(&self, route: &RouteConfig) -> (p: u8)
        ensures
            p == service_priority(route.service_name@),
            route.service_name@ == "safety"@ ==> p == 1,
            route.service_name@ == "user-management"@ ==> p == 2,
            route.service_name@ == "payment"@ ==> p == 3,
            route.service_name@ == "chat"@ ==> p == 4,
            route.service_name@ == "video"@ ==> p == 5,
            route.service_name@ == "meetings"@ ==> p == 6,
            (route.service_name@ != "safety"@ && route.service_name@ != "user-management"@
                && route.service_name@ != "payment"@ && route.service_name@ != "chat"@
                && route.service_name@ != "video"@ && route.service_name@ != "meetings"@) ==> p == 10,
    {
        proof {
            reveal_strlit("safety");
            reveal_strlit("user-management");
            reveal_strlit("payment");
            reveal_strlit("chat");
            reveal_strlit("video");
            reveal_strlit("meetings");
            assert("safety"@.len() == 6);
            assert("user-management"@.len() == 15);
            assert("payment"@.len() == 7);
            assert("chat"@.len() == 4);
            assert("video"@.len() == 5);
            assert("meetings"@.len() == 8);
        }
        let s = route.service_name.as_str();
        if str_eq(s, "safety") {
            1
        } else if str_eq(s, "user-management") {
            2
        } else if str_eq(s, "payment") {
            3
        } else if str_eq(s, "chat") {
            4
        } else if str_eq(s, "video") {
            5
        } else if str_eq(s, "meetings") {
            6
        } else {
            10
        }
    }
}

// ---------------------------------------------------------------------------
// Path patterns
// ---------------------------------------------------------------------------

/// `path` matches `pattern`: with one `*`, by prefix and suffix around it;
/// otherwise by equality or as a sub-path.
pub open spec fn pattern_matches(path: Seq<char>, pattern: Seq<char>) -> bool {
    let parts = split_on(pattern, '*');
    if parts.len() == 2 {
        seq_starts_with(path, parts[0]) && seq_ends_with(path, parts[1])
    } else {
        path == pattern || seq_starts_with(path, pattern.push('/'))
    }
}

/// A pattern segment of the form `{name}`.
pub open spec fn is_placeholder(seg: Seq<char>) -> bool {
    seg.len() > 0 && seg[0] == '{' && seg.last() == '}'
}

/// The parameters bound by the first `n` pattern segments: each `{name}`
/// segment binds the path segment at the same position, a later binding of a
/// name replacing an earlier one.
pub open spec fn bound_params(ps: Seq<Seq<char>>, ts: Seq<Seq<char>>, n: nat) -> Map<Seq<char>, Seq<char>>
    decreases n,
{
    if n == 0 {
        Map::empty()
    } else {
        let m = bound_params(ps, ts, (n - 1) as nat);
        let seg = ts[n - 1];
        if is_placeholder(seg) && n - 1 < ps.len() {
            m.insert(seg.subrange(1, seg.len() - 1), ps[n - 1])
        } else {
            m
        }
    }
}

/// The number of occurrences of `c` in `s`.
pub open spec fn count_char(s: Seq<char>, c: char) -> nat
    decreases s.len(),
{
    if s.len() == 0 {
        0
    } else {
        count_char(s.drop_last(), c) + if s.last() == c { 1nat } else { 0 }
    }
}

/// Thirty-six bytes long with four hyphens: the gateway's test for an identifier.
pub open spec fn uuid_like(s: Seq<char>) -> bool {
    vstd::utf8::encode_utf8(s).len() == 36 && count_char(s, '-') == 4
}

/// Whether a path parameter's value is acceptable: identifiers must look like
/// identifiers, `page` and `limit` must be `u32` numbers.
pub open spec fn param_ok(k: Seq<char>, v: Seq<char>) -> bool {
    if k == "user_id"@ || k == "session_id"@ || k == "payment_method_id"@ {
        uuid_like(v)
    } else if k == "page"@ || k == "limit"@ {
        parse_unsigned(v, u32::MAX as nat) is Some
    } else {
        true
    }
}

/// The number of occurrences of `c` in `s`.
pub fn count_chars(s: &str, c: char) -> (n: usize)
    ensures
        n == count_char(s@, c),
{
    let x = chars_of(s);
    let mut n: usize = 0;
    let mut i: usize = 0;
    while i < x.len()
        invariant
            i <= x.len(),
            x@ == s@,
            n == count_char(x@.subrange(0, i as int), c),
            n <= i,
        decreases x.len() - i,
    {
        assert(x@.subrange(0, i + 1).drop_last() =~= x@.subrange(0, i as int));
        if x[i] == c {
            n = n + 1;
        }
        i = i + 1;
    }
    assert(x@.subrange(0, x@.len() as int) =~= x@);
    n
}

pub struct RouteMatcher;

impl RouteMatcher {
    /// Whether `path` matches `pattern` (see `pattern_matches`).
    pub fn matches_pattern(path: &str, pattern: &str) -> (b: bool)
        ensures
            b == pattern_matches(path@, pattern@),
    {
        let parts = split_char(pattern, '*');
        if parts.len() == 2 {
            return starts_with(path, parts[0].as_str()) && ends_with(path, parts[1].as_str());
        }
        let mut sub = own(pattern);
        crate::text::push_char(&mut sub, '/');
        str_eq(path, pattern) || starts_with(path, sub.as_str())
    }

    /// The values of the `{name}` segments of `pattern` in `path`.
    pub fn extract_path_params(path: &str, pattern: &str) -> (t: Table<String>)
        ensures
            forall|k: Seq<char>| #![trigger table_lookup(t.entries@, k)] match table_lookup(t.entries@, k) {
                Some(v) => bound_params(split_on(path@, '/'), split_on(pattern@, '/'), split_on(pattern@, '/').len()).contains_key(k)
                    && v@ == bound_params(split_on(path@, '/'), split_on(pattern@, '/'), split_on(pattern@, '/').len())[k],
                None => !bound_params(split_on(path@, '/'), split_on(pattern@, '/'), split_on(pattern@, '/').len()).contains_key(k),
            },
    {
        let path_segments = split_char(path, '/');
        let pattern_segments = split_char(pattern, '/');
        let ghost ps = split_on(path@, '/');
        let ghost ts = split_on(pattern@, '/');
        let mut params: Table<String> = Table::new();
        let mut i: usize = 0;
        while i < pattern_segments.len()
            invariant
                i <= pattern_segments@.len(),
                pattern_segments@.len() == ts.len(),
                path_segments@.len() == ps.len(),
                forall|k: int| 0 <= k < ts.len() ==> #[trigger] pattern_segments@[k]@ == ts[k],
                forall|k: int| 0 <= k < ps.len() ==> #[trigger] path_segments@[k]@ == ps[k],
                forall|k: Seq<char>| #![trigger table_lookup(params.entries@, k)] match table_lookup(params.entries@, k) {
                    Some(v) => bound_params(ps, ts, i as nat).contains_key(k) && v@ == bound_params(ps, ts, i as nat)[k],
                    None => !bound_params(ps, ts, i as nat).contains_key(k),
                },
            decreases pattern_segments.len() - i,
        {
            let seg = &pattern_segments[i];
            let cs = chars_of(seg.as_str());
            if cs.len() > 0 && cs[0] == '{' && cs[cs.len() - 1] == '}' {
                let name = string_of_range(&cs, 1, cs.len() - 1);
                if i < path_segments.len() {
                    let value = own(path_segments[i].as_str());
                    params.insert(name.as_str(), value);
                }
            }
            i = i + 1;
        }
        params
    }

    /// Whether every parameter's value is acceptable (see `param_ok`).
    pub fn validate_path_params(params: &Table<String>) -> (b: bool)
        ensures
            b == forall|i: int| 0 <= i < params.entries@.len() ==> #[trigger] param_ok(params.entries@[i].0@, params.entries@[i].1@),
    {
        let mut i: usize = 0;
        while i < params.entries.len()
            invariant
                i <= params.entries@.len(),
                forall|k: int| 0 <= k < i ==> #[trigger] param_ok(params.entries@[k].0@, params.entries@[k].1@),
            decreases params.entries.len() - i,
        {
            let key = params.entries[i].0.as_str();
            let value = params.entries[i].1.as_str();
            if str_eq(key, "user_id") || str_eq(key, "session_id") || str_eq(key, "payment_method_id") {
                if !Self::is_valid_uuid(value) {
                    assert(!param_ok(params.entries@[i as int].0@, params.entries@[i as int].1@));
                    return false;
                }
            } else if str_eq(key, "page") || str_eq(key, "limit") {
                if parse_u32(value).is_none() {
                    assert(!param_ok(params.entries@[i as int].0@, params.entries@[i as int].1@));
                    return false;
                }
            }
            assert(param_ok(params.entries@[i as int].0@, params.entries@[i as int].1@));
            i = i + 1;
        }
        true
    }

    /// Thirty-six bytes long with four hyphens.
    pub fn is_valid_uuid(s: &str) -> (b: bool)
        ensures
            b == uuid_like(s@),
    {
        let n = s.as_bytes().len();
        n == 36 && count_chars(s, '-') == 4
    }
}


/// Two default route prefixes are never both prefixes of one path: they
/// differ at a place both reach.
#[verifier::spinoff_prover]
proof fn lemma_route_prefixes_apart(p: Seq<char>, i: int, j: int)
    requires
        0 <= i < j < default_routes().len(),
    ensures
        !(seq_starts_with(p, default_routes()[i].prefix) && seq_starts_with(p, default_routes()[j].prefix)),
{
    reveal_strlit("/auth");
    reveal_strlit("/users");
    reveal_strlit("/profiles");
    reveal_strlit("/mentor-profiles");
    reveal_strlit("/mentee-profiles");
    reveal_strlit("/payment-methods");
    reveal_strlit("/chat");
    reveal_strlit("/messages");
    reveal_strlit("/video");
    reveal_strlit("/calls");
    reveal_strlit("/meetings");
    reveal_strlit("/sessions");
    reveal_strlit("/payments");
    reveal_strlit("/transactions");
    reveal_strlit("/subscriptions");
    reveal_strlit("/safety");
    reveal_strlit("/moderation");
    reveal_strlit("/notifications");
    reveal_strlit("/preferences");
    reveal_strlit("/analytics");
    reveal_strlit("/dashboards");
    reveal_strlit("/reports");
    reveal_strlit("/lectures");
    reveal_strlit("/uploads");
    if i == 0 {
        if j == 1 {
            lemma_prefix_clash(p, "/auth"@, "/users"@, 1);
        } else if j == 2 {
            lemma_prefix_clash(p, "/auth"@, "/profiles"@, 1);
        } else if j == 3 {
            lemma_prefix_clash(p, "/auth"@, "/mentor-profiles"@, 1);
        } else if j == 4 {
            lemma_prefix_clash(p, "/auth"@, "/mentee-profiles"@, 1);
        } else if j == 5 {
            lemma_prefix_clash(p, "/auth"@, "/payment-methods"@, 1);
        } else if j == 6 {
            lemma_prefix_clash(p, "/auth"@, "/chat"@, 1);
        } else if j == 7 {
            lemma_prefix_clash(p, "/auth"@, "/messages"@, 1);
        } else if j == 8 {
            lemma_prefix_clash(p, "/auth"@, "/video"@, 1);
        } else if j == 9 {
            lemma_prefix_clash(p, "/auth"@, "/calls"@, 1);
        } else if j == 10 {
            lemma_prefix_clash(p, "/auth"@, "/meetings"@, 1);
        } else if j == 11 {
            lemma_prefix_clash(p, "/auth"@, "/sessions"@, 1);
        } else if j == 12 {
            lemma_prefix_clash(p, "/auth"@, "/payments"@, 1);
        } else if j == 13 {
            lemma_prefix_clash(p, "/auth"@, "/transactions"@, 1);
        } else if j == 14 {
            lemma_prefix_clash(p, "/auth"@, "/subscriptions"@, 1);
        } else if j == 15 {
            lemma_prefix_clash(p, "/auth"@, "/safety"@, 1);
        } else if j == 16 {
            lemma_prefix_clash(p, "/auth"@, "/moderation"@, 1);
        } else if j == 17 {
            lemma_prefix_clash(p, "/auth"@, "/notifications"@, 1);
        } else if j == 18 {
            lemma_prefix_clash(p, "/auth"@, "/preferences"@, 1);
        } else if j == 19 {
            lemma_prefix_clash(p, "/auth"@, "/analytics"@, 2);
        } else if j == 20 {
            lemma_prefix_clash(p, "/auth"@, "/dashboards"@, 1);
        } else if j == 21 {
            lemma_prefix_clash(p, "/auth"@, "/reports"@, 1);
        } else if j == 22 {
            lemma_prefix_clash(p, "/auth"@, "/lectures"@, 1);
        } else if j == 23 {
            lemma_prefix_clash(p, "/auth"@, "/uploads"@, 1);
        }
    } else if i == 1 {
        if j == 2 {
            lemma_prefix_clash(p, "/users"@, "/profiles"@, 1);
        } else if j == 3 {
            lemma_prefix_clash(p, "/users"@, "/mentor-profiles"@, 1);
        } else if j == 4 {
            lemma_prefix_clash(p, "/users"@, "/mentee-profiles"@, 1);
        } else if j == 5 {
            lemma_prefix_clash(p, "/users"@, "/payment-methods"@, 1);
        } else if j == 6 {
            lemma_prefix_clash(p, "/users"@, "/chat"@, 1);
        } else if j == 7 {
            lemma_prefix_clash(p, "/users"@, "/messages"@, 1);
        } else if j == 8 {
            lemma_prefix_clash(p, "/users"@, "/video"@, 1);
        } else if j == 9 {
            lemma_prefix_clash(p, "/users"@, "/calls"@, 1);
        } else if j == 10 {
            lemma_prefix_clash(p, "/users"@, "/meetings"@, 1);
        } else if j == 11 {
            lemma_prefix_clash(p, "/users"@, "/sessions"@, 1);
        } else if j == 12 {
            lemma_prefix_clash(p, "/users"@, "/payments"@, 1);
        } else if j == 13 {
            lemma_prefix_clash(p, "/users"@, "/transactions"@, 1);
        } else if j == 14 {
            lemma_prefix_clash(p, "/users"@, "/subscriptions"@, 1);
        } else if j == 15 {
            lemma_prefix_clash(p, "/users"@, "/safety"@, 1);
        } else if j == 16 {
            lemma_prefix_clash(p, "/users"@, "/moderation"@, 1);
        } else if j == 17 {
            lemma_prefix_clash(p, "/users"@, "/notifications"@, 1);
        } else if j == 18 {
            lemma_prefix_clash(p, "/users"@, "/preferences"@, 1);
        } else if j == 19 {
            lemma_prefix_clash(p, "/users"@, "/analytics"@, 1);
        } else if j == 20 {
            lemma_prefix_clash(p, "/users"@, "/dashboards"@, 1);
        } else if j == 21 {
            lemma_prefix_clash(p, "/users"@, "/reports"@, 1);
        } else if j == 22 {
            lemma_prefix_clash(p, "/users"@, "/lectures"@, 1);
        } else if j == 23 {
            lemma_prefix_clash(p, "/users"@, "/uploads"@, 2);
        }
    } else if i == 2 {
        if j == 3 {
            lemma_prefix_clash(p, "/profiles"@, "/mentor-profiles"@, 1);
        } else if j == 4 {
            lemma_prefix_clash(p, "/profiles"@, "/mentee-profiles"@, 1);
        } else if j == 5 {
            lemma_prefix_clash(p, "/profiles"@, "/payment-methods"@, 2);
        } else if j == 6 {
            lemma_prefix_clash(p, "/profiles"@, "/chat"@, 1);
        } else if j == 7 {
            lemma_prefix_clash(p, "/profiles"@, "/messages"@, 1);
        } else if j == 8 {
            lemma_prefix_clash(p, "/profiles"@, "/video"@, 1);
        } else if j == 9 {
            lemma_prefix_clash(p, "/profiles"@, "/calls"@, 1);
        } else if j == 10 {
            lemma_prefix_clash(p, "/profiles"@, "/meetings"@, 1);
        } else if j == 11 {
            lemma_prefix_clash(p, "/profiles"@, "/sessions"@, 1);
        } else if j == 12 {
            lemma_prefix_clash(p, "/profiles"@, "/payments"@, 2);
        } else if j == 13 {
            lemma_prefix_clash(p, "/profiles"@, "/transactions"@, 1);
        } else if j == 14 {
            lemma_prefix_clash(p, "/profiles"@, "/subscriptions"@, 1);
        } else if j == 15 {
            lemma_prefix_clash(p, "/profiles"@, "/safety"@, 1);
        } else if j == 16 {
            lemma_prefix_clash(p, "/profiles"@, "/moderation"@, 1);
        } else if j == 17 {
            lemma_prefix_clash(p, "/profiles"@, "/notifications"@, 1);
        } else if j == 18 {
            lemma_prefix_clash(p, "/profiles"@, "/preferences"@, 3);
        } else if j == 19 {
            lemma_prefix_clash(p, "/profiles"@, "/analytics"@, 1);
        } else if j == 20 {
            lemma_prefix_clash(p, "/profiles"@, "/dashboards"@, 1);
        } else if j == 21 {
            lemma_prefix_clash(p, "/profiles"@, "/reports"@, 1);
        } else if j == 22 {
            lemma_prefix_clash(p, "/profiles"@, "/lectures"@, 1);
        } else if j == 23 {
            lemma_prefix_clash(p, "/profiles"@, "/uploads"@, 1);
        }
    } else if i == 3 {
        if j == 4 {
            lemma_prefix_clash(p, "/mentor-profiles"@, "/mentee-profiles"@, 5);
        } else if j == 5 {
            lemma_prefix_clash(p, "/mentor-profiles"@, "/payment-methods"@, 1);
        } else if j == 6 {
            lemma_prefix_clash(p, "/mentor-profiles"@, "/chat"@, 1);
        } else if j == 7 {
            lemma_prefix_clash(p, "/mentor-profiles"@, "/messages"@, 3);
        } else if j == 8 {
            lemma_prefix_clash(p, "/mentor-profiles"@, "/video"@, 1);
        } else if j == 9 {
            lemma_prefix_clash(p, "/mentor-profiles"@, "/calls"@, 1);
        } else if j == 10 {
            lemma_prefix_clash(p, "/mentor-profiles"@, "/meetings"@, 3);
        } else if j == 11 {
            lemma_prefix_clash(p, "/mentor-profiles"@, "/sessions"@, 1);
        } else if j == 12 {
            lemma_prefix_clash(p, "/mentor-profiles"@, "/payments"@, 1);
        } else if j == 13 {
            lemma_prefix_clash(p, "/mentor-profiles"@, "/transactions"@, 1);
        } else if j == 14 {
            lemma_prefix_clash(p, "/mentor-profiles"@, "/subscriptions"@, 1);
        } else if j == 15 {
            lemma_prefix_clash(p, "/mentor-profiles"@, "/safety"@, 1);
        } else if j == 16 {
            lemma_prefix_clash(p, "/mentor-profiles"@, "/moderation"@, 2);
        } else if j == 17 {
            lemma_prefix_clash(p, "/mentor-profiles"@, "/notifications"@, 1);
        } else if j == 18 {
            lemma_prefix_clash(p, "/mentor-profiles"@, "/preferences"@, 1);
        } else if j == 19 {
            lemma_prefix_clash(p, "/mentor-profiles"@, "/analytics"@, 1);
        } else if j == 20 {
            lemma_prefix_clash(p, "/mentor-profiles"@, "/dashboards"@, 1);
        } else if j == 21 {
            lemma_prefix_clash(p, "/mentor-profiles"@, "/reports"@, 1);
        } else if j == 22 {
            lemma_prefix_clash(p, "/mentor-profiles"@, "/lectures"@, 1);
        } else if j == 23 {
            lemma_prefix_clash(p, "/mentor-profiles"@, "/uploads"@, 1);
        }
    } else if i == 4 {
        if j == 5 {
            lemma_prefix_clash(p, "/mentee-profiles"@, "/payment-methods"@, 1);
        } else if j == 6 {
            lemma_prefix_clash(p, "/mentee-profiles"@, "/chat"@, 1);
        } else if j == 7 {
            lemma_prefix_clash(p, "/mentee-profiles"@, "/messages"@, 3);
        } else if j == 8 {
            lemma_prefix_clash(p, "/mentee-profiles"@, "/video"@, 1);
        } else if j == 9 {
            lemma_prefix_clash(p, "/mentee-profiles"@, "/calls"@, 1);
        } else if j == 10 {
            lemma_prefix_clash(p, "/mentee-profiles"@, "/meetings"@, 3);
        } else if j == 11 {
            lemma_prefix_clash(p, "/mentee-profiles"@, "/sessions"@, 1);
        } else if j == 12 {
            lemma_prefix_clash(p, "/mentee-profiles"@, "/payments"@, 1);
        } else if j == 13 {
            lemma_prefix_clash(p, "/mentee-profiles"@, "/transactions"@, 1);
        } else if j == 14 {
            lemma_prefix_clash(p, "/mentee-profiles"@, "/subscriptions"@, 1);
        } else if j == 15 {
            lemma_prefix_clash(p, "/mentee-profiles"@, "/safety"@, 1);
        } else if j == 16 {
            lemma_prefix_clash(p, "/mentee-profiles"@, "/moderation"@, 2);
        } else if j == 17 {
            lemma_prefix_clash(p, "/mentee-profiles"@, "/notifications"@, 1);
        } else if j == 18 {
            lemma_prefix_clash(p, "/mentee-profiles"@, "/preferences"@, 1);
        } else if j == 19 {
            lemma_prefix_clash(p, "/mentee-profiles"@, "/analytics"@, 1);
        } else if j == 20 {
            lemma_prefix_clash(p, "/mentee-profiles"@, "/dashboards"@, 1);
        } else if j == 21 {
            lemma_prefix_clash(p, "/mentee-profiles"@, "/reports"@, 1);
        } else if j == 22 {
            lemma_prefix_clash(p, "/mentee-profiles"@, "/lectures"@, 1);
        } else if j == 23 {
            lemma_prefix_clash(p, "/mentee-profiles"@, "/uploads"@, 1);
        }
    } else if i == 5 {
        if j == 6 {
            lemma_prefix_clash(p, "/payment-methods"@, "/chat"@, 1);
        } else if j == 7 {
            lemma_prefix_clash(p, "/payment-methods"@, "/messages"@, 1);
        } else if j == 8 {
            lemma_prefix_clash(p, "/payment-methods"@, "/video"@, 1);
        } else if j == 9 {
            lemma_prefix_clash(p, "/payment-methods"@, "/calls"@, 1);
        } else if j == 10 {
            lemma_prefix_clash(p, "/payment-methods"@, "/meetings"@, 1);
        } else if j == 11 {
            lemma_prefix_clash(p, "/payment-methods"@, "/sessions"@, 1);
        } else if j == 12 {
            lemma_prefix_clash(p, "/payment-methods"@, "/payments"@, 8);
        } else if j == 13 {
            lemma_prefix_clash(p, "/payment-methods"@, "/transactions"@, 1);
        } else if j == 14 {
            lemma_prefix_clash(p, "/payment-methods"@, "/subscriptions"@, 1);
        } else if j == 15 {
            lemma_prefix_clash(p, "/payment-methods"@, "/safety"@, 1);
        } else if j == 16 {
            lemma_prefix_clash(p, "/payment-methods"@, "/moderation"@, 1);
        } else if j == 17 {
            lemma_prefix_clash(p, "/payment-methods"@, "/notifications"@, 1);
        } else if j == 18 {
            lemma_prefix_clash(p, "/payment-methods"@, "/preferences"@, 2);
        } else if j == 19 {
            lemma_prefix_clash(p, "/payment-methods"@, "/analytics"@, 1);
        } else if j == 20 {
            lemma_prefix_clash(p, "/payment-methods"@, "/dashboards"@, 1);
        } else if j == 21 {
            lemma_prefix_clash(p, "/payment-methods"@, "/reports"@, 1);
        } else if j == 22 {
            lemma_prefix_clash(p, "/payment-methods"@, "/lectures"@, 1);
        } else if j == 23 {
            lemma_prefix_clash(p, "/payment-methods"@, "/uploads"@, 1);
        }
    } else if i == 6 {
        if j == 7 {
            lemma_prefix_clash(p, "/chat"@, "/messages"@, 1);
        } else if j == 8 {
            lemma_prefix_clash(p, "/chat"@, "/video"@, 1);
        } else if j == 9 {
            lemma_prefix_clash(p, "/chat"@, "/calls"@, 2);
        } else if j == 10 {
            lemma_prefix_clash(p, "/chat"@, "/meetings"@, 1);
        } else if j == 11 {
            lemma_prefix_clash(p, "/chat"@, "/sessions"@, 1);
        } else if j == 12 {
            lemma_prefix_clash(p, "/chat"@, "/payments"@, 1);
        } else if j == 13 {
            lemma_prefix_clash(p, "/chat"@, "/transactions"@, 1);
        } else if j == 14 {
            lemma_prefix_clash(p, "/chat"@, "/subscriptions"@, 1);
        } else if j == 15 {
            lemma_prefix_clash(p, "/chat"@, "/safety"@, 1);
        } else if j == 16 {
            lemma_prefix_clash(p, "/chat"@, "/moderation"@, 1);
        } else if j == 17 {
            lemma_prefix_clash(p, "/chat"@, "/notifications"@, 1);
        } else if j == 18 {
            lemma_prefix_clash(p, "/chat"@, "/preferences"@, 1);
        } else if j == 19 {
            lemma_prefix_clash(p, "/chat"@, "/analytics"@, 1);
        } else if j == 20 {
            lemma_prefix_clash(p, "/chat"@, "/dashboards"@, 1);
        } else if j == 21 {
            lemma_prefix_clash(p, "/chat"@, "/reports"@, 1);
        } else if j == 22 {
            lemma_prefix_clash(p, "/chat"@, "/lectures"@, 1);
        } else if j == 23 {
            lemma_prefix_clash(p, "/chat"@, "/uploads"@, 1);
        }
    } else if i == 7 {
        if j == 8 {
            lemma_prefix_clash(p, "/messages"@, "/video"@, 1);
        } else if j == 9 {
            lemma_prefix_clash(p, "/messages"@, "/calls"@, 1);
        } else if j == 10 {
            lemma_prefix_clash(p, "/messages"@, "/meetings"@, 3);
        } else if j == 11 {
            lemma_prefix_clash(p, "/messages"@, "/sessions"@, 1);
        } else if j == 12 {
            lemma_prefix_clash(p, "/messages"@, "/payments"@, 1);
        } else if j == 13 {
            lemma_prefix_clash(p, "/messages"@, "/transactions"@, 1);
        } else if j == 14 {
            lemma_prefix_clash(p, "/messages"@, "/subscriptions"@, 1);
        } else if j == 15 {
            lemma_prefix_clash(p, "/messages"@, "/safety"@, 1);
        } else if j == 16 {
            lemma_prefix_clash(p, "/messages"@, "/moderation"@, 2);
        } else if j == 17 {
            lemma_prefix_clash(p, "/messages"@, "/notifications"@, 1);
        } else if j == 18 {
            lemma_prefix_clash(p, "/messages"@, "/preferences"@, 1);
        } else if j == 19 {
            lemma_prefix_clash(p, "/messages"@, "/analytics"@, 1);
        } else if j == 20 {
            lemma_prefix_clash(p, "/messages"@, "/dashboards"@, 1);
        } else if j == 21 {
            lemma_prefix_clash(p, "/messages"@, "/reports"@, 1);
        } else if j == 22 {
            lemma_prefix_clash(p, "/messages"@, "/lectures"@, 1);
        } else if j == 23 {
            lemma_prefix_clash(p, "/messages"@, "/uploads"@, 1);
        }
    } else if i == 8 {
        if j == 9 {
            lemma_prefix_clash(p, "/video"@, "/calls"@, 1);
        } else if j == 10 {
            lemma_prefix_clash(p, "/video"@, "/meetings"@, 1);
        } else if j == 11 {
            lemma_prefix_clash(p, "/video"@, "/sessions"@, 1);
        } else if j == 12 {
            lemma_prefix_clash(p, "/video"@, "/payments"@, 1);
        } else if j == 13 {
            lemma_prefix_clash(p, "/video"@, "/transactions"@, 1);
        } else if j == 14 {
            lemma_prefix_clash(p, "/video"@, "/subscriptions"@, 1);
        } else if j == 15 {
            lemma_prefix_clash(p, "/video"@, "/safety"@, 1);
        } else if j == 16 {
            lemma_prefix_clash(p, "/video"@, "/moderation"@, 1);
        } else if j == 17 {
            lemma_prefix_clash(p, "/video"@, "/notifications"@, 1);
        } else if j == 18 {
            lemma_prefix_clash(p, "/video"@, "/preferences"@, 1);
        } else if j == 19 {
            lemma_prefix_clash(p, "/video"@, "/analytics"@, 1);
        } else if j == 20 {
            lemma_prefix_clash(p, "/video"@, "/dashboards"@, 1);
        } else if j == 21 {
            lemma_prefix_clash(p, "/video"@, "/reports"@, 1);
        } else if j == 22 {
            lemma_prefix_clash(p, "/video"@, "/lectures"@, 1);
        } else if j == 23 {
            lemma_prefix_clash(p, "/video"@, "/uploads"@, 1);
        }
    } else if i == 9 {
        if j == 10 {
            lemma_prefix_clash(p, "/calls"@, "/meetings"@, 1);
        } else if j == 11 {
            lemma_prefix_clash(p, "/calls"@, "/sessions"@, 1);
        } else if j == 12 {
            lemma_prefix_clash(p, "/calls"@, "/payments"@, 1);
        } else if j == 13 {
            lemma_prefix_clash(p, "/calls"@, "/transactions"@, 1);
        } else if j == 14 {
            lemma_prefix_clash(p, "/calls"@, "/subscriptions"@, 1);
        } else if j == 15 {
            lemma_prefix_clash(p, "/calls"@, "/safety"@, 1);
        } else if j == 16 {
            lemma_prefix_clash(p, "/calls"@, "/moderation"@, 1);
        } else if j == 17 {
            lemma_prefix_clash(p, "/calls"@, "/notifications"@, 1);
        } else if j == 18 {
            lemma_prefix_clash(p, "/calls"@, "/preferences"@, 1);
        } else if j == 19 {
            lemma_prefix_clash(p, "/calls"@, "/analytics"@, 1);
        } else if j == 20 {
            lemma_prefix_clash(p, "/calls"@, "/dashboards"@, 1);
        } else if j == 21 {
            lemma_prefix_clash(p, "/calls"@, "/reports"@, 1);
        } else if j == 22 {
            lemma_prefix_clash(p, "/calls"@, "/lectures"@, 1);
        } else if j == 23 {
            lemma_prefix_clash(p, "/calls"@, "/uploads"@, 1);
        }
    } else if i == 10 {
        if j == 11 {
            lemma_prefix_clash(p, "/meetings"@, "/sessions"@, 1);
        } else if j == 12 {
            lemma_prefix_clash(p, "/meetings"@, "/payments"@, 1);
        } else if j == 13 {
            lemma_prefix_clash(p, "/meetings"@, "/transactions"@, 1);
        } else if j == 14 {
            lemma_prefix_clash(p, "/meetings"@, "/subscriptions"@, 1);
        } else if j == 15 {
            lemma_prefix_clash(p, "/meetings"@, "/safety"@, 1);
        } else if j == 16 {
            lemma_prefix_clash(p, "/meetings"@, "/moderation"@, 2);
        } else if j == 17 {
            lemma_prefix_clash(p, "/meetings"@, "/notifications"@, 1);
        } else if j == 18 {
            lemma_prefix_clash(p, "/meetings"@, "/preferences"@, 1);
        } else if j == 19 {
            lemma_prefix_clash(p, "/meetings"@, "/analytics"@, 1);
        } else if j == 20 {
            lemma_prefix_clash(p, "/meetings"@, "/dashboards"@, 1);
        } else if j == 21 {
            lemma_prefix_clash(p, "/meetings"@, "/reports"@, 1);
        } else if j == 22 {
            lemma_prefix_clash(p, "/meetings"@, "/lectures"@, 1);
        } else if j == 23 {
            lemma_prefix_clash(p, "/meetings"@, "/uploads"@, 1);
        }
    } else if i == 11 {
        if j == 12 {
            lemma_prefix_clash(p, "/sessions"@, "/payments"@, 1);
        } else if j == 13 {
            lemma_prefix_clash(p, "/sessions"@, "/transactions"@, 1);
        } else if j == 14 {
            lemma_prefix_clash(p, "/sessions"@, "/subscriptions"@, 2);
        } else if j == 15 {
            lemma_prefix_clash(p, "/sessions"@, "/safety"@, 2);
        } else if j == 16 {
            lemma_prefix_clash(p, "/sessions"@, "/moderation"@, 1);
        } else if j == 17 {
            lemma_prefix_clash(p, "/sessions"@, "/notifications"@, 1);
        } else if j == 18 {
            lemma_prefix_clash(p, "/sessions"@, "/preferences"@, 1);
        } else if j == 19 {
            lemma_prefix_clash(p, "/sessions"@, "/analytics"@, 1);
        } else if j == 20 {
            lemma_prefix_clash(p, "/sessions"@, "/dashboards"@, 1);
        } else if j == 21 {
            lemma_prefix_clash(p, "/sessions"@, "/reports"@, 1);
        } else if j == 22 {
            lemma_prefix_clash(p, "/sessions"@, "/lectures"@, 1);
        } else if j == 23 {
            lemma_prefix_clash(p, "/sessions"@, "/uploads"@, 1);
        }
    } else if i == 12 {
        if j == 13 {
            lemma_prefix_clash(p, "/payments"@, "/transactions"@, 1);
        } else if j == 14 {
            lemma_prefix_clash(p, "/payments"@, "/subscriptions"@, 1);
        } else if j == 15 {
            lemma_prefix_clash(p, "/payments"@, "/safety"@, 1);
        } else if j == 16 {
            lemma_prefix_clash(p, "/payments"@, "/moderation"@, 1);
        } else if j == 17 {
            lemma_prefix_clash(p, "/payments"@, "/notifications"@, 1);
        } else if j == 18 {
            lemma_prefix_clash(p, "/payments"@, "/preferences"@, 2);
        } else if j == 19 {
            lemma_prefix_clash(p, "/payments"@, "/analytics"@, 1);
        } else if j == 20 {
            lemma_prefix_clash(p, "/payments"@, "/dashboards"@, 1);
        } else if j == 21 {
            lemma_prefix_clash(p, "/payments"@, "/reports"@, 1);
        } else if j == 22 {
            assert("/payments"@[1] == 'p' && "/lectures"@[1] == 'l');
            lemma_prefix_clash(p, "/payments"@, "/lectures"@, 1);
        } else if j == 23 {
            lemma_prefix_clash(p, "/payments"@, "/uploads"@, 1);
        }
    } else if i == 13 {
        if j == 14 {
            lemma_prefix_clash(p, "/transactions"@, "/subscriptions"@, 1);
        } else if j == 15 {
            lemma_prefix_clash(p, "/transactions"@, "/safety"@, 1);
        } else if j == 16 {
            lemma_prefix_clash(p, "/transactions"@, "/moderation"@, 1);
        } else if j == 17 {
            lemma_prefix_clash(p, "/transactions"@, "/notifications"@, 1);
        } else if j == 18 {
            lemma_prefix_clash(p, "/transactions"@, "/preferences"@, 1);
        } else if j == 19 {
            lemma_prefix_clash(p, "/transactions"@, "/analytics"@, 1);
        } else if j == 20 {
            lemma_prefix_clash(p, "/transactions"@, "/dashboards"@, 1);
        } else if j == 21 {
            lemma_prefix_clash(p, "/transactions"@, "/reports"@, 1);
        } else if j == 22 {
            lemma_prefix_clash(p, "/transactions"@, "/lectures"@, 1);
        } else if j == 23 {
            lemma_prefix_clash(p, "/transactions"@, "/uploads"@, 1);
        }
    } else if i == 14 {
        if j == 15 {
            lemma_prefix_clash(p, "/subscriptions"@, "/safety"@, 2);
        } else if j == 16 {
            lemma_prefix_clash(p, "/subscriptions"@, "/moderation"@, 1);
        } else if j == 17 {
            lemma_prefix_clash(p, "/subscriptions"@, "/notifications"@, 1);
        } else if j == 18 {
            lemma_prefix_clash(p, "/subscriptions"@, "/preferences"@, 1);
        } else if j == 19 {
            lemma_prefix_clash(p, "/subscriptions"@, "/analytics"@, 1);
        } else if j == 20 {
            lemma_prefix_clash(p, "/subscriptions"@, "/dashboards"@, 1);
        } else if j == 21 {
            lemma_prefix_clash(p, "/subscriptions"@, "/reports"@, 1);
        } else if j == 22 {
            lemma_prefix_clash(p, "/subscriptions"@, "/lectures"@, 1);
        } else if j == 23 {
            lemma_prefix_clash(p, "/subscriptions"@, "/uploads"@, 1);
        }
    } else if i == 15 {
        if j == 16 {
            lemma_prefix_clash(p, "/safety"@, "/moderation"@, 1);
        } else if j == 17 {
            lemma_prefix_clash(p, "/safety"@, "/notifications"@, 1);
        } else if j == 18 {
            lemma_prefix_clash(p, "/safety"@, "/preferences"@, 1);
        } else if j == 19 {
            lemma_prefix_clash(p, "/safety"@, "/analytics"@, 1);
        } else if j == 20 {
            lemma_prefix_clash(p, "/safety"@, "/dashboards"@, 1);
        } else if j == 21 {
            lemma_prefix_clash(p, "/safety"@, "/reports"@, 1);
        } else if j == 22 {
            lemma_prefix_clash(p, "/safety"@, "/lectures"@, 1);
        } else if j == 23 {
            lemma_prefix_clash(p, "/safety"@, "/uploads"@, 1);
        }
    } else if i == 16 {
        if j == 17 {
            lemma_prefix_clash(p, "/moderation"@, "/notifications"@, 1);
        } else if j == 18 {
            lemma_prefix_clash(p, "/moderation"@, "/preferences"@, 1);
        } else if j == 19 {
            lemma_prefix_clash(p, "/moderation"@, "/analytics"@, 1);
        } else if j == 20 {
            assert("/moderation"@[1] == 'm' && "/dashboards"@[1] == 'd');
            lemma_prefix_clash(p, "/moderation"@, "/dashboards"@, 1);
        } else if j == 21 {
            lemma_prefix_clash(p, "/moderation"@, "/reports"@, 1);
        } else if j == 22 {
            lemma_prefix_clash(p, "/moderation"@, "/lectures"@, 1);
        } else if j == 23 {
            lemma_prefix_clash(p, "/moderation"@, "/uploads"@, 1);
        }
    } else if i == 17 {
        if j == 18 {
            lemma_prefix_clash(p, "/notifications"@, "/preferences"@, 1);
        } else if j == 19 {
            lemma_prefix_clash(p, "/notifications"@, "/analytics"@, 1);
        } else if j == 20 {
            lemma_prefix_clash(p, "/notifications"@, "/dashboards"@, 1);
        } else if j == 21 {
            lemma_prefix_clash(p, "/notifications"@, "/reports"@, 1);
        } else if j == 22 {
            lemma_prefix_clash(p, "/notifications"@, "/lectures"@, 1);
        } else if j == 23 {
            lemma_prefix_clash(p, "/notifications"@, "/uploads"@, 1);
        }
    } else if i == 18 {
        if j == 19 {
            lemma_prefix_clash(p, "/preferences"@, "/analytics"@, 1);
        } else if j == 20 {
            lemma_prefix_clash(p, "/preferences"@, "/dashboards"@, 1);
        } else if j == 21 {
            lemma_prefix_clash(p, "/preferences"@, "/reports"@, 1);
        } else if j == 22 {
            lemma_prefix_clash(p, "/preferences"@, "/lectures"@, 1);
        } else if j == 23 {
            lemma_prefix_clash(p, "/preferences"@, "/uploads"@, 1);
        }
    } else if i == 19 {
        if j == 20 {
            lemma_prefix_clash(p, "/analytics"@, "/dashboards"@, 1);
        } else if j == 21 {
            lemma_prefix_clash(p, "/analytics"@, "/reports"@, 1);
        } else if j == 22 {
            lemma_prefix_clash(p, "/analytics"@, "/lectures"@, 1);
        } else if j == 23 {
            lemma_prefix_clash(p, "/analytics"@, "/uploads"@, 1);
        }
    } else if i == 20 {
        if j == 21 {
            lemma_prefix_clash(p, "/dashboards"@, "/reports"@, 1);
        } else if j == 22 {
            lemma_prefix_clash(p, "/dashboards"@, "/lectures"@, 1);
        } else if j == 23 {
            lemma_prefix_clash(p, "/dashboards"@, "/uploads"@, 1);
        }
    } else if i == 21 {
        if j == 22 {
            lemma_prefix_clash(p, "/reports"@, "/lectures"@, 1);
        } else if j == 23 {
            lemma_prefix_clash(p, "/reports"@, "/uploads"@, 1);
        }
    } else if i == 22 {
        if j == 23 {
            lemma_prefix_clash(p, "/lectures"@, "/uploads"@, 1);
        }
    } else if i == 23 {
    }
}

/// Each default route's prefix starts with `/` and is kept on forwarding,
/// and its service is one of the gateway's default services.
proof fn lemma_route_facts(services: Seq<(String, ServiceConfig)>, vars: Seq<(String, String)>, i: int)
    requires
        default_services(services, vars),
        0 <= i < default_routes().len(),
    ensures
        default_routes()[i].prefix.len() > 0,
        default_routes()[i].prefix[0] == '/',
        !default_routes()[i].strip,
        exists|k: int| 0 <= k < services.len() && (#[trigger] services[k]).0@ == default_routes()[i].service,
{
    reveal_strlit("/auth");
    reveal_strlit("/users");
    reveal_strlit("/profiles");
    reveal_strlit("/mentor-profiles");
    reveal_strlit("/mentee-profiles");
    reveal_strlit("/payment-methods");
    reveal_strlit("/chat");
    reveal_strlit("/messages");
    reveal_strlit("/video");
    reveal_strlit("/calls");
    reveal_strlit("/meetings");
    reveal_strlit("/sessions");
    reveal_strlit("/payments");
    reveal_strlit("/transactions");
    reveal_strlit("/subscriptions");
    reveal_strlit("/safety");
    reveal_strlit("/moderation");
    reveal_strlit("/notifications");
    reveal_strlit("/preferences");
    reveal_strlit("/analytics");
    reveal_strlit("/dashboards");
    reveal_strlit("/reports");
    reveal_strlit("/lectures");
    reveal_strlit("/uploads");
    reveal_strlit("user-management");
    reveal_strlit("chat");
    reveal_strlit("video");
    reveal_strlit("meetings");
    reveal_strlit("payment");
    reveal_strlit("safety");
    reveal_strlit("notifications");
    reveal_strlit("analytics");
    reveal_strlit("video-lectures");
    if i == 0 {
        assert(services[0].0@ == "user-management"@);
    } else if i == 1 {
        assert(services[0].0@ == "user-management"@);
    } else if i == 2 {
        assert(services[0].0@ == "user-management"@);
    } else if i == 3 {
        assert(services[0].0@ == "user-management"@);
    } else if i == 4 {
        assert(services[0].0@ == "user-management"@);
    } else if i == 5 {
        assert(services[0].0@ == "user-management"@);
    } else if i == 6 {
        assert(services[1].0@ == "chat"@);
    } else if i == 7 {
        assert(services[1].0@ == "chat"@);
    } else if i == 8 {
        assert(services[2].0@ == "video"@);
    } else if i == 9 {
        assert(services[2].0@ == "video"@);
    } else if i == 10 {
        assert(services[3].0@ == "meetings"@);
    } else if i == 11 {
        assert(services[3].0@ == "meetings"@);
    } else if i == 12 {
        assert(services[4].0@ == "payment"@);
    } else if i == 13 {
        assert(services[4].0@ == "payment"@);
    } else if i == 14 {
        assert(services[4].0@ == "payment"@);
    } else if i == 15 {
        assert(services[5].0@ == "safety"@);
    } else if i == 16 {
        assert(services[5].0@ == "safety"@);
    } else if i == 17 {
        assert(services[6].0@ == "notifications"@);
    } else if i == 18 {
        assert(services[6].0@ == "notifications"@);
    } else if i == 19 {
        assert(services[7].0@ == "analytics"@);
    } else if i == 20 {
        assert(services[7].0@ == "analytics"@);
    } else if i == 21 {
        assert(services[7].0@ == "analytics"@);
    } else if i == 22 {
        assert(services[8].0@ == "video-lectures"@);
    } else if i == 23 {
        assert(services[8].0@ == "video-lectures"@);
    }
}

/// The gateway's default routes are well formed: every prefix starts with
/// `/` and is kept on forwarding, no prefix is a prefix of another, and
/// every route names a service of the gateway's default service settings.
pub proof fn law_default_routes_well_formed(services: Seq<(String, ServiceConfig)>, vars: Seq<(String, String)>)
    requires
        default_services(services, vars),
    ensures
        forall|i: int| 0 <= i < default_routes().len() ==> (#[trigger] default_routes()[i]).prefix.len() > 0
            && default_routes()[i].prefix[0] == '/' && !default_routes()[i].strip,
        (forall|i: int, j: int| 0 <= i < default_routes().len() && 0 <= j < default_routes().len() && i != j
            ==> !seq_starts_with(#[trigger] default_routes()[j].prefix, #[trigger] default_routes()[i].prefix)),
        forall|i: int| 0 <= i < default_routes().len()
            ==> exists|k: int| 0 <= k < services.len() && (#[trigger] services[k]).0@ == (#[trigger] default_routes()[i]).service,
{
    assert forall|i: int| 0 <= i < default_routes().len() implies (#[trigger] default_routes()[i]).prefix.len() > 0
        && default_routes()[i].prefix[0] == '/' && !default_routes()[i].strip by {
        lemma_route_facts(services, vars, i);
    }
    assert forall|i: int| 0 <= i < default_routes().len()
        implies exists|k: int| 0 <= k < services.len() && (#[trigger] services[k]).0@ == (#[trigger] default_routes()[i]).service by {
        lemma_route_facts(services, vars, i);
    }
    assert forall|i: int, j: int| 0 <= i < default_routes().len() && 0 <= j < default_routes().len() && i != j
        implies !seq_starts_with(#[trigger] default_routes()[j].prefix, #[trigger] default_routes()[i].prefix) by {
        let q = default_routes()[j].prefix;
        assert(q.subrange(0, q.len() as int) =~= q);
        if i < j {
            lemma_route_prefixes_apart(q, i, j);
        } else {
            lemma_route_prefixes_apart(q, j, i);
        }
    }
}

/// A path under the prefix of default route `iq` has that route as its
/// most specific one.
proof fn lemma_only_route(routes: Seq<RouteConfig>, path: Seq<char>, iq: int)
    requires
        routes.len() == default_routes().len(),
        forall|i: int| 0 <= i < routes.len() ==> #[trigger] routes[i]@ == default_routes()[i],
        0 <= iq < routes.len(),
        seq_starts_with(path, default_routes()[iq].prefix),
    ensures
        is_best_route(routes, path, iq),
{
    assert(routes[iq]@ == default_routes()[iq]);
    lemma_default_prefix_nonempty(iq);
    assert forall|j: int| 0 <= j < routes.len() && seq_starts_with(path, #[trigger] routes[j].path_prefix@) implies j == iq by {
        assert(routes[j]@ == default_routes()[j]);
        if j < iq {
            lemma_route_prefixes_apart(path, j, iq);
        } else if j > iq {
            lemma_route_prefixes_apart(path, iq, j);
        }
    }
}

/// Every default route prefix is non-empty.
proof fn lemma_default_prefix_nonempty(i: int)
    requires
        0 <= i < default_routes().len(),
    ensures
        default_routes()[i].prefix.len() > 0,
{
    reveal_strlit("/auth");
    reveal_strlit("/users");
    reveal_strlit("/profiles");
    reveal_strlit("/mentor-profiles");
    reveal_strlit("/mentee-profiles");
    reveal_strlit("/payment-methods");
    reveal_strlit("/chat");
    reveal_strlit("/messages");
    reveal_strlit("/video");
    reveal_strlit("/calls");
    reveal_strlit("/meetings");
    reveal_strlit("/sessions");
    reveal_strlit("/payments");
    reveal_strlit("/transactions");
    reveal_strlit("/subscriptions");
    reveal_strlit("/safety");
    reveal_strlit("/moderation");
    reveal_strlit("/notifications");
    reveal_strlit("/preferences");
    reveal_strlit("/analytics");
    reveal_strlit("/dashboards");
    reveal_strlit("/reports");
    reveal_strlit("/lectures");
    reveal_strlit("/uploads");
}

/// The service a path names by its prefix is the service of the path's
/// most specific default route. (The converse does not hold: some routed
/// paths, such as `/analytics`, name no service this way.)
pub proof fn law_service_name_matches_route(routes: Seq<RouteConfig>, path: Seq<char>)
    requires
        routes.len() == default_routes().len(),
        forall|i: int| 0 <= i < routes.len() ==> #[trigger] routes[i]@ == default_routes()[i],
    ensures
        service_for_path(path) matches Some(s) ==> exists|i: int| #[trigger] is_best_route(routes, path, i) && routes[i].service_name@ == s,
{
    reveal_strlit("/auth");
    reveal_strlit("/users");
    reveal_strlit("/profiles");
    reveal_strlit("/payment-methods");
    reveal_strlit("/chat");
    reveal_strlit("/messages");
    reveal_strlit("/video");
    reveal_strlit("/calls");
    reveal_strlit("/meetings");
    reveal_strlit("/sessions");
    reveal_strlit("/payments");
    reveal_strlit("/transactions");
    reveal_strlit("/subscriptions");
    reveal_strlit("/safety");
    reveal_strlit("/moderation");
    reveal_strlit("user-management");
    reveal_strlit("chat");
    reveal_strlit("video");
    reveal_strlit("meetings");
    reveal_strlit("payment");
    reveal_strlit("safety");
    reveal_strlit("notifications");
    reveal_strlit("analytics");
    reveal_strlit("video-lectures");
    if seq_starts_with(path, "/auth"@) {
        lemma_only_route(routes, path, 0);
        assert(routes[0]@ == default_routes()[0]);
    } else if seq_starts_with(path, "/users"@) {
        lemma_only_route(routes, path, 1);
        assert(routes[1]@ == default_routes()[1]);
    } else if seq_starts_with(path, "/profiles"@) {
        lemma_only_route(routes, path, 2);
        assert(routes[2]@ == default_routes()[2]);
    } else if seq_starts_with(path, "/payment-methods"@) {
        lemma_only_route(routes, path, 5);
        assert(routes[5]@ == default_routes()[5]);
    } else if seq_starts_with(path, "/chat"@) {
        lemma_only_route(routes, path, 6);
        assert(routes[6]@ == default_routes()[6]);
    } else if seq_starts_with(path, "/messages"@) {
        lemma_only_route(routes, path, 7);
        assert(routes[7]@ == default_routes()[7]);
    } else if seq_starts_with(path, "/video"@) {
        lemma_only_route(routes, path, 8);
        assert(routes[8]@ == default_routes()[8]);
    } else if seq_starts_with(path, "/calls"@) {
        lemma_only_route(routes, path, 9);
        assert(routes[9]@ == default_routes()[9]);
    } else if seq_starts_with(path, "/meetings"@) {
        lemma_only_route(routes, path, 10);
        assert(routes[10]@ == default_routes()[10]);
    } else if seq_starts_with(path, "/sessions"@) {
        lemma_only_route(routes, path, 11);
        assert(routes[11]@ == default_routes()[11]);
    } else if seq_starts_with(path, "/payments"@) {
        lemma_only_route(routes, path, 12);
        assert(routes[12]@ == default_routes()[12]);
    } else if seq_starts_with(path, "/transactions"@) {
        lemma_only_route(routes, path, 13);
        assert(routes[13]@ == default_routes()[13]);
    } else if seq_starts_with(path, "/subscriptions"@) {
        lemma_only_route(routes, path, 14);
        assert(routes[14]@ == default_routes()[14]);
    } else if seq_starts_with(path, "/safety"@) {
        lemma_only_route(routes, path, 15);
        assert(routes[15]@ == default_routes()[15]);
    } else if seq_starts_with(path, "/moderation"@) {
        lemma_only_route(routes, path, 16);
        assert(routes[16]@ == default_routes()[16]);
    }
}

} // verus!
