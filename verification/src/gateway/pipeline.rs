//! The decisions of the gateway's request handler, as a state machine: the
//! caller performs each action (a counter check, authentication, a cache
//! lookup, a circuit check, the forward) and hands its outcome back as the
//! next event; the machine says what comes next, until it finishes with a
//! response.
use vstd::prelude::*;
use crate::common::{UserRole, role_name};
use crate::gateway::auth::{
    AuthContext, AuthService, RouteAuthRules, RouteRule, is_best_rule, no_rule, extract_user_id_from_path, presence_role_name,
    user_id_at,
};
use crate::gateway::config::SecurityConfig;
use crate::gateway::middleware::{security_middleware, security_outcome, opt_view, rate_limit_outcome};
use crate::gateway::proxy::{proxy_error_message, proxy_error_text};
use crate::gateway::reply::{Rejection, rejects};
use crate::gateway::router::{Router, RouteConfig, is_best_route, no_route, route_retries};
use crate::text::{split_on, str_eq, join3, own, join2};

verus! {

/// Where a request is in the handler.
#[derive(PartialEq, Eq, Structural, Clone, Copy, Debug)]
pub enum FlowStage {
    Start,
    AwaitRateLimit,
    AwaitAuthentication,
    AwaitPresence,
    AwaitCache,
    AwaitCircuit,
    AwaitForward,
    Finished,
}

/// A request in the handler, with what the handler learnt of it so far.
pub struct RequestFlow {
    pub path: String,
    pub method: String,
    /// The URI's scheme, if it has one.
    pub scheme: Option<String>,
    /// The readable texts of the `content-length` and `origin` headers.
    pub content_length: Option<String>,
    pub origin: Option<String>,
    pub stage: FlowStage,
    /// The index of the request's route among the router's routes.
    pub route: Option<usize>,
    /// The rule of the request's path.
    pub rule: Option<RouteRule>,
    /// The authenticated caller.
    pub auth: Option<AuthContext>,
}

/// The outcome of the action the handler asked for last.
pub enum FlowEvent {
    /// The request arrived.
    Begin,
    /// The rate-limit counter's answer: `Ok(true)` to allow.
    RateLimit(Result<bool, ()>),
    /// The caller's context, or why authentication failed.
    Authenticated(Result<AuthContext, Rejection>),
    /// The caller's presence was recorded (or recording failed; it does not
    /// matter).
    PresenceRecorded,
    /// The cached body, when the cache held one.
    CacheLookup(Option<Vec<u8>>),
    /// Whether the service's circuit is open.
    Circuit(bool),
    /// The status of the service's response, or the status of the failure.
    Forwarded(Result<u16, u16>),
}

/// What the handler does next.
pub enum FlowAction {
    CheckRateLimit,
    Authenticate,
    RecordPresence { user_id: String, role: String },
    LookupCache { key: String },
    CheckCircuit { service: String },
    /// Forward the request on route `route`, with up to `max_retries` retries.
    Forward { route: usize, max_retries: u32 },
    /// Answer 200 with the cached body and `X-Cache: HIT`.
    ServeCached { body: Vec<u8> },
    /// Pass the service's response on with these headers added; when `cache`
    /// is set, store the body under the key for the seconds given and add
    /// `X-Cache: MISS`.
    Respond { status: u16, headers: Vec<(String, String)>, cache: Option<(String, u64)> },
    /// Answer with an error.
    Reject(Rejection),
}

/// The key under which a response is cached: `gateway_cache:<method>:<path>`.
pub open spec fn cache_key_text(method: Seq<char>, path: Seq<char>) -> Seq<char> {
    "gateway_cache:"@ + method + ":"@ + path
}

/// Why an authenticated caller may not use a path under `rule`, if so: a
/// missing role, a different active role, or a resource of another user.
pub open spec fn authorization_outcome(rule: RouteRule, ctx: AuthContext, path: Seq<char>) -> Option<(u16, Seq<char>)> {
    let segs = split_on(path, '/');
    let owner_i = choose|i: int| user_id_at(segs, i) && forall|j: int| 0 <= j < i ==> !user_id_at(segs, j);
    match rule.required_role {
        Some(r) if !ctx.roles@.contains(r) => Some((403, "Role "@ + role_name(r) + " required"@)),
        Some(r) if rule.requires_active_role && ctx.active_role != Some(r) => Some((403, match ctx.active_role {
            Some(a) => "Active role must be "@ + role_name(r) + ", current: "@ + role_name(a),
            None => "No active role set, "@ + role_name(r) + " required"@,
        })),
        _ => if rule.allow_self_access_only && (exists|i: int| user_id_at(segs, i))
            && !ctx.roles@.contains(UserRole::Admin) && ctx.user_id@ != segs[owner_i + 1] {
            Some((403, "Access denied to this resource"@))
        } else {
            None
        },
    }
}

/// The text an optional string holds.
pub open spec fn opt_text(o: Option<String>) -> Option<Seq<char>> {
    match o {
        Some(s) => Some(s@),
        None => None,
    }
}

fn opt_str(o: &Option<String>) -> (r: Option<&str>)
    ensures
        opt_view(r) == opt_text(*o),
{
    match o {
        Some(s) => Some(s.as_str()),
        None => None,
    }
}

/// `a` refuses with `status` and `message`.
pub open spec fn is_reject(a: FlowAction, status: u16, message: Seq<char>) -> bool {
    a matches FlowAction::Reject(r) && rejects(r, status, message)
}

/// `a` checks the circuit of `service`.
pub open spec fn checks_circuit(a: FlowAction, service: Seq<char>) -> bool {
    a matches FlowAction::CheckCircuit { service: s } && s@ == service
}

/// What the handler may hold between steps: a route that exists, and a rule
/// while it authenticates.
pub open spec fn flow_ok(f: RequestFlow, router: Router) -> bool {
    &&& f.route is Some ==> f.route->0 < router.routes@.len()
    &&& (f.stage == FlowStage::AwaitAuthentication || f.stage == FlowStage::AwaitPresence) ==> f.rule is Some
    &&& (f.stage == FlowStage::AwaitAuthentication || f.stage == FlowStage::AwaitPresence || f.stage == FlowStage::AwaitCache || f.stage == FlowStage::AwaitCircuit
        || f.stage == FlowStage::AwaitForward) ==> f.route is Some
}

/// After admission: a cacheable `GET` looks the cache up, anything else
/// checks the circuit of the route's service.
pub open spec fn admitted(pre: RequestFlow, post: RequestFlow, router: Router, a: FlowAction) -> bool {
    let route = router.routes@[post.route->0 as int];
    if pre.method@ == "GET"@ && route.cache_ttl is Some {
        post.stage == FlowStage::AwaitCache && (a matches FlowAction::LookupCache { key } && key@ == cache_key_text(pre.method@, pre.path@))
    } else {
        post.stage == FlowStage::AwaitCircuit && checks_circuit(a, route.service_name@)
    }
}

/// The path's rule asks for authentication.
pub open spec fn needs_auth(rules: RouteAuthRules, path: Seq<char>) -> bool {
    exists|k: int| #[trigger] is_best_rule(rules.rules.entries@, path, k) && rules.rules.entries@[k].1.requires_auth
}

/// One step of the handler, from `pre` to `post` on `event`, answering `a`.
pub open spec fn flow_step(
    pre: RequestFlow,
    post: RequestFlow,
    router: Router,
    rules: RouteAuthRules,
    security: SecurityConfig,
    event: FlowEvent,
    a: FlowAction,
) -> bool {
    let fin = post.stage == FlowStage::Finished;
    match (pre.stage, event) {
        // The request arrives: the security checks decide first.
        (FlowStage::Start, FlowEvent::Begin) => match security_outcome(security, opt_text(pre.scheme),
            opt_text(pre.content_length), opt_text(pre.origin)) {
            Some((s, m)) => fin && is_reject(a, s, m),
            None => post.stage == FlowStage::AwaitRateLimit && a is CheckRateLimit,
        },
        // The counter answered: a refusal ends the request; otherwise the
        // route decides, and the path's rule whether to authenticate.
        (FlowStage::AwaitRateLimit, FlowEvent::RateLimit(c)) => if c == Ok::<bool, ()>(false) {
            fin && is_reject(a, 429, "Rate limit exceeded"@)
        } else if no_route(router.routes@, pre.path@) {
            fin && is_reject(a, 404, "Service not found"@)
        } else {
            &&& post.route is Some
            &&& is_best_route(router.routes@, pre.path@, post.route->0 as int)
            &&& if needs_auth(rules, pre.path@) {
                post.stage == FlowStage::AwaitAuthentication && a is Authenticate
                    && exists|k: int| #[trigger] is_best_rule(rules.rules.entries@, pre.path@, k)
                        && post.rule == Some(rules.rules.entries@[k].1)
            } else {
                admitted(pre, post, router, a)
            }
        },
        // Authentication answered: a failure or a refused authorisation ends
        // the request; otherwise the caller's presence is recorded.
        (FlowStage::AwaitAuthentication, FlowEvent::Authenticated(Err(e))) => fin && a == FlowAction::Reject(e),
        (FlowStage::AwaitAuthentication, FlowEvent::Authenticated(Ok(ctx))) =>
            match authorization_outcome(pre.rule->0, ctx, pre.path@) {
                Some((s, m)) => fin && is_reject(a, s, m),
                None => post.stage == FlowStage::AwaitPresence && post.auth == Some(ctx) && post.route == pre.route
                    && (a matches FlowAction::RecordPresence { user_id, role } && user_id@ == ctx.user_id@
                        && role@ == presence_role_name(ctx.active_role)),
            },
        (FlowStage::AwaitPresence, FlowEvent::PresenceRecorded) => post.route == pre.route && post.auth == pre.auth
            && admitted(pre, post, router, a),
        // A cache hit is served; a miss goes on to the circuit.
        (FlowStage::AwaitCache, FlowEvent::CacheLookup(Some(body))) => fin && a == FlowAction::ServeCached { body },
        (FlowStage::AwaitCache, FlowEvent::CacheLookup(None)) => post.stage == FlowStage::AwaitCircuit
            && post.route == pre.route && post.auth == pre.auth
            && checks_circuit(a, router.routes@[pre.route->0 as int].service_name@),
        // An open circuit refuses; a closed one lets the request through.
        (FlowStage::AwaitCircuit, FlowEvent::Circuit(open)) => if open {
            fin && is_reject(a, 503, "Service temporarily unavailable"@)
        } else {
            post.stage == FlowStage::AwaitForward && post.route == pre.route && post.auth == pre.auth
                && (a matches FlowAction::Forward { route, max_retries } && route == pre.route->0
                && max_retries == route_retries(router.routes@[route as int]@, router.service_configs.entries@))
        },
        // The forward's outcome is the response.
        (FlowStage::AwaitForward, FlowEvent::Forwarded(Err(s))) => fin && is_reject(a, s, proxy_error_text(s)),
        (FlowStage::AwaitForward, FlowEvent::Forwarded(Ok(s))) => {
            let route = router.routes@[pre.route->0 as int];
            &&& fin
            &&& a matches FlowAction::Respond { status, headers, cache }
            &&& status == s
            &&& added_headers_are(headers@, pre.auth)
            &&& (cache is Some <==> (pre.method@ == "GET"@ && 200 <= s < 300 && route.cache_ttl is Some))
            &&& (cache matches Some((k, ttl)) ==> k@ == cache_key_text(pre.method@, pre.path@) && Some(ttl) == route.cache_ttl)
        },
        _ => fin && is_reject(a, 500, "Internal server error"@),
    }
}

/// `X-User-ID` and, when a role is active, `X-Active-Role`, for an
/// authenticated caller; nothing otherwise.
pub open spec fn added_headers_are(h: Seq<(String, String)>, auth: Option<AuthContext>) -> bool {
    match auth {
        Some(ctx) => h.len() == (if ctx.active_role is Some { 2int } else { 1int })
            && h[0].0@ == "X-User-ID"@ && h[0].1@ == ctx.user_id@
            && (ctx.active_role matches Some(r) ==> h[1].0@ == "X-Active-Role"@ && h[1].1@ == role_name(r)),
        None => h.len() == 0,
    }
}

impl RequestFlow {
    /// A request that has just arrived.
    pub fn new(path: String, method: String, scheme: Option<String>, content_length: Option<String>, origin: Option<String>) -> (f: Self)
        ensures
            f.path == path,
            f.method == method,
            f.scheme == scheme,
            f.content_length == content_length,
            f.origin == origin,
            f.stage == FlowStage::Start,
            f.route is None,
            f.rule is None,
            f.auth is None,
    {
        RequestFlow { path, method, scheme, content_length, origin, stage: FlowStage::Start, route: None, rule: None, auth: None }
    }

    fn finish(&mut self, r: Rejection) -> (a: FlowAction)
        ensures
            final(self).stage == FlowStage::Finished,
            final(self).path == old(self).path,
            final(self).method == old(self).method,
            final(self).route == old(self).route,
            a == FlowAction::Reject(r),
    {
        self.stage = FlowStage::Finished;
        FlowAction::Reject(r)
    }

    /// The caller may use the path under its rule (see
    /// `authorization_outcome`).
    pub fn authorize(rule: &RouteRule, ctx: &AuthContext, path: &str) -> (r: Result<(), Rejection>)
        ensures
            match authorization_outcome(*rule, *ctx, path@) {
                Some((s, m)) => r is Err && rejects(r->Err_0, s, m),
                None => r is Ok,
            },
    {
        let auth = AuthService;
        match rule.required_role {
            Some(role) => {
                match auth.authorize_role(ctx, role) {
                    Err(e) => return Err(e),
                    Ok(()) => {},
                }
                if rule.requires_active_role {
                    match auth.authorize_active_role(ctx, role) {
                        Err(e) => return Err(e),
                        Ok(()) => {},
                    }
                }
            },
            None => {},
        }
        if rule.allow_self_access_only {
            match extract_user_id_from_path(path) {
                Some(owner) => {
                    let res = auth.authorize_resource_access(ctx, owner.as_str());
                    proof {
                        let segs = split_on(path@, '/');
                        let w = choose|i: int| #[trigger] user_id_at(segs, i) && owner@ == segs[i + 1]
                            && forall|j: int| 0 <= j < i ==> !#[trigger] user_id_at(segs, j);
                        let c = choose|i: int| user_id_at(segs, i) && forall|j: int| 0 <= j < i ==> !user_id_at(segs, j);
                        assert(c == w) by {
                            if c < w {
                                assert(!user_id_at(segs, c));
                            } else if w < c {
                                assert(!user_id_at(segs, w));
                            }
                        }
                    }
                    return res;
                },
                None => {},
            }
        }
        Ok(())
    }

    /// After the caller was admitted: look the cache up for a cacheable
    /// `GET`, else check the service's circuit.
    fn after_admission(&mut self, router: &Router) -> (a: FlowAction)
        requires
            old(self).route is Some,
            old(self).route->0 < router.routes@.len(),
        ensures
            final(self).path == old(self).path,
            final(self).method == old(self).method,
            final(self).route == old(self).route,
            final(self).auth == old(self).auth,
            final(self).rule == old(self).rule,
            admitted(*old(self), *final(self), *router, a),
    {
        let i = self.route.unwrap();
        let route = &router.routes[i];
        if router.should_cache_route(route, self.method.as_str()) {
            self.stage = FlowStage::AwaitCache;
            let a = join3("gateway_cache:", self.method.as_str(), ":");
            FlowAction::LookupCache { key: join2(a.as_str(), self.path.as_str()) }
        } else {
            self.stage = FlowStage::AwaitCircuit;
            FlowAction::CheckCircuit { service: own(route.service_name.as_str()) }
        }
    }

    /// The next action, given the outcome of the last one (see
    /// `flow_step`). An event that does not belong to the current stage ends
    /// the request with a 500.
    pub fn step(&mut self, router: &Router, rules: &RouteAuthRules, security: &SecurityConfig, event: FlowEvent) -> (a: FlowAction)
        requires
            flow_ok(*old(self), *router),
        ensures
            flow_ok(*final(self), *router),
            final(self).path == old(self).path,
            final(self).method == old(self).method,
            flow_step(*old(self), *final(self), *router, *rules, *security, event, a),
    {
        match self.stage {
            FlowStage::Start => match event {
                FlowEvent::Begin => {
                    let sec = security_middleware(security, opt_str(&self.scheme), opt_str(&self.content_length), opt_str(&self.origin));
                    match sec {
                        Err(r) => self.finish(r),
                        Ok(()) => {
                            self.stage = FlowStage::AwaitRateLimit;
                            FlowAction::CheckRateLimit
                        },
                    }
                },
                _ => self.finish(Rejection::new(500, "Internal server error")),
            },
            FlowStage::AwaitRateLimit => match event {
                FlowEvent::RateLimit(c) => {
                    match rate_limit_outcome(c) {
                        Err(r) => return self.finish(r),
                        Ok(()) => {},
                    }
                    let found = router.find_route(self.path.as_str());
                    if found.is_none() {
                        return self.finish(Rejection::new(404, "Service not found"));
                    }
                    let i = Self::route_index(router, self.path.as_str());
                    self.route = Some(i);
                    match rules.get_rule_for_path(self.path.as_str()) {
                        Some(rule) => {
                            if rule.requires_auth {
                                self.rule = Some(*rule);
                                self.stage = FlowStage::AwaitAuthentication;
                                return FlowAction::Authenticate;
                            }
                            proof {
                                let k = choose|k: int| #[trigger] is_best_rule(rules.rules.entries@, self.path@, k) && *rule == rules.rules.entries@[k].1;
                                assert forall|j: int| #[trigger] is_best_rule(rules.rules.entries@, self.path@, j) implies !rules.rules.entries@[j].1.requires_auth by {
                                    crate::gateway::auth::lemma_best_rule_unique(rules.rules.entries@, self.path@, k, j);
                                }
                            }
                        },
                        None => {
                            assert forall|j: int| !#[trigger] is_best_rule(rules.rules.entries@, self.path@, j) by {}
                        },
                    }
                    self.after_admission(router)
                },
                _ => self.finish(Rejection::new(500, "Internal server error")),
            },
            FlowStage::AwaitAuthentication => match event {
                FlowEvent::Authenticated(Err(e)) => self.finish(e),
                FlowEvent::Authenticated(Ok(ctx)) => {
                    let rule = self.rule.unwrap();
                    match Self::authorize(&rule, &ctx, self.path.as_str()) {
                        Err(r) => self.finish(r),
                        Ok(()) => {
                            let user_id = own(ctx.user_id.as_str());
                            let role = own(ctx.presence_role());
                            self.auth = Some(ctx);
                            self.stage = FlowStage::AwaitPresence;
                            FlowAction::RecordPresence { user_id, role }
                        },
                    }
                },
                _ => self.finish(Rejection::new(500, "Internal server error")),
            },
            FlowStage::AwaitPresence => match event {
                FlowEvent::PresenceRecorded => {
                    if self.route.is_none() {
                        return self.finish(Rejection::new(500, "Internal server error"));
                    }
                    self.after_admission(router)
                },
                _ => self.finish(Rejection::new(500, "Internal server error")),
            },
            FlowStage::AwaitCache => match event {
                FlowEvent::CacheLookup(Some(body)) => {
                    self.stage = FlowStage::Finished;
                    FlowAction::ServeCached { body }
                },
                FlowEvent::CacheLookup(None) => {
                    match self.route {
                        Some(i) => {
                            self.stage = FlowStage::AwaitCircuit;
                            FlowAction::CheckCircuit { service: own(router.routes[i].service_name.as_str()) }
                        },
                        None => self.finish(Rejection::new(500, "Internal server error")),
                    }
                },
                _ => self.finish(Rejection::new(500, "Internal server error")),
            },
            FlowStage::AwaitCircuit => match event {
                FlowEvent::Circuit(true) => self.finish(Rejection::new(503, "Service temporarily unavailable")),
                FlowEvent::Circuit(false) => {
                    match self.route {
                        Some(i) => {
                            self.stage = FlowStage::AwaitForward;
                            FlowAction::Forward { route: i, max_retries: router.get_retry_attempts(&router.routes[i]) }
                        },
                        None => self.finish(Rejection::new(500, "Internal server error")),
                    }
                },
                _ => self.finish(Rejection::new(500, "Internal server error")),
            },
            FlowStage::AwaitForward => match event {
                FlowEvent::Forwarded(Err(s)) => self.finish(Rejection::new(s, proxy_error_message(s))),
                FlowEvent::Forwarded(Ok(s)) => {
                    match self.route {
                        Some(i) => {
                            self.stage = FlowStage::Finished;
                            let headers = self.added_headers();
                            let route = &router.routes[i];
                            let cache = if 200 <= s && s < 300 && router.should_cache_route(route, self.method.as_str()) {
                                let a = join3("gateway_cache:", self.method.as_str(), ":");
                                Some((join2(a.as_str(), self.path.as_str()), route.cache_ttl.unwrap()))
                            } else {
                                None
                            };
                            FlowAction::Respond { status: s, headers, cache }
                        },
                        None => self.finish(Rejection::new(500, "Internal server error")),
                    }
                },
                _ => self.finish(Rejection::new(500, "Internal server error")),
            },
            FlowStage::Finished => self.finish(Rejection::new(500, "Internal server error")),
        }
    }

    /// The index of the best route for `path`, which has one.
    fn route_index(router: &Router, path: &str) -> (i: usize)
        requires
            !no_route(router.routes@, path@),
        ensures
            i < router.routes@.len(),
            is_best_route(router.routes@, path@, i as int),
    {
        let mut best: Option<usize> = None;
        let mut best_len: usize = 0;
        let mut i: usize = 0;
        while i < router.routes.len()
            invariant
                i <= router.routes@.len(),
                !no_route(router.routes@, path@),
                forall|j: int| 0 <= j < i && crate::text::seq_starts_with(path@, #[trigger] router.routes@[j].path_prefix@)
                    ==> router.routes@[j].path_prefix@.len() <= best_len,
                match best {
                    Some(b) => b < i && crate::text::seq_starts_with(path@, router.routes@[b as int].path_prefix@)
                        && best_len == router.routes@[b as int].path_prefix@.len() && best_len > 0
                        && forall|j: int| 0 <= j < b && crate::text::seq_starts_with(path@, #[trigger] router.routes@[j].path_prefix@)
                            ==> router.routes@[j].path_prefix@.len() < best_len,
                    None => best_len == 0,
                },
            decreases router.routes.len() - i,
        {
            let n = crate::text::chars_of(router.routes[i].path_prefix.as_str()).len();
            if crate::text::starts_with(path, router.routes[i].path_prefix.as_str()) && n > best_len {
                best = Some(i);
                best_len = n;
            }
            i = i + 1;
        }
        match best {
            Some(b) => b,
            None => {
                assert(false);
                0
            },
        }
    }

    /// `X-User-ID` and, when a role is active, `X-Active-Role`, for an
    /// authenticated caller.
    fn added_headers(&self) -> (h: Vec<(String, String)>)
        ensures
            added_headers_are(h@, self.auth),
    {
        let mut h: Vec<(String, String)> = Vec::new();
        match &self.auth {
            Some(ctx) => {
                h.push((own("X-User-ID"), own(ctx.user_id.as_str())));
                match ctx.active_role {
                    Some(r) => h.push((own("X-Active-Role"), own(r.name()))),
                    None => {},
                }
            },
            None => {},
        }
        h
    }
}

/// Whether a forward that failed with `status` on attempt `attempt`
/// (counted from 0) is tried again: not after a client error, never for the
/// payment service, and at most `max_retries` times.
pub open spec fn retries_after(attempt: u32, max_retries: u32, status: u16, service: Seq<char>) -> bool {
    !(400 <= status < 500) && service != "payment"@ && attempt < max_retries
}

/// Whether to forward again after a failure.
pub fn should_retry(attempt: u32, max_retries: u32, status: u16, service: &str) -> (b: bool)
    ensures
        b == retries_after(attempt, max_retries, status, service@),
        400 <= status < 500 ==> !b,
        b ==> attempt < max_retries && service@ != "payment"@ && !(400 <= status < 500),
{
    if 400 <= status && status < 500 {
        return false;
    }
    if str_eq(service, "payment") {
        return false;
    }
    attempt < max_retries
}

/// A client error (4xx) is never retried, whatever the attempt, the retry
/// limit and the service; the payment service is never retried; no retry
/// goes past the limit; any other failure below the limit is retried.
pub proof fn law_client_errors_not_retried(attempt: u32, max_retries: u32, status: u16, service: Seq<char>)
    ensures
        400 <= status < 500 ==> !retries_after(attempt, max_retries, status, service),
        service == "payment"@ ==> !retries_after(attempt, max_retries, status, service),
        attempt >= max_retries ==> !retries_after(attempt, max_retries, status, service),
        !(400 <= status < 500) && service != "payment"@ && attempt < max_retries ==> retries_after(attempt, max_retries, status, service),
{
}

/// Each further retry waits twice as long as the one before.
pub proof fn law_backoff_doubles(attempt: nat)
    ensures
        100 * vstd::arithmetic::power2::pow2(attempt + 1) == 2 * (100 * vstd::arithmetic::power2::pow2(attempt)),
{
    vstd::arithmetic::power2::lemma_pow2_unfold(attempt + 1);
}

/// The wait before attempt `attempt` (counted from 0): 100 ms doubled per
/// attempt.
pub fn backoff_delay_ms(attempt: u32) -> (ms: u64)
    requires
        1 <= attempt <= 57,
    ensures
        ms == 100 * vstd::arithmetic::power2::pow2(attempt as nat),
{
    let mut p: u64 = 1;
    let mut k: u32 = 0;
    proof {
        vstd::arithmetic::power2::lemma2_to64();
    }
    while k < attempt
        invariant
            k <= attempt <= 57,
            p == vstd::arithmetic::power2::pow2(k as nat),
        decreases attempt - k,
    {
        proof {
            vstd::arithmetic::power2::lemma_pow2_unfold((k + 1) as nat);
            if k + 1 < 57 {
                vstd::arithmetic::power2::lemma_pow2_strictly_increases((k + 1) as nat, 57);
            }
            vstd::arithmetic::power2::lemma2_to64_rest();
        }
        p = p * 2;
        k = k + 1;
    }
    proof {
        if attempt < 57 {
            vstd::arithmetic::power2::lemma_pow2_strictly_increases(attempt as nat, 57);
        }
        vstd::arithmetic::power2::lemma2_to64_rest();
    }
    100 * p
}

} // verus!
