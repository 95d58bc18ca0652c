//! Who may call what: bearer-token extraction, role and ownership checks,
//! and the per-path authentication rules.
use vstd::prelude::*;
use crate::common::{UserRole, role_name};
use crate::gateway::reply::{Rejection, rejects};
use crate::gateway::router::{RouteMatcher, uuid_like};
use crate::table::Table;
use crate::text::{seq_starts_with, split_on, starts_with, str_eq, chars_of, string_of_range, own, join2, join3, split_char};

verus! {

/// The authenticated caller of a request.
pub struct AuthContext {
    pub user_id: String,
    pub username: String,
    pub email: String,
    pub roles: Vec<UserRole>,
    pub active_role: Option<UserRole>,
    pub session_valid: bool,
}

/// What a path asks of its callers.
#[derive(PartialEq, Eq, Structural, Clone, Copy, Debug)]
pub struct RouteRule {
    pub requires_auth: bool,
    pub required_role: Option<UserRole>,
    pub requires_active_role: bool,
    pub allow_self_access_only: bool,
}

/// The authentication rules, keyed by path prefix.
pub struct RouteAuthRules {
    pub rules: Table<RouteRule>,
}

/// The gateway's authorisation checks.
pub struct AuthService;

pub open spec fn rule(requires_auth: bool, required_role: Option<UserRole>, requires_active_role: bool, allow_self_access_only: bool) -> RouteRule {
    RouteRule { requires_auth, required_role, requires_active_role, allow_self_access_only }
}

/// The gateway's rules: three public paths, the rest behind authentication,
/// mentor and mentee profiles for their own role only, user search for
/// administrators.
pub open spec fn default_auth_rules() -> Seq<(Seq<char>, RouteRule)> {
    seq![
        ("/health"@, rule(false, None, false, false)),
        ("/auth/register"@, rule(false, None, false, false)),
        ("/auth/login"@, rule(false, None, false, false)),
        ("/auth/logout"@, rule(true, None, false, false)),
        ("/auth/me"@, rule(true, None, false, true)),
        ("/profiles"@, rule(true, None, false, true)),
        ("/mentor-profiles"@, rule(true, Some(UserRole::Mentor), true, true)),
        ("/mentee-profiles"@, rule(true, Some(UserRole::Mentee), true, true)),
        ("/payment-methods"@, rule(true, None, false, true)),
        ("/chat"@, rule(true, None, false, false)),
        ("/video"@, rule(true, None, false, false)),
        ("/meetings"@, rule(true, None, false, false)),
        ("/payments"@, rule(true, None, false, false)),
        ("/users/search"@, rule(true, Some(UserRole::Admin), false, false)),
    ]
}

/// Entry `i` holds the longest non-empty key that is a prefix of `path`,
/// and no earlier entry has a key that long.
pub open spec fn is_best_rule(e: Seq<(String, RouteRule)>, path: Seq<char>, i: int) -> bool {
    &&& 0 <= i < e.len()
    &&& seq_starts_with(path, e[i].0@)
    &&& e[i].0@.len() > 0
    &&& forall|j: int| 0 <= j < e.len() && seq_starts_with(path, #[trigger] e[j].0@) ==> e[j].0@.len() <= e[i].0@.len()
    &&& forall|j: int| 0 <= j < i && seq_starts_with(path, #[trigger] e[j].0@) ==> e[j].0@.len() < e[i].0@.len()
}

/// No non-empty key is a prefix of `path`.
pub open spec fn no_rule(e: Seq<(String, RouteRule)>, path: Seq<char>) -> bool {
    forall|j: int| 0 <= j < e.len() && seq_starts_with(path, #[trigger] e[j].0@) ==> e[j].0@.len() == 0
}

/// Path segments that name the owner of what follows them.
pub open spec fn owner_segment(s: Seq<char>) -> bool {
    s == "users"@ || s == "profiles"@ || s == "mentor-profiles"@ || s == "mentee-profiles"@
}

/// Segment `i` names an owner and is followed by an identifier.
pub open spec fn user_id_at(segs: Seq<Seq<char>>, i: int) -> bool {
    0 <= i && i + 1 < segs.len() && owner_segment(segs[i]) && uuid_like(segs[i + 1])
}

/// The bearer token of an `Authorization` header, or why there is none.
pub open spec fn bearer_outcome(header: Option<Seq<char>>) -> Result<Seq<char>, (u16, Seq<char>)> {
    match header {
        None => Err((401, "Missing Authorization header"@)),
        Some(h) => if !seq_starts_with(h, "Bearer "@) {
            Err((401, "Invalid Authorization header format"@))
        } else if h.len() == 7 {
            Err((401, "Empty JWT token"@))
        } else {
            Ok(h.subrange(7, h.len() as int))
        },
    }
}

/// A header `Bearer <t>` with a non-empty `t` yields exactly `t`; a header
/// with nothing after `Bearer ` is refused as empty; a header that does not
/// start with `Bearer ` is refused as malformed.
pub proof fn law_bearer_token_is_the_rest(t: Seq<char>, h: Seq<char>)
    ensures
        t.len() > 0 ==> bearer_outcome(Some("Bearer "@ + t)) == Ok::<Seq<char>, (u16, Seq<char>)>(t),
        bearer_outcome(Some("Bearer "@)) == Err::<Seq<char>, (u16, Seq<char>)>((401u16, "Empty JWT token"@)),
        !seq_starts_with(h, "Bearer "@) ==> bearer_outcome(Some(h)) == Err::<Seq<char>, (u16, Seq<char>)>((401u16, "Invalid Authorization header format"@)),
        bearer_outcome(Some(h)) matches Ok(u) ==> h == "Bearer "@ + u,
{
    reveal_strlit("Bearer ");
    let b = "Bearer "@;
    assert((b + t).subrange(0, 7) =~= b);
    assert((b + t).subrange(7, (b + t).len() as int) =~= t);
    assert(b.subrange(0, 7) =~= b);
    if bearer_outcome(Some(h)) is Ok {
        assert(h =~= b + h.subrange(7, h.len() as int));
    }
}

impl RouteAuthRules {
    /// The gateway's rules (see `default_auth_rules`).
    pub fn new() -> (r: Self)
        ensures
            r.rules.entries@.len() == default_auth_rules().len(),
            forall|i: int| 0 <= i < r.rules.entries@.len() ==> (#[trigger] r.rules.entries@[i]).0@ == default_auth_rules()[i].0
                && r.rules.entries@[i].1 == default_auth_rules()[i].1,
    {
        let mut v: Vec<(String, RouteRule)> = Vec::new();
        v.push((own("/health"), RouteRule { requires_auth: false, required_role: None, requires_active_role: false, allow_self_access_only: false }));
        v.push((own("/auth/register"), RouteRule { requires_auth: false, required_role: None, requires_active_role: false, allow_self_access_only: false }));
        v.push((own("/auth/login"), RouteRule { requires_auth: false, required_role: None, requires_active_role: false, allow_self_access_only: false }));
        v.push((own("/auth/logout"), RouteRule { requires_auth: true, required_role: None, requires_active_role: false, allow_self_access_only: false }));
        v.push((own("/auth/me"), RouteRule { requires_auth: true, required_role: None, requires_active_role: false, allow_self_access_only: true }));
        v.push((own("/profiles"), RouteRule { requires_auth: true, required_role: None, requires_active_role: false, allow_self_access_only: true }));
        v.push((own("/mentor-profiles"), RouteRule { requires_auth: true, required_role: Some(UserRole::Mentor), requires_active_role: true, allow_self_access_only: true }));
        v.push((own("/mentee-profiles"), RouteRule { requires_auth: true, required_role: Some(UserRole::Mentee), requires_active_role: true, allow_self_access_only: true }));
        v.push((own("/payment-methods"), RouteRule { requires_auth: true, required_role: None, requires_active_role: false, allow_self_access_only: true }));
        v.push((own("/chat"), RouteRule { requires_auth: true, required_role: None, requires_active_role: false, allow_self_access_only: false }));
        v.push((own("/video"), RouteRule { requires_auth: true, required_role: None, requires_active_role: false, allow_self_access_only: false }));
        v.push((own("/meetings"), RouteRule { requires_auth: true, required_role: None, requires_active_role: false, allow_self_access_only: false }));
        v.push((own("/payments"), RouteRule { requires_auth: true, required_role: None, requires_active_role: false, allow_self_access_only: false }));
        v.push((own("/users/search"), RouteRule { requires_auth: true, required_role: Some(UserRole::Admin), requires_active_role: false, allow_self_access_only: false }));
        RouteAuthRules { rules: Table { entries: v } }
    }

    /// The rule of the longest key that is a prefix of `path`.
    pub fn get_rule_for_path(&self, path: &str) -> (r: Option<&RouteRule>)
        ensures
            match r {
                Some(found) => exists|i: int| #[trigger] is_best_rule(self.rules.entries@, path@, i) && *found == self.rules.entries@[i].1,
                None => no_rule(self.rules.entries@, path@),
            },
    {
        let e = &self.rules.entries;
        let mut best: Option<usize> = None;
        let mut best_len: usize = 0;
        let mut i: usize = 0;
        while i < e.len()
            invariant
                i <= e@.len(),
                forall|j: int| 0 <= j < i && seq_starts_with(path@, #[trigger] e@[j].0@) ==> e@[j].0@.len() <= best_len,
                match best {
                    Some(b) => b < i && seq_starts_with(path@, e@[b as int].0@) && best_len == e@[b as int].0@.len()
                        && best_len > 0 && forall|j: int| 0 <= j < b && seq_starts_with(path@, #[trigger] e@[j].0@)
                            ==> e@[j].0@.len() < best_len,
                    None => best_len == 0,
                },
            decreases e.len() - i,
        {
            let n = chars_of(e[i].0.as_str()).len();
            if starts_with(path, e[i].0.as_str()) && n > best_len {
                best = Some(i);
                best_len = n;
            }
            i = i + 1;
        }
        match best {
            Some(b) => {
                assert(is_best_rule(e@, path@, b as int));
                Some(&e[b].1)
            },
            None => None,
        }
    }

    /// A path is public when its rule does not require authentication; a
    /// path without a rule is not public.
    pub fn is_public_route(&self, path: &str) -> (b: bool)
        ensures
            b == exists|i: int| #[trigger] is_best_rule(self.rules.entries@, path@, i) && !self.rules.entries@[i].1.requires_auth,
    {
        match self.get_rule_for_path(path) {
            Some(found) => {
                proof {
                    let i = choose|i: int| #[trigger] is_best_rule(self.rules.entries@, path@, i) && *found == self.rules.entries@[i].1;
                    assert forall|j: int| #[trigger] is_best_rule(self.rules.entries@, path@, j) implies j == i by {
                        lemma_best_rule_unique(self.rules.entries@, path@, i, j);
                    }
                }
                !found.requires_auth
            },
            None => false,
        }
    }
}

/// At most one entry is the best rule for a path.
pub proof fn lemma_best_rule_unique(e: Seq<(String, RouteRule)>, path: Seq<char>, i: int, j: int)
    requires
        is_best_rule(e, path, i),
        is_best_rule(e, path, j),
    ensures
        i == j,
{
    if i < j {
        assert(seq_starts_with(path, e[i].0@));
    } else if j < i {
        assert(seq_starts_with(path, e[j].0@));
    }
}

impl AuthContext {
    /// The context of a caller whose token and session were accepted.
    pub fn from_claims(sub: &str, username: &str, email: &str, roles: Vec<UserRole>, active_role: Option<UserRole>) -> (c: Self)
        ensures
            c.user_id@ == sub@,
            c.username@ == username@,
            c.email@ == email@,
            c.roles == roles,
            c.active_role == active_role,
            c.session_valid,
    {
        AuthContext {
            user_id: own(sub),
            username: own(username),
            email: own(email),
            roles,
            active_role,
            session_valid: true,
        }
    }

    /// Whether the caller holds `role`.
    pub fn has_role(&self, role: UserRole) -> (b: bool)
        ensures
            b == self.roles@.contains(role),
    {
        let mut i: usize = 0;
        while i < self.roles.len()
            invariant
                i <= self.roles@.len(),
                forall|k: int| 0 <= k < i ==> self.roles@[k] != role,
            decreases self.roles.len() - i,
        {
            if self.roles[i] == role {
                assert(self.roles@[i as int] == role);
                return true;
            }
            i = i + 1;
        }
        false
    }

    /// The caller's active role as presence records it: `mentor`, `mentee`,
    /// `admin`, or `unknown` when none is active.
    pub fn presence_role(&self) -> (s: &'static str)
        ensures
            s@ == presence_role_name(self.active_role),
    {
        match self.active_role {
            Some(UserRole::Mentor) => "mentor",
            Some(UserRole::Mentee) => "mentee",
            Some(UserRole::Admin) => "admin",
            None => "unknown",
        }
    }
}

/// The name presence records for an active role: `mentor`, `mentee`,
/// `admin`, or `unknown` when none is active.
pub open spec fn presence_role_name(r: Option<UserRole>) -> Seq<char> {
    match r {
        Some(UserRole::Mentor) => "mentor"@,
        Some(UserRole::Mentee) => "mentee"@,
        Some(UserRole::Admin) => "admin"@,
        None => "unknown"@,
    }
}

impl AuthService {
    /// The bearer token of the `Authorization` header (its text, when it is
    /// present and readable).
    pub fn extract_jwt_token(&self, authorization: Option<&str>) -> (r: Result<String, Rejection>)
        ensures
            match bearer_outcome(match authorization { Some(h) => Some(h@), None => None }) {
                Ok(t) => r is Ok && r->Ok_0@ == t,
                Err((s, m)) => r is Err && rejects(r->Err_0, s, m),
            },
            r is Ok ==> (authorization matches Some(h) && h@ == "Bearer "@ + r->Ok_0@ && r->Ok_0@.len() > 0),
    {
        match authorization {
            None => Err(Rejection::new(401, "Missing Authorization header")),
            Some(h) => {
                if !starts_with(h, "Bearer ") {
                    return Err(Rejection::new(401, "Invalid Authorization header format"));
                }
                let cs = chars_of(h);
                proof {
                    reveal_strlit("Bearer ");
                }
                if cs.len() == 7 {
                    return Err(Rejection::new(401, "Empty JWT token"));
                }
                Ok(string_of_range(&cs, 7, cs.len()))
            },
        }
    }

    /// The outcome of looking the caller's session up: refused when the
    /// lookup failed or found nothing.
    pub fn validate_session(&self, session_lookup: Result<bool, ()>) -> (r: Result<(), Rejection>)
        ensures
            match session_lookup {
                Err(_) => r is Err && rejects(r->Err_0, 500, "Session validation failed"@),
                Ok(false) => r is Err && rejects(r->Err_0, 401, "Session expired or invalid"@),
                Ok(true) => r is Ok,
            },
    {
        match session_lookup {
            Err(_) => Err(Rejection::new(500, "Session validation failed")),
            Ok(false) => Err(Rejection::new(401, "Session expired or invalid")),
            Ok(true) => Ok(()),
        }
    }

    /// The key under which a user's ban is cached: `user_ban:<id>`.
    pub fn ban_key(&self, user_id: &str) -> (k: String)
        ensures
            k@ == "user_ban:"@ + user_id@,
    {
        join2("user_ban:", user_id)
    }

    /// Refuses a banned caller; a failed or empty lookup counts as not banned.
    pub fn check_user_status(&self, ban_lookup: Result<Option<bool>, ()>) -> (r: Result<(), Rejection>)
        ensures
            match ban_lookup {
                Ok(Some(true)) => r is Err && rejects(r->Err_0, 403, "User account is suspended"@),
                _ => r is Ok,
            },
    {
        match ban_lookup {
            Ok(Some(true)) => Err(Rejection::new(403, "User account is suspended")),
            _ => Ok(()),
        }
    }

    /// Refuses a caller without `required_role`.
    pub fn authorize_role(&self, auth_context: &AuthContext, required_role: UserRole) -> (r: Result<(), Rejection>)
        ensures
            auth_context.roles@.contains(required_role) ==> r is Ok,
            !auth_context.roles@.contains(required_role) ==> r is Err
                && rejects(r->Err_0, 403, "Role "@ + role_name(required_role) + " required"@),
    {
        if !auth_context.has_role(required_role) {
            return Err(Rejection { status: 403, message: join3("Role ", required_role.name(), " required") });
        }
        Ok(())
    }

    /// Refuses a caller whose active role is not `required_role`.
    pub fn authorize_active_role(&self, auth_context: &AuthContext, required_role: UserRole) -> (r: Result<(), Rejection>)
        ensures
            match auth_context.active_role {
                Some(a) => if a == required_role {
                    r is Ok
                } else {
                    r is Err && rejects(r->Err_0, 403, "Active role must be "@ + role_name(required_role) + ", current: "@ + role_name(a))
                },
                None => r is Err && rejects(r->Err_0, 403, "No active role set, "@ + role_name(required_role) + " required"@),
            },
    {
        match auth_context.active_role {
            Some(a) => {
                if a == required_role {
                    Ok(())
                } else {
                    let m = join3("Active role must be ", required_role.name(), ", current: ");
                    Err(Rejection { status: 403, message: join2(m.as_str(), a.name()) })
                }
            },
            None => Err(Rejection { status: 403, message: join3("No active role set, ", required_role.name(), " required") }),
        }
    }

    /// Administrators reach every resource; others only their own.
    pub fn authorize_resource_access(&self, auth_context: &AuthContext, resource_user_id: &str) -> (r: Result<(), Rejection>)
        ensures
            (auth_context.roles@.contains(UserRole::Admin) || auth_context.user_id@ == resource_user_id@) ==> r is Ok,
            !(auth_context.roles@.contains(UserRole::Admin) || auth_context.user_id@ == resource_user_id@) ==> r is Err
                && rejects(r->Err_0, 403, "Access denied to this resource"@),
    {
        if auth_context.has_role(UserRole::Admin) {
            return Ok(());
        }
        if str_eq(auth_context.user_id.as_str(), resource_user_id) {
            return Ok(());
        }
        Err(Rejection::new(403, "Access denied to this resource"))
    }
}

/// The identifier that follows the first `users`, `profiles`,
/// `mentor-profiles` or `mentee-profiles` segment of `path` and looks like an
/// identifier.
pub fn extract_user_id_from_path(path: &str) -> (r: Option<String>)
    ensures
        match r {
            Some(id) => exists|i: int| #[trigger] user_id_at(split_on(path@, '/'), i)
                && id@ == split_on(path@, '/')[i + 1]
                && forall|j: int| 0 <= j < i ==> !#[trigger] user_id_at(split_on(path@, '/'), j),
            None => forall|i: int| !#[trigger] user_id_at(split_on(path@, '/'), i),
        },
{
    let segments = split_char(path, '/');
    let ghost segs = split_on(path@, '/');
    let mut i: usize = 0;
    while i < segments.len()
        invariant
            i <= segments@.len(),
            segs == split_on(path@, '/'),
            segments@.len() == segs.len(),
            forall|k: int| 0 <= k < segs.len() ==> #[trigger] segments@[k]@ == segs[k],
            forall|j: int| 0 <= j < i ==> !#[trigger] user_id_at(segs, j),
        decreases segments.len() - i,
    {
        let s = segments[i].as_str();
        if str_eq(s, "users") || str_eq(s, "profiles") || str_eq(s, "mentor-profiles") || str_eq(s, "mentee-profiles") {
            if i + 1 < segments.len() {
                let candidate = segments[i + 1].as_str();
                assert(segments@[i + 1]@ == segs[i + 1]);
                if RouteMatcher::is_valid_uuid(candidate) {
                    assert(user_id_at(segs, i as int));
                    return Some(own(candidate));
                }
            }
        }
        assert(!user_id_at(segs, i as int));
        i = i + 1;
    }
    assert forall|j: int| !#[trigger] user_id_at(segs, j) by {
        if 0 <= j && j + 1 < segs.len() {
            assert(j < i);
        }
    }
    None
}

} // verus!
