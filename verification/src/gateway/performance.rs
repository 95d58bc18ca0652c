//! Performance helpers: request counters, adaptive timeouts, response
//! compression and caching rules, request batching, and the choice of the
//! fastest instance.
use vstd::prelude::*;
use crate::table::{Table, table_lookup};
use crate::text::{join2, own, push_signed_decimal, seq_contains, seq_starts_with, signed_decimal, contains, starts_with, str_eq};

verus! {

/// The request counters of one service.
#[derive(PartialEq, Eq, Structural, Clone, Copy, Debug)]
pub struct ServicePerformanceCounters {
    pub requests: u64,
    pub errors: u64,
    pub total_response_time_ms: u64,
}

/// The gateway's request counters, in all and per service. (Averages and
/// rates are floating-point figures and are derived from these.)
pub struct PerformanceCounters {
    pub total_requests: u64,
    pub total_response_time_ms: u64,
    pub service_metrics: Table<ServicePerformanceCounters>,
}

/// The counters of a service before its first request.
pub open spec fn no_requests() -> ServicePerformanceCounters {
    ServicePerformanceCounters { requests: 0, errors: 0, total_response_time_ms: 0 }
}

/// The counters of a service after one more request.
pub open spec fn counted(c: ServicePerformanceCounters, response_time_ms: u64, is_error: bool) -> ServicePerformanceCounters {
    ServicePerformanceCounters {
        requests: (c.requests + 1) as u64,
        errors: (c.errors + if is_error { 1int } else { 0 }) as u64,
        total_response_time_ms: (c.total_response_time_ms + response_time_ms) as u64,
    }
}

/// The counters of a service as recorded so far.
pub open spec fn service_counters(p: PerformanceCounters, name: Seq<char>) -> ServicePerformanceCounters {
    match table_lookup(p.service_metrics.entries@, name) {
        Some(c) => c,
        None => no_requests(),
    }
}

/// One more request of `response_time_ms` fits in every counter.
pub open spec fn request_fits(p: PerformanceCounters, name: Seq<char>, response_time_ms: u64) -> bool {
    let c = service_counters(p, name);
    &&& p.total_requests < u64::MAX
    &&& p.total_response_time_ms + response_time_ms <= u64::MAX
    &&& c.requests < u64::MAX
    &&& c.errors < u64::MAX
    &&& c.total_response_time_ms + response_time_ms <= u64::MAX
}

impl PerformanceCounters {
    /// No request yet.
    pub fn new() -> (p: Self)
        ensures
            p.total_requests == 0,
            p.total_response_time_ms == 0,
            p.service_metrics.entries@.len() == 0,
    {
        PerformanceCounters { total_requests: 0, total_response_time_ms: 0, service_metrics: Table::new() }
    }

    /// Counts a request to a service, its response time and whether it failed.
    pub fn record_request(&mut self, service_name: &str, response_time_ms: u64, is_error: bool)
        requires
            request_fits(*old(self), service_name@, response_time_ms),
        ensures
            final(self).total_requests == old(self).total_requests + 1,
            final(self).total_response_time_ms == old(self).total_response_time_ms + response_time_ms,
            table_lookup(final(self).service_metrics.entries@, service_name@)
                == Some(counted(service_counters(*old(self), service_name@), response_time_ms, is_error)),
            forall|q: Seq<char>| q != service_name@ ==>
                #[trigger] table_lookup(final(self).service_metrics.entries@, q) == table_lookup(old(self).service_metrics.entries@, q),
    {
        self.total_requests = self.total_requests + 1;
        self.total_response_time_ms = self.total_response_time_ms + response_time_ms;
        let c = match self.service_metrics.get(service_name) {
            Some(c) => *c,
            None => ServicePerformanceCounters { requests: 0, errors: 0, total_response_time_ms: 0 },
        };
        let next = ServicePerformanceCounters {
            requests: c.requests + 1,
            errors: if is_error { c.errors + 1 } else { c.errors },
            total_response_time_ms: c.total_response_time_ms + response_time_ms,
        };
        self.service_metrics.insert(service_name, next);
    }
}

/// The timeout for a service: three times its mean response time, kept
/// between 5 s and 2 min; 30 s for a service without measurements.
/// (`base_ms` is the tripled mean, a floating-point figure truncated to
/// whole milliseconds by the caller.)
pub fn adaptive_timeout_ms(base_ms: Option<u64>) -> (t: u64)
    ensures
        t == match base_ms {
            Some(b) => if b < 5000 { 5000 } else if b > 120000 { 120000 } else { b },
            None => 30000,
        },
{
    match base_ms {
        Some(b) => {
            if b < 5000 {
                5000
            } else if b > 120000 {
                120000
            } else {
                b
            }
        },
        None => 30000,
    }
}

/// The content types worth compressing.
pub open spec fn compressible(ct: Seq<char>) -> bool {
    ||| seq_starts_with(ct, "application/json"@)
    ||| seq_starts_with(ct, "application/javascript"@)
    ||| seq_starts_with(ct, "text/html"@)
    ||| seq_starts_with(ct, "text/css"@)
    ||| seq_starts_with(ct, "text/plain"@)
    ||| seq_starts_with(ct, "text/xml"@)
    ||| seq_starts_with(ct, "application/xml"@)
}

/// Response compression.
pub struct CompressionHandler;

impl CompressionHandler {
    /// A response is compressed when the client accepts gzip (its
    /// `Accept-Encoding` mentions it) and its content type is compressible.
    pub fn should_compress(accept_encoding: Option<&str>, content_type: Option<&str>) -> (b: bool)
        ensures
            b == (match (accept_encoding, content_type) {
                (Some(a), Some(ct)) => seq_contains(a@, "gzip"@) && compressible(ct@),
                _ => false,
            }),
    {
        let accepts = match accept_encoding {
            Some(a) => contains(a, "gzip"),
            None => false,
        };
        if !accepts {
            return false;
        }
        match content_type {
            Some(ct) => starts_with(ct, "application/json") || starts_with(ct, "application/javascript")
                || starts_with(ct, "text/html") || starts_with(ct, "text/css") || starts_with(ct, "text/plain")
                || starts_with(ct, "text/xml") || starts_with(ct, "application/xml"),
            None => false,
        }
    }

    /// The headers of a compressed response.
    pub fn compression_headers() -> (h: Vec<(String, String)>)
        ensures
            h@.len() == 2,
            h@[0].0@ == "content-encoding"@ && h@[0].1@ == "gzip"@,
            h@[1].0@ == "vary"@ && h@[1].1@ == "Accept-Encoding"@,
    {
        let mut h: Vec<(String, String)> = Vec::new();
        h.push((own("content-encoding"), own("gzip")));
        h.push((own("vary"), own("Accept-Encoding")));
        h
    }
}

/// A response kept in the cache.
pub struct CachedResponse {
    pub status_code: u16,
    pub headers: Vec<(String, String)>,
    pub body: Vec<u8>,
    pub cached_at: i64,
}

/// The cache key of a request: method and path, the query after `?`, and
/// the user after `:user:` for a signed-in user.
pub open spec fn cache_key(method: Seq<char>, path: Seq<char>, query: Option<Seq<char>>, user_id: Option<Seq<char>>) -> Seq<char> {
    "gateway_cache:"@ + method + ":"@ + path
        + match query { Some(q) => "?"@ + q, None => Seq::empty() }
        + match user_id { Some(u) => ":user:"@ + u, None => Seq::empty() }
}

/// Paths whose answers are never cached.
pub open spec fn uncached_path(path: Seq<char>) -> bool {
    ||| seq_starts_with(path, "/auth/login"@)
    ||| seq_starts_with(path, "/auth/logout"@)
    ||| seq_starts_with(path, "/payments"@)
    ||| seq_starts_with(path, "/transactions"@)
}

/// The rules of the response cache (the store itself is reached by the
/// caller).
pub struct CacheManager;

impl CacheManager {
    pub fn new() -> Self {
        CacheManager
    }

    /// The cache key of a request.
    pub fn generate_cache_key(&self, method: &str, path: &str, query: Option<&str>, user_id: Option<&str>) -> (k: String)
        ensures
            k@ == cache_key(method@, path@, match query { Some(q) => Some(q@), None => None },
                match user_id { Some(u) => Some(u@), None => None }),
    {
        let mut key = join2("gateway_cache:", method);
        key.append(":");
        key.append(path);
        match query {
            Some(q) => {
                key.append("?");
                key.append(q);
            },
            None => {},
        }
        match user_id {
            Some(u) => {
                key.append(":user:");
                key.append(u);
            },
            None => {},
        }
        key
    }

    /// Only successful answers to `GET` requests are cached, and none for
    /// sign-in, sign-out, payments and transactions.
    pub fn should_cache(&self, method: &str, path: &str, status_code: u16) -> (b: bool)
        ensures
            b == (method@ == "GET"@ && 200 <= status_code <= 299 && !uncached_path(path@)),
            b <==> (method@ == "GET"@ && 200 <= status_code <= 299 && !(seq_starts_with(path@, "/auth/login"@)
                || seq_starts_with(path@, "/auth/logout"@) || seq_starts_with(path@, "/payments"@)
                || seq_starts_with(path@, "/transactions"@))),
    {
        if !str_eq(method, "GET") {
            return false;
        }
        if !(200 <= status_code && status_code <= 299) {
            return false;
        }
        !(starts_with(path, "/auth/login") || starts_with(path, "/auth/logout") || starts_with(path, "/payments")
            || starts_with(path, "/transactions"))
    }
}

/// Paths whose requests may be gathered into batches.
pub open spec fn batchable_path(path: Seq<char>) -> bool {
    ||| seq_starts_with(path, "/users/search"@)
    ||| seq_starts_with(path, "/mentor-profiles"@)
    ||| seq_starts_with(path, "/mentee-profiles"@)
}

/// Request batching rules.
pub struct RequestBatcher;

impl RequestBatcher {
    /// Whether a request to `path` may be batched.
    pub fn should_batch(path: &str) -> (b: bool)
        ensures
            b == batchable_path(path@),
            b <==> (seq_starts_with(path@, "/users/search"@) || seq_starts_with(path@, "/mentor-profiles"@)
                || seq_starts_with(path@, "/mentee-profiles"@)),
    {
        starts_with(path, "/users/search") || starts_with(path, "/mentor-profiles") || starts_with(path, "/mentee-profiles")
    }

    /// A batch is processed once it holds ten requests or its oldest
    /// request waited more than 50 ms.
    pub fn batch_ready(len: usize, oldest_wait_nanos: Option<u128>) -> (b: bool)
        ensures
            b == (len >= 10 || (oldest_wait_nanos matches Some(w) && w > 50_000_000)),
    {
        if len >= 10 {
            return true;
        }
        match oldest_wait_nanos {
            Some(w) => w > 50_000_000,
            None => false,
        }
    }
}

/// Static content (images, stylesheets, scripts) may be cached for a year.
pub open spec fn static_content(ct: Seq<char>) -> bool {
    seq_starts_with(ct, "image/"@) || seq_starts_with(ct, "text/css"@) || seq_starts_with(ct, "application/javascript"@)
}

/// The headers a response gains on its way out: the response time, a year
/// of caching for static content, and an entity tag made of the time.
pub fn optimize_response(content_type: Option<&str>, now_secs: i64) -> (h: Vec<(String, String)>)
    ensures
        h@.len() == (if content_type matches Some(ct) && static_content(ct@) { 3int } else { 2 }),
        h@[0].0@ == "x-response-time"@ && h@[0].1@ == "0ms"@,
        content_type matches Some(ct) && static_content(ct@) ==>
            h@[1].0@ == "cache-control"@ && h@[1].1@ == "public, max-age=31536000"@,
        h@.last().0@ == "etag"@ && h@.last().1@ == "\""@ + signed_decimal(now_secs as int) + "\""@,
{
    let mut h: Vec<(String, String)> = Vec::new();
    h.push((own("x-response-time"), own("0ms")));
    match content_type {
        Some(ct) => {
            if starts_with(ct, "image/") || starts_with(ct, "text/css") || starts_with(ct, "application/javascript") {
                h.push((own("cache-control"), own("public, max-age=31536000")));
            }
        },
        None => {},
    }
    let mut tag = own("\"");
    push_signed_decimal(&mut tag, now_secs);
    tag.append("\"");
    h.push((own("etag"), tag));
    h
}

/// The sum of response times.
pub open spec fn times_sum(s: Seq<u64>) -> nat
    decreases s.len(),
{
    if s.len() == 0 { 0 } else { times_sum(s.drop_last()) + s.last() as nat }
}

/// The mean of `s` is below the mean of `t` (compared exactly, by cross
/// multiplication).
pub open spec fn faster(s: Seq<u64>, t: Seq<u64>) -> bool {
    times_sum(s) * t.len() < times_sum(t) * s.len()
}

/// The measurements of an instance, where it has some.
pub open spec fn measurements(e: Seq<(String, Vec<u64>)>, name: Seq<char>) -> Option<Seq<u64>> {
    match table_lookup(e, name) {
        Some(v) => if v@.len() > 0 { Some(v@) } else { None },
        None => None,
    }
}

/// The position of the instance with the lowest mean response time among
/// the measured ones (the first of equals), if any is measured.
pub open spec fn fastest(e: Seq<(String, Vec<u64>)>, instances: Seq<String>) -> Option<int>
    decreases instances.len(),
{
    if instances.len() == 0 {
        None
    } else {
        let prev = fastest(e, instances.drop_last());
        let i = instances.len() - 1;
        match measurements(e, instances[i]@) {
            Some(t) => match prev {
                Some(p) => if faster(t, measurements(e, instances[p]@)->0) { Some(i) } else { Some(p) },
                None => Some(i),
            },
            None => prev,
        }
    }
}

/// Chooses instances by their recent response times.
pub struct AdaptiveLoadBalancer {
    pub service_response_times: Table<Vec<u64>>,
}

/// Every instance keeps at most its last hundred measurements.
pub open spec fn bounded_samples(e: Seq<(String, Vec<u64>)>) -> bool {
    forall|q: Seq<char>| #[trigger] table_lookup(e, q) matches Some(v) ==> v@.len() <= 100
}

proof fn lemma_sum_bound(s: Seq<u64>)
    ensures
        times_sum(s) <= s.len() * 0xffff_ffff_ffff_ffff,
    decreases s.len(),
{
    if s.len() > 0 {
        lemma_sum_bound(s.drop_last());
    }
}

/// The sum of a list of at most a hundred measurements.
fn sum_times(v: &Vec<u64>) -> (r: u128)
    requires
        v@.len() <= 100,
    ensures
        r == times_sum(v@),
{
    let mut s: u128 = 0;
    let mut i: usize = 0;
    assert(v@.subrange(0, 0) =~= Seq::<u64>::empty());
    while i < v.len()
        invariant
            i <= v@.len() <= 100,
            s == times_sum(v@.subrange(0, i as int)),
        decreases v.len() - i,
    {
        proof {
            assert(v@.subrange(0, i + 1).drop_last() =~= v@.subrange(0, i as int));
            lemma_sum_bound(v@.subrange(0, i + 1));
        }
        s = s + v[i] as u128;
        i = i + 1;
    }
    assert(v@.subrange(0, v@.len() as int) =~= v@);
    s
}

proof fn lemma_fastest_range(e: Seq<(String, Vec<u64>)>, instances: Seq<String>)
    ensures
        fastest(e, instances) matches Some(i) ==> 0 <= i < instances.len()
            && measurements(e, instances[i]@) is Some,
    decreases instances.len(),
{
    if instances.len() > 0 {
        lemma_fastest_range(e, instances.drop_last());
    }
}

impl AdaptiveLoadBalancer {
    pub fn new() -> (b: Self)
        ensures
            b.service_response_times.entries@.len() == 0,
            bounded_samples(b.service_response_times.entries@),
    {
        AdaptiveLoadBalancer { service_response_times: Table::new() }
    }

    /// Adds a measurement of an instance, keeping its last hundred.
    pub fn record_response_time(&mut self, service_instance: &str, response_time_ms: u64)
        requires
            bounded_samples(old(self).service_response_times.entries@),
        ensures
            bounded_samples(final(self).service_response_times.entries@),
            ({
                let before = match table_lookup(old(self).service_response_times.entries@, service_instance@) {
                    Some(v) => v@,
                    None => Seq::empty(),
                };
                let after = before.push(response_time_ms);
                table_lookup(final(self).service_response_times.entries@, service_instance@) matches Some(v)
                    && v@ == if after.len() > 100 { after.drop_first() } else { after }
            }),
            forall|q: Seq<char>| q != service_instance@ ==>
                #[trigger] table_lookup(final(self).service_response_times.entries@, q)
                    == table_lookup(old(self).service_response_times.entries@, q),
    {
        let mut v = match self.service_response_times.take(service_instance) {
            Some(v) => v,
            None => Vec::new(),
        };
        v.push(response_time_ms);
        if v.len() > 100 {
            v.remove(0);
        }
        self.service_response_times.insert(service_instance, v);
        proof {
            let e = self.service_response_times.entries@;
            assert forall|q: Seq<char>| #[trigger] table_lookup(e, q) is Some implies table_lookup(e, q)->0@.len() <= 100 by {
                if q != service_instance@ {
                    assert(table_lookup(e, q) == table_lookup(old(self).service_response_times.entries@, q));
                }
            }
        }
    }

    /// The instance with the lowest mean response time among those with
    /// measurements; the first instance when none has any; none for no
    /// instances.
    pub fn get_best_instance(&self, service_instances: &Vec<String>) -> (r: Option<String>)
        requires
            bounded_samples(self.service_response_times.entries@),
        ensures
            match fastest(self.service_response_times.entries@, service_instances@) {
                Some(i) => r matches Some(s) && s@ == service_instances@[i]@,
                None => if service_instances@.len() > 0 {
                    r matches Some(s) && s@ == service_instances@[0]@
                } else {
                    r is None
                },
            },
    {
        let ghost e = self.service_response_times.entries@;
        let mut best: Option<usize> = None;
        let mut best_sum: u128 = 0;
        let mut best_len: u128 = 1;
        let mut k: usize = 0;
        assert(service_instances@.subrange(0, 0) =~= Seq::<String>::empty());
        while k < service_instances.len()
            invariant
                k <= service_instances@.len(),
                e == self.service_response_times.entries@,
                bounded_samples(e),
                match fastest(e, service_instances@.subrange(0, k as int)) {
                    Some(i) => best matches Some(b) && b == i,
                    None => best is None,
                },
                best matches Some(b) ==> b < k && (measurements(e, service_instances@[b as int]@) matches Some(t)
                    && best_sum == times_sum(t) && best_len == t.len() && 1 <= t.len() <= 100),
            decreases service_instances.len() - k,
        {
            let ghost sub = service_instances@.subrange(0, k + 1);
            proof {
                assert(sub.drop_last() =~= service_instances@.subrange(0, k as int));
                assert(sub[k as int] == service_instances@[k as int]);
                lemma_fastest_range(e, service_instances@.subrange(0, k as int));
                if best is Some {
                    let b = best->0 as int;
                    assert(sub[b] == service_instances@[b]);
                    assert(service_instances@.subrange(0, k as int)[b] == service_instances@[b]);
                }
            }
            match self.service_response_times.get(service_instances[k].as_str()) {
                Some(v) => {
                    if v.len() > 0 {
                        let s = sum_times(v);
                        let n = v.len() as u128;
                        proof {
                            lemma_sum_bound(v@);
                        }
                        match best {
                            Some(b) => {
                                proof {
                                    lemma_sum_bound(measurements(e, service_instances@[b as int]@)->0);
                                    assert(s * best_len <= 100 * 0xffff_ffff_ffff_ffff * 100) by (nonlinear_arith)
                                        requires s <= n * 0xffff_ffff_ffff_ffff, n <= 100, best_len <= 100;
                                    assert(best_sum * n <= 100 * 0xffff_ffff_ffff_ffff * 100) by (nonlinear_arith)
                                        requires best_sum <= best_len * 0xffff_ffff_ffff_ffff, n <= 100, best_len <= 100;
                                    assert(sub[b as int] == service_instances@[b as int]);
                                }
                                if s * best_len < best_sum * n {
                                    best = Some(k);
                                    best_sum = s;
                                    best_len = n;
                                }
                            },
                            None => {
                                best = Some(k);
                                best_sum = s;
                                best_len = n;
                            },
                        }
                    }
                },
                None => {},
            }
            k = k + 1;
        }
        assert(service_instances@.subrange(0, service_instances@.len() as int) =~= service_instances@);
        match best {
            Some(b) => Some(own(service_instances[b].as_str())),
            None => {
                if service_instances.len() > 0 {
                    Some(own(service_instances[0].as_str()))
                } else {
                    None
                }
            },
        }
    }
}

} // verus!
