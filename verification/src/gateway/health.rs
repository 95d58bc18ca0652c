//! The gateway's health answers: each service's status, the overall status,
//! readiness, and the plain-text metrics page.
use vstd::prelude::*;
use crate::gateway::load_balancer::{HealthStatus, same_health, copy_health};
use crate::gateway::reply::{Rejection, rejects};
use crate::text::{decimal, join3, own, push_decimal, str_eq};
use crate::time::Timestamp;

verus! {

/// The word for a service's health.
pub open spec fn health_word(is_healthy: bool) -> Seq<char> {
    if is_healthy { "healthy"@ } else { "unhealthy"@ }
}

/// The HTTP status of a health answer: 200 when healthy, 503 otherwise.
pub open spec fn health_code(is_healthy: bool) -> u16 {
    if is_healthy { 200 } else { 503 }
}

/// One service's health as the health endpoints report it.
#[derive(Debug)]
pub struct ServiceHealthStatus {
    pub name: String,
    pub status: String,
    pub response_time_ms: u64,
    pub last_check: Timestamp,
    pub error_count: u32,
    pub last_error: Option<String>,
}

/// The report of a service named `name` with health `h`, checked at `now`.
pub open spec fn reports(s: ServiceHealthStatus, name: Seq<char>, h: HealthStatus, now: Timestamp) -> bool {
    &&& s.name@ == name
    &&& s.status@ == health_word(h.is_healthy)
    &&& s.response_time_ms == h.response_time_ms
    &&& s.last_check == now
    &&& s.error_count == h.error_count
    &&& match (s.last_error, h.last_error) {
        (Some(x), Some(y)) => x@ == y@,
        (None, None) => true,
        _ => false,
    }
}

/// The report of one service.
pub fn service_health_status(name: &str, h: &HealthStatus, now: Timestamp) -> (s: ServiceHealthStatus)
    ensures
        reports(s, name@, *h, now),
{
    let c = copy_health(h);
    ServiceHealthStatus {
        name: own(name),
        status: if h.is_healthy { own("healthy") } else { own("unhealthy") },
        response_time_ms: h.response_time_ms,
        last_check: now,
        error_count: h.error_count,
        last_error: c.last_error,
    }
}

/// The gateway's health: `healthy` with 200 when every service is healthy,
/// `degraded` with 503 otherwise, and each service's report.
pub struct GatewayHealthReport {
    pub status: String,
    pub status_code: u16,
    pub services: Vec<ServiceHealthStatus>,
}

/// Every service is healthy.
pub open spec fn all_healthy(services: Seq<(String, HealthStatus)>) -> bool {
    forall|k: int| 0 <= k < services.len() ==> (#[trigger] services[k]).1.is_healthy
}

/// The gateway's health report at `now`.
pub fn health_check(services: &Vec<(String, HealthStatus)>, now: Timestamp) -> (r: GatewayHealthReport)
    ensures
        r.status@ == (if all_healthy(services@) { "healthy"@ } else { "degraded"@ }),
        r.status_code == health_code(all_healthy(services@)),
        r.services@.len() == services@.len(),
        forall|k: int| 0 <= k < services@.len() ==>
            reports(#[trigger] r.services@[k], services@[k].0@, services@[k].1, now),
{
    let mut list: Vec<ServiceHealthStatus> = Vec::new();
    let mut overall = true;
    let mut k: usize = 0;
    while k < services.len()
        invariant
            k <= services@.len(),
            list@.len() == k,
            overall == (forall|j: int| 0 <= j < k ==> (#[trigger] services@[j]).1.is_healthy),
            forall|j: int| 0 <= j < k ==>
                reports(#[trigger] list@[j], services@[j].0@, services@[j].1, now),
        decreases services.len() - k,
    {
        let s = service_health_status(services[k].0.as_str(), &services[k].1, now);
        if !services[k].1.is_healthy {
            overall = false;
        }
        list.push(s);
        k = k + 1;
    }
    GatewayHealthReport {
        status: if overall { own("healthy") } else { own("degraded") },
        status_code: if overall { 200 } else { 503 },
        services: list,
    }
}

/// The health of the first service named `name`.
pub open spec fn health_of(services: Seq<(String, HealthStatus)>, name: Seq<char>) -> Option<HealthStatus>
    decreases services.len(),
{
    if services.len() == 0 {
        None
    } else if services[0].0@ == name {
        Some(services[0].1)
    } else {
        health_of(services.drop_first(), name)
    }
}

/// The position of the first service named `name`.
fn find_service(services: &Vec<(String, HealthStatus)>, name: &str) -> (r: Option<usize>)
    ensures
        match r {
            Some(i) => i < services@.len() && health_of(services@, name@) == Some(services@[i as int].1),
            None => health_of(services@, name@) is None,
        },
{
    let mut i: usize = 0;
    assert(services@.subrange(0, services@.len() as int) =~= services@);
    while i < services.len()
        invariant
            i <= services@.len(),
            health_of(services@, name@) == health_of(services@.subrange(i as int, services@.len() as int), name@),
        decreases services.len() - i,
    {
        let ghost rest = services@.subrange(i as int, services@.len() as int);
        assert(rest.drop_first() =~= services@.subrange(i + 1, services@.len() as int));
        if str_eq(services[i].0.as_str(), name) {
            return Some(i);
        }
        i = i + 1;
    }
    None
}

/// One service's health answer: its report with 200 or 503, or 404 for an
/// unknown service.
pub fn service_health_check(services: &Vec<(String, HealthStatus)>, name: &str, now: Timestamp) -> (r: Result<(u16, ServiceHealthStatus), Rejection>)
    ensures
        match health_of(services@, name@) {
            Some(h) => (r matches Ok((code, s)) && code == health_code(h.is_healthy) && reports(s, name@, h, now)),
            None => r is Err && rejects(r->Err_0, 404, "Service '"@ + name@ + "' not found"@),
        },
{
    match find_service(services, name) {
        Some(i) => {
            let s = service_health_status(name, &services[i].1, now);
            let code: u16 = if services[i].1.is_healthy { 200 } else { 503 };
            Ok((code, s))
        },
        None => {
            let m = join3("Service '", name, "' not found");
            Err(Rejection { status: 404, message: m })
        },
    }
}

/// Readiness of the services the gateway cannot work without (the user
/// service): 503 when it is unhealthy or unknown.
pub fn critical_services_outcome(services: &Vec<(String, HealthStatus)>) -> (r: Result<(), Rejection>)
    ensures
        match health_of(services@, "user-management"@) {
            Some(h) => if h.is_healthy {
                r is Ok
            } else {
                r is Err && rejects(r->Err_0, 503, "Critical service 'user-management' is not ready"@)
            },
            None => r is Err && rejects(r->Err_0, 503, "Critical service 'user-management' not found"@),
        },
{
    match find_service(services, "user-management") {
        Some(i) => {
            if services[i].1.is_healthy {
                Ok(())
            } else {
                Err(Rejection::new(503, "Critical service 'user-management' is not ready"))
            }
        },
        None => Err(Rejection::new(503, "Critical service 'user-management' not found")),
    }
}

/// Readiness once the critical services are up: ready when the store
/// answers, 503 otherwise.
pub fn redis_readiness_outcome(redis_ok: bool) -> (r: Result<String, Rejection>)
    ensures
        redis_ok ==> (r matches Ok(m) && m@ == "Gateway is ready"@),
        !redis_ok ==> r is Err && rejects(r->Err_0, 503, "Redis is not available"@),
{
    if redis_ok {
        Ok(own("Gateway is ready"))
    } else {
        Err(Rejection::new(503, "Redis is not available"))
    }
}

/// The lines of one service on the metrics page.
pub open spec fn service_metric_lines(name: Seq<char>, h: HealthStatus) -> Seq<char> {
    "service_health{service=\""@ + name + "\"} "@ + (if h.is_healthy { "1"@ } else { "0"@ }) + "\n"@
        + "service_response_time_ms{service=\""@ + name + "\"} "@ + decimal(h.response_time_ms as nat) + "\n"@
        + "service_error_count{service=\""@ + name + "\"} "@ + decimal(h.error_count as nat) + "\n"@
}

/// The lines of the services, in order.
pub open spec fn services_metric_lines(services: Seq<(String, HealthStatus)>) -> Seq<char>
    decreases services.len(),
{
    if services.len() == 0 {
        Seq::empty()
    } else {
        services_metric_lines(services.drop_last()) + service_metric_lines(services.last().0@, services.last().1)
    }
}

/// The metrics page: the gateway's version, then each service's health,
/// response time and error count.
pub open spec fn metrics_page(version: Seq<char>, services: Seq<(String, HealthStatus)>) -> Seq<char> {
    "# HELP gateway_info Gateway information\n"@
        + "# TYPE gateway_info gauge\n"@
        + "gateway_info{version=\""@ + version + "\"} 1\n"@
        + "# HELP service_health Service health status (1=healthy, 0=unhealthy)\n"@
        + "# TYPE service_health gauge\n"@
        + services_metric_lines(services)
}

/// Appends `t` to `s`.
fn put(s: &mut String, t: &str)
    ensures
        final(s)@ == old(s)@ + t@,
{
    s.append(t);
}

/// Appends the lines of one service.
fn push_service_lines(m: &mut String, name: &str, h: &HealthStatus)
    ensures
        final(m)@ == old(m)@ + service_metric_lines(name@, *h),
{
    put(m, "service_health{service=\"");
    put(m, name);
    put(m, "\"} ");
    if h.is_healthy { put(m, "1"); } else { put(m, "0"); }
    put(m, "\n");
    put(m, "service_response_time_ms{service=\"");
    put(m, name);
    put(m, "\"} ");
    push_decimal(m, h.response_time_ms);
    put(m, "\n");
    put(m, "service_error_count{service=\"");
    put(m, name);
    put(m, "\"} ");
    push_decimal(m, h.error_count as u64);
    put(m, "\n");
    assert(m@ =~= old(m)@ + service_metric_lines(name@, *h));
}

/// The plain-text metrics page.
pub fn metrics_endpoint(version: &str, services: &Vec<(String, HealthStatus)>) -> (m: String)
    ensures
        m@ == metrics_page(version@, services@),
{
    let mut m = own("# HELP gateway_info Gateway information\n");
    put(&mut m, "# TYPE gateway_info gauge\n");
    put(&mut m, "gateway_info{version=\"");
    put(&mut m, version);
    put(&mut m, "\"} 1\n");
    put(&mut m, "# HELP service_health Service health status (1=healthy, 0=unhealthy)\n");
    put(&mut m, "# TYPE service_health gauge\n");
    let ghost head = m@;
    let mut k: usize = 0;
    assert(services@.subrange(0, 0) =~= Seq::<(String, HealthStatus)>::empty());
    while k < services.len()
        invariant
            k <= services@.len(),
            m@ == head + services_metric_lines(services@.subrange(0, k as int)),
        decreases services.len() - k,
    {
        push_service_lines(&mut m, services[k].0.as_str(), &services[k].1);
        assert(services@.subrange(0, k + 1).drop_last() =~= services@.subrange(0, k as int));
        k = k + 1;
    }
    assert(services@.subrange(0, services@.len() as int) =~= services@);
    m
}

} // verus!
