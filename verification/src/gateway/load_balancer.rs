//! The gateway's view of each downstream service: its health, its request
//! counters, and the circuit breaker that stops traffic to a failing
//! service for a while. Times are milliseconds of a monotonic clock.
use vstd::prelude::*;
use crate::gateway::config::{ServiceConfig, LoadBalancerStrategy};
use crate::table::{Table, table_lookup, distinct_keys};
use crate::text::{own, join2};

verus! {

/// The outcome of the last health check of a service.
#[derive(Debug)]
pub struct HealthStatus {
    pub is_healthy: bool,
    pub response_time_ms: u64,
    pub error_count: u32,
    pub last_error: Option<String>,
}

/// The request counters of a service. (The running average of response
/// times is a floating-point figure and is kept beside these.)
#[derive(PartialEq, Eq, Structural, Clone, Copy, Debug)]
pub struct ServiceCounters {
    pub active_connections: u32,
    pub total_requests: u64,
    pub successful_requests: u64,
    pub failed_requests: u64,
}

pub struct ServiceInstance {
    pub config: ServiceConfig,
    pub health_status: HealthStatus,
    pub metrics: ServiceCounters,
    pub last_health_check_ms: u64,
}

pub struct LoadBalancer {
    pub services: Table<ServiceInstance>,
    pub strategy: LoadBalancerStrategy,
}

/// The state of a service.
pub open spec fn instance(lb: LoadBalancer, name: Seq<char>) -> Option<ServiceInstance> {
    table_lookup(lb.services.entries@, name)
}

/// The circuit of a service is open: it failed at least as often as its
/// threshold and its last health check is more recent than its breaker's
/// timeout.
pub open spec fn circuit_open(i: ServiceInstance, now_ms: u64) -> bool {
    &&& i.health_status.error_count >= i.config.circuit_breaker.failure_threshold
    &&& (if now_ms >= i.last_health_check_ms { now_ms - i.last_health_check_ms } else { 0 })
        < i.config.circuit_breaker.timeout_seconds * 1000
}

/// The counters of a request that started may still be counted.
pub open spec fn start_fits(lb: LoadBalancer, name: Seq<char>) -> bool {
    instance(lb, name) matches Some(i) ==> i.metrics.active_connections < u32::MAX
        && i.metrics.total_requests < u64::MAX
}

/// The counters of a request that ended may still be counted.
pub open spec fn end_fits(lb: LoadBalancer, name: Seq<char>) -> bool {
    instance(lb, name) matches Some(i) ==> i.metrics.successful_requests < u64::MAX
        && i.metrics.failed_requests < u64::MAX && i.health_status.error_count < u32::MAX
}

/// Everything but the counters and health of the service `name` is as it
/// was.
pub open spec fn others_kept(pre: LoadBalancer, post: LoadBalancer, name: Seq<char>) -> bool {
    &&& distinct_keys(pre.services.entries@) ==> distinct_keys(post.services.entries@)
    &&& post.strategy == pre.strategy
    &&& forall|n: Seq<char>| n != name ==> #[trigger] instance(post, n) == instance(pre, n)
}

/// The service `name` counted one more request that started.
pub open spec fn counted_start(pre: LoadBalancer, post: LoadBalancer, name: Seq<char>) -> bool {
    match instance(pre, name) {
        Some(i) => instance(post, name) matches Some(j)
            && j.metrics.active_connections == i.metrics.active_connections + 1
            && j.metrics.total_requests == i.metrics.total_requests + 1
            && j.metrics.successful_requests == i.metrics.successful_requests
            && j.metrics.failed_requests == i.metrics.failed_requests
            && j.config == i.config && j.health_status == i.health_status
            && j.last_health_check_ms == i.last_health_check_ms,
        None => instance(post, name) is None,
    }
}

/// The service `name` counted a request that ended, as a success or not.
pub open spec fn counted_end(pre: LoadBalancer, post: LoadBalancer, name: Seq<char>, success: bool) -> bool {
    match instance(pre, name) {
        Some(i) => instance(post, name) matches Some(j)
            && j.metrics.active_connections == (if i.metrics.active_connections > 0 { i.metrics.active_connections - 1 } else { 0 })
            && j.metrics.total_requests == i.metrics.total_requests
            && j.metrics.successful_requests == i.metrics.successful_requests + (if success { 1int } else { 0 })
            && j.metrics.failed_requests == i.metrics.failed_requests + (if success { 0int } else { 1 })
            && j.health_status.error_count == i.health_status.error_count + (if success { 0int } else { 1 })
            && j.health_status.is_healthy == i.health_status.is_healthy
            && j.health_status.last_error == i.health_status.last_error
            && j.config == i.config && j.last_health_check_ms == i.last_health_check_ms,
        None => instance(post, name) is None,
    }
}

/// The service `name` forgot its failures.
pub open spec fn circuit_reset(pre: LoadBalancer, post: LoadBalancer, name: Seq<char>) -> bool {
    match instance(pre, name) {
        Some(i) => instance(post, name) matches Some(j)
            && j.health_status.error_count == 0 && j.health_status.last_error is None
            && j.health_status.is_healthy == i.health_status.is_healthy
            && j.metrics == i.metrics && j.config == i.config && j.last_health_check_ms == i.last_health_check_ms,
        None => instance(post, name) is None,
    }
}

/// A request that starts and then ends leaves the service's open
/// connections as they were, and counts one more request in all and one
/// more success or failure.
pub proof fn law_request_balanced(a: LoadBalancer, b: LoadBalancer, c: LoadBalancer, name: Seq<char>, success: bool)
    requires
        counted_start(a, b, name),
        counted_end(b, c, name, success),
    ensures
        instance(a, name) matches Some(i) ==> (instance(c, name) matches Some(k)
            && k.metrics.active_connections == i.metrics.active_connections
            && k.metrics.total_requests == i.metrics.total_requests + 1
            && k.metrics.successful_requests + k.metrics.failed_requests
                == i.metrics.successful_requests + i.metrics.failed_requests + 1),
        instance(a, name) is None ==> instance(c, name) is None,
{
}

/// Once a service's failures are forgotten, its circuit is closed at any
/// time, provided its breaker needs at least one failure to open.
pub proof fn law_reset_closes_circuit(a: LoadBalancer, b: LoadBalancer, name: Seq<char>, now_ms: u64)
    requires
        circuit_reset(a, b, name),
        instance(a, name) matches Some(i) ==> i.config.circuit_breaker.failure_threshold > 0,
    ensures
        !(instance(b, name) matches Some(j) && circuit_open(j, now_ms)),
{
}

/// The health of a service after a check that answered `outcome` (the
/// response's status text and whether it was a success, or the error's
/// text) in `response_time_ms`.
pub open spec fn checked_health(h: HealthStatus, outcome: Result<(bool, Seq<char>), Seq<char>>, response_time_ms: u64) -> bool {
    match outcome {
        Ok((true, _)) => h.is_healthy && h.response_time_ms == response_time_ms && h.error_count == 0
            && h.last_error is None,
        Ok((false, status)) => !h.is_healthy && h.response_time_ms == response_time_ms && h.error_count == 1
            && (h.last_error matches Some(e) && e@ == "Health check failed with status: "@ + status),
        Err(error) => !h.is_healthy && h.response_time_ms == 0 && h.error_count == 1
            && (h.last_error matches Some(e) && e@ == "Health check request failed: "@ + error),
    }
}

/// The health a service has before its first check.
pub fn initial_health() -> (h: HealthStatus)
    ensures
        h.is_healthy && h.response_time_ms == 0 && h.error_count == 0 && h.last_error is None,
{
    HealthStatus { is_healthy: true, response_time_ms: 0, error_count: 0, last_error: None }
}

/// The health a check found (see `checked_health`).
pub fn health_from_check(outcome: Result<(bool, &str), &str>, response_time_ms: u64) -> (h: HealthStatus)
    ensures
        checked_health(h, match outcome { Ok((ok, s)) => Ok((ok, s@)), Err(e) => Err(e@) }, response_time_ms),
{
    match outcome {
        Ok((true, _)) => HealthStatus { is_healthy: true, response_time_ms, error_count: 0, last_error: None },
        Ok((false, status)) => HealthStatus {
            is_healthy: false,
            response_time_ms,
            error_count: 1,
            last_error: Some(join2("Health check failed with status: ", status)),
        },
        Err(error) => HealthStatus {
            is_healthy: false,
            response_time_ms: 0,
            error_count: 1,
            last_error: Some(join2("Health check request failed: ", error)),
        },
    }
}

/// The address of a service's health check.
pub fn health_url(config: &ServiceConfig) -> (u: String)
    ensures
        u@ == config.base_url@ + config.health_check_path@,
{
    join2(config.base_url.as_str(), config.health_check_path.as_str())
}

impl LoadBalancer {
    /// The services of `service_configs`, all healthy, with no requests
    /// counted, as checked at `now_ms`; requests go round robin.
    pub fn new(service_configs: Table<ServiceConfig>, now_ms: u64) -> (lb: Self)
        requires
            distinct_keys(service_configs.entries@),
        ensures
            distinct_keys(lb.services.entries@),
            lb.strategy == LoadBalancerStrategy::RoundRobin,
            forall|n: Seq<char>| #[trigger] instance(lb, n) is Some <==> table_lookup(service_configs.entries@, n) is Some,
            forall|n: Seq<char>| #[trigger] instance(lb, n) matches Some(i) ==> Some(i.config) == table_lookup(service_configs.entries@, n)
                && i.health_status.is_healthy && i.health_status.error_count == 0 && i.health_status.last_error is None
                && i.metrics == (ServiceCounters { active_connections: 0, total_requests: 0, successful_requests: 0, failed_requests: 0 })
                && i.last_health_check_ms == now_ms,
    {
        let mut configs = service_configs;
        let mut services: Table<ServiceInstance> = Table::new();
        let ghost e0 = configs.entries@;
        let mut done: Vec<(String, ServiceConfig)> = Vec::new();
        let n = configs.entries.len();
        let mut k: usize = 0;
        while configs.entries.len() > 0
            invariant
                k + configs.entries@.len() == n,
                n == e0.len(),
                distinct_keys(e0),
                configs.entries@ == e0.subrange(k as int, n as int),
                distinct_keys(services.entries@),
                forall|q: Seq<char>| #[trigger] table_lookup(services.entries@, q) is Some <==>
                    (exists|j: int| 0 <= j < k && (#[trigger] e0[j]).0@ == q),
                forall|j: int| 0 <= j < k ==> (table_lookup(services.entries@, (#[trigger] e0[j]).0@) matches Some(i)
                    && i.config == e0[j].1 && i.health_status.is_healthy && i.health_status.error_count == 0
                    && i.health_status.last_error is None
                    && i.metrics == (ServiceCounters { active_connections: 0, total_requests: 0, successful_requests: 0, failed_requests: 0 })
                    && i.last_health_check_ms == now_ms),
            decreases configs.entries.len(),
        {
            let (name, config) = configs.entries.remove(0);
            let inst = ServiceInstance {
                config,
                health_status: initial_health(),
                metrics: ServiceCounters { active_connections: 0, total_requests: 0, successful_requests: 0, failed_requests: 0 },
                last_health_check_ms: now_ms,
            };
            proof {
                assert(e0[k as int].0 == name);
                assert forall|j: int| 0 <= j < k implies (#[trigger] e0[j]).0@ != name@ by {
                    assert(e0[j].0@ != e0[k as int].0@);
                }
            }
            services.insert(name.as_str(), inst);
            k = k + 1;
            proof {
                assert(configs.entries@ =~= e0.subrange(k as int, n as int));
            }
        }
        proof {
            assert forall|q: Seq<char>| #[trigger] table_lookup(service_configs.entries@, q) is Some
                <==> (exists|j: int| 0 <= j < n && (#[trigger] e0[j]).0@ == q) by {
                crate::table::lemma_position(e0, q);
                if exists|j: int| 0 <= j < n && (#[trigger] e0[j]).0@ == q {
                    let j = choose|j: int| 0 <= j < n && (#[trigger] e0[j]).0@ == q;
                    assert(crate::table::table_position(e0, q) <= j);
                }
            }
            assert forall|q: Seq<char>| table_lookup(services.entries@, q) is Some implies Some(table_lookup(services.entries@, q)->0.config)
                == #[trigger] table_lookup(service_configs.entries@, q) by {
                let j = choose|j: int| 0 <= j < n && (#[trigger] e0[j]).0@ == q;
                crate::table::lemma_position(e0, q);
                let p = crate::table::table_position(e0, q) as int;
                if p != j {
                    if p < j {
                        assert(e0[p].0@ != e0[j].0@);
                    } else {
                        assert(false);
                    }
                }
            }
        }
        LoadBalancer { services, strategy: LoadBalancerStrategy::RoundRobin }
    }

    /// The address of a healthy service; none for an unhealthy or unknown
    /// one.
    pub fn get_service_url(&self, service_name: &str) -> (r: Option<String>)
        ensures
            match instance(*self, service_name@) {
                Some(i) => if i.health_status.is_healthy {
                    r matches Some(u) && u@ == i.config.base_url@
                } else {
                    r is None
                },
                None => r is None,
            },
    {
        match self.services.get(service_name) {
            Some(i) => {
                if i.health_status.is_healthy {
                    Some(own(i.config.base_url.as_str()))
                } else {
                    None
                }
            },
            None => None,
        }
    }

    /// Whether the circuit of a service is open at `now_ms` (see
    /// `circuit_open`); an unknown service's circuit is closed.
    pub fn is_circuit_open(&self, service_name: &str, now_ms: u64) -> (b: bool)
        ensures
            b == (instance(*self, service_name@) matches Some(i) && circuit_open(i, now_ms)),
    {
        match self.services.get(service_name) {
            Some(i) => {
                if i.health_status.error_count >= i.config.circuit_breaker.failure_threshold {
                    let elapsed: u64 = if now_ms >= i.last_health_check_ms { now_ms - i.last_health_check_ms } else { 0 };
                    (elapsed as u128) < (i.config.circuit_breaker.timeout_seconds as u128) * 1000
                } else {
                    false
                }
            },
            None => false,
        }
    }

    /// Counts a request that starts: one more open and one more in all.
    pub fn record_request_start(&mut self, service_name: &str)
        requires
            start_fits(*old(self), service_name@),
        ensures
            others_kept(*old(self), *final(self), service_name@),
            counted_start(*old(self), *final(self), service_name@),
    {
        match self.services.take(service_name) {
            Some(i) => {
                let mut i = i;
                i.metrics.active_connections = i.metrics.active_connections + 1;
                i.metrics.total_requests = i.metrics.total_requests + 1;
                self.services.insert(service_name, i);
            },
            None => {},
        }
    }

    /// Counts a request that ended: one fewer open, and one more success or
    /// one more failure (which the service's health also counts).
    pub fn record_request_end(&mut self, service_name: &str, success: bool)
        requires
            end_fits(*old(self), service_name@),
        ensures
            others_kept(*old(self), *final(self), service_name@),
            counted_end(*old(self), *final(self), service_name@, success),
    {
        match self.services.take(service_name) {
            Some(i) => {
                let mut i = i;
                i.metrics.active_connections = if i.metrics.active_connections > 0 { i.metrics.active_connections - 1 } else { 0 };
                if success {
                    i.metrics.successful_requests = i.metrics.successful_requests + 1;
                } else {
                    i.metrics.failed_requests = i.metrics.failed_requests + 1;
                    i.health_status.error_count = i.health_status.error_count + 1;
                }
                self.services.insert(service_name, i);
            },
            None => {},
        }
    }

    /// Closes the circuit of a service: its failures are forgotten.
    pub fn reset_circuit(&mut self, service_name: &str)
        ensures
            others_kept(*old(self), *final(self), service_name@),
            circuit_reset(*old(self), *final(self), service_name@),
    {
        match self.services.take(service_name) {
            Some(i) => {
                let mut i = i;
                i.health_status.error_count = 0;
                i.health_status.last_error = None;
                self.services.insert(service_name, i);
            },
            None => {},
        }
    }

    /// Records the outcome of a health check made at `now_ms`.
    pub fn apply_health_check(&mut self, service_name: &str, health: HealthStatus, now_ms: u64)
        ensures
            others_kept(*old(self), *final(self), service_name@),
            match instance(*old(self), service_name@) {
                Some(i) => instance(*final(self), service_name@) matches Some(j)
                    && j.health_status == health && j.last_health_check_ms == now_ms
                    && j.metrics == i.metrics && j.config == i.config,
                None => instance(*final(self), service_name@) is None,
            },
    {
        match self.services.take(service_name) {
            Some(i) => {
                let mut i = i;
                i.health_status = health;
                i.last_health_check_ms = now_ms;
                self.services.insert(service_name, i);
            },
            None => {},
        }
    }
}

/// Two health records alike in every field, texts by their characters.
pub open spec fn same_health(a: HealthStatus, b: HealthStatus) -> bool {
    &&& a.is_healthy == b.is_healthy
    &&& a.response_time_ms == b.response_time_ms
    &&& a.error_count == b.error_count
    &&& match (a.last_error, b.last_error) {
        (Some(x), Some(y)) => x@ == y@,
        (None, None) => true,
        _ => false,
    }
}

/// A copy of a health record.
pub fn copy_health(h: &HealthStatus) -> (r: HealthStatus)
    ensures
        same_health(r, *h),
{
    HealthStatus {
        is_healthy: h.is_healthy,
        response_time_ms: h.response_time_ms,
        error_count: h.error_count,
        last_error: match &h.last_error {
            Some(e) => Some(own(e.as_str())),
            None => None,
        },
    }
}

impl LoadBalancer {
    /// The request counters of a service; none for an unknown service.
    pub fn get_service_metrics(&self, service_name: &str) -> (r: Option<ServiceCounters>)
        ensures
            match instance(*self, service_name@) {
                Some(i) => r == Some(i.metrics),
                None => r is None,
            },
    {
        match self.services.get(service_name) {
            Some(i) => Some(i.metrics),
            None => None,
        }
    }

    /// The health of every service, by name, in the order of the table.
    pub fn get_all_service_health(&self) -> (r: Vec<(String, HealthStatus)>)
        ensures
            r@.len() == self.services.entries@.len(),
            forall|k: int| 0 <= k < r@.len() ==> {
                &&& (#[trigger] r@[k]).0@ == self.services.entries@[k].0@
                &&& same_health(r@[k].1, self.services.entries@[k].1.health_status)
            },
    {
        let mut r: Vec<(String, HealthStatus)> = Vec::new();
        let mut k: usize = 0;
        while k < self.services.entries.len()
            invariant
                k <= self.services.entries@.len(),
                r@.len() == k,
                forall|j: int| 0 <= j < k ==> {
                    &&& (#[trigger] r@[j]).0@ == self.services.entries@[j].0@
                    &&& same_health(r@[j].1, self.services.entries@[j].1.health_status)
                },
            decreases self.services.entries.len() - k,
        {
            let e = &self.services.entries[k];
            let pair = (own(e.0.as_str()), copy_health(&e.1.health_status));
            r.push(pair);
            k = k + 1;
        }
        r
    }
}

} // verus!
