//! The instances of each service, their health, and how their error rate
//! turns into a health status.
use vstd::prelude::*;
use crate::gateway::config::ServiceConfig;
use crate::table::{Table, table_lookup, distinct_keys};
use crate::time::Timestamp;
use crate::text::{own, join2, push_signed_decimal, signed_decimal};

verus! {

#[derive(PartialEq, Eq, Structural, Clone, Copy, Debug)]
pub enum HealthStatus {
    Healthy,
    Unhealthy,
    Unknown,
    Degraded,
}

pub struct RegisteredInstance {
    pub service_name: String,
    pub instance_id: String,
    pub base_url: String,
    pub health_status: HealthStatus,
    pub last_health_check: Timestamp,
    pub response_time_ms: u64,
    pub error_count: u32,
    pub success_count: u32,
    pub metadata: Vec<(String, String)>,
}

/// The instances of each service, by service name.
pub struct ServiceRegistry {
    pub services: Table<Vec<RegisteredInstance>>,
    pub health_check_interval_seconds: i64,
}

/// A service's statistics.
pub struct ServiceStats {
    pub service_name: String,
    pub total_instances: usize,
    pub healthy_instances: usize,
    pub average_response_time_ms: u64,
}

/// The health that an instance's error rate shows once it served more than
/// ten requests: over half failed is unhealthy, over a fifth degraded.
/// (Errors and totals are whole numbers, so `2 * errors > total` and
/// `5 * errors > total` decide the rates `> 0.5` and `> 0.2` exactly.)
pub open spec fn rated_health(errors: nat, total: nat, current: HealthStatus) -> HealthStatus {
    if total <= 10 {
        current
    } else if 2 * errors > total {
        HealthStatus::Unhealthy
    } else if 5 * errors > total {
        HealthStatus::Degraded
    } else {
        HealthStatus::Healthy
    }
}

/// The instances of a service.
pub open spec fn instances_of(r: ServiceRegistry, name: Seq<char>) -> Seq<RegisteredInstance> {
    match table_lookup(r.services.entries@, name) {
        Some(v) => v@,
        None => Seq::empty(),
    }
}

/// The health status of an instance after a request, by its counts.
pub fn rate_health(error_count: u32, success_count: u32, current: HealthStatus) -> (h: HealthStatus)
    requires
        error_count + success_count <= u32::MAX,
    ensures
        h == rated_health(error_count as nat, (error_count + success_count) as nat, current),
        error_count + success_count <= 10 ==> h == current,
        error_count + success_count > 10 && 2 * error_count > error_count + success_count ==> h == HealthStatus::Unhealthy,
        error_count + success_count > 10 && 2 * error_count <= error_count + success_count
            && 5 * error_count > error_count + success_count ==> h == HealthStatus::Degraded,
        error_count + success_count > 10 && 5 * error_count <= error_count + success_count ==> h == HealthStatus::Healthy,
{
    let total: u64 = error_count as u64 + success_count as u64;
    if total <= 10 {
        current
    } else if 2 * (error_count as u64) > total {
        HealthStatus::Unhealthy
    } else if 5 * (error_count as u64) > total {
        HealthStatus::Degraded
    } else {
        HealthStatus::Healthy
    }
}

/// The id of an instance registered at `now`: `<name>_<seconds>`.
pub fn instance_id(service_name: &str, now: Timestamp) -> (id: String)
    ensures
        id@ == service_name@ + "_"@ + signed_decimal(now.secs as int),
{
    let mut id = join2(service_name, "_");
    push_signed_decimal(&mut id, now.secs);
    id
}

impl ServiceRegistry {
    /// No services; instances are checked every 30 seconds.
    pub fn new() -> (r: Self)
        ensures
            r.services.entries@.len() == 0,
            distinct_keys(r.services.entries@),
            r.health_check_interval_seconds == 30,
    {
        ServiceRegistry { services: Table::new(), health_check_interval_seconds: 30 }
    }

    /// Registers an instance of a service, of unknown health, at `now`.
    pub fn register_service(&mut self, config: &ServiceConfig, now: Timestamp)
        requires
            distinct_keys(old(self).services.entries@),
        ensures
            distinct_keys(final(self).services.entries@),
            instances_of(*final(self), config.name@).len() == instances_of(*old(self), config.name@).len() + 1,
            forall|k: int| 0 <= k < instances_of(*old(self), config.name@).len()
                ==> #[trigger] instances_of(*final(self), config.name@)[k] == instances_of(*old(self), config.name@)[k],
            ({
                let i = instances_of(*final(self), config.name@).last();
                &&& i.service_name@ == config.name@
                &&& i.instance_id@ == config.name@ + "_"@ + signed_decimal(now.secs as int)
                &&& i.base_url@ == config.base_url@
                &&& i.health_status == HealthStatus::Unknown
                &&& i.last_health_check == now
                &&& i.response_time_ms == 0 && i.error_count == 0 && i.success_count == 0
                &&& i.metadata@.len() == 0
            }),
            forall|n: Seq<char>| n != config.name@ ==> #[trigger] instances_of(*final(self), n) == instances_of(*old(self), n),
    {
        let inst = RegisteredInstance {
            service_name: own(config.name.as_str()),
            instance_id: instance_id(config.name.as_str(), now),
            base_url: own(config.base_url.as_str()),
            health_status: HealthStatus::Unknown,
            last_health_check: now,
            response_time_ms: 0,
            error_count: 0,
            success_count: 0,
            metadata: Vec::new(),
        };
        match self.services.take(config.name.as_str()) {
            Some(v) => {
                let mut v = v;
                v.push(inst);
                self.services.insert(config.name.as_str(), v);
            },
            None => {
                let mut v: Vec<RegisteredInstance> = Vec::new();
                v.push(inst);
                self.services.insert(config.name.as_str(), v);
            },
        }
    }

    /// The position of an instance among its service's instances.
    fn find_instance(v: &Vec<RegisteredInstance>, instance_id: &str) -> (r: Option<usize>)
        ensures
            match r {
                Some(i) => i < v@.len() && v@[i as int].instance_id@ == instance_id@
                    && forall|j: int| 0 <= j < i ==> (#[trigger] v@[j]).instance_id@ != instance_id@,
                None => forall|j: int| 0 <= j < v@.len() ==> (#[trigger] v@[j]).instance_id@ != instance_id@,
            },
    {
        let mut i: usize = 0;
        while i < v.len()
            invariant
                i <= v@.len(),
                forall|j: int| 0 <= j < i ==> (#[trigger] v@[j]).instance_id@ != instance_id@,
            decreases v.len() - i,
        {
            if crate::text::str_eq(v[i].instance_id.as_str(), instance_id) {
                return Some(i);
            }
            i = i + 1;
        }
        None
    }

    /// Records a request's result on an instance: its response time, one
    /// more success or error, and the health its error rate shows.
    pub fn record_request_result(&mut self, service_name: &str, instance_id: &str, success: bool, response_time: u64)
        requires
            distinct_keys(old(self).services.entries@),
            forall|k: int| 0 <= k < instances_of(*old(self), service_name@).len() ==>
                (#[trigger] instances_of(*old(self), service_name@)[k]).error_count + instances_of(*old(self), service_name@)[k].success_count < u32::MAX,
        ensures
            distinct_keys(final(self).services.entries@),
            instances_of(*final(self), service_name@).len() == instances_of(*old(self), service_name@).len(),
            forall|k: int| 0 <= k < instances_of(*old(self), service_name@).len() ==> {
                let a = instances_of(*old(self), service_name@)[k];
                let b = #[trigger] instances_of(*final(self), service_name@)[k];
                if a.instance_id@ == instance_id@ && (forall|j: int| 0 <= j < k ==> (#[trigger] instances_of(*old(self), service_name@)[j]).instance_id@ != instance_id@) {
                    let e = a.error_count + (if success { 0int } else { 1 });
                    let s = a.success_count + (if success { 1int } else { 0 });
                    &&& b.response_time_ms == response_time
                    &&& b.error_count == e && b.success_count == s
                    &&& b.health_status == rated_health(e as nat, (e + s) as nat, a.health_status)
                    &&& b.instance_id@ == a.instance_id@
                } else {
                    b == a
                }
            },
            forall|n: Seq<char>| n != service_name@ ==> #[trigger] instances_of(*final(self), n) == instances_of(*old(self), n),
    {
        match self.services.take(service_name) {
            Some(v) => {
                let mut v = v;
                match Self::find_instance(&v, instance_id) {
                    Some(i) => {
                        let mut inst = v.remove(i);
                        inst.response_time_ms = response_time;
                        if success {
                            inst.success_count = inst.success_count + 1;
                        } else {
                            inst.error_count = inst.error_count + 1;
                        }
                        inst.health_status = rate_health(inst.error_count, inst.success_count, inst.health_status);
                        v.insert(i, inst);
                    },
                    None => {},
                }
                self.services.insert(service_name, v);
            },
            None => {},
        }
    }

    /// Records a health check of an instance made at `now`: its status and
    /// response time, and one more success or error for a healthy or an
    /// unhealthy status.
    pub fn update_health_status(&mut self, service_name: &str, instance_id: &str, status: HealthStatus, response_time: u64, now: Timestamp)
        requires
            distinct_keys(old(self).services.entries@),
            forall|k: int| 0 <= k < instances_of(*old(self), service_name@).len() ==>
                (#[trigger] instances_of(*old(self), service_name@)[k]).error_count < u32::MAX
                && instances_of(*old(self), service_name@)[k].success_count < u32::MAX,
        ensures
            distinct_keys(final(self).services.entries@),
            instances_of(*final(self), service_name@).len() == instances_of(*old(self), service_name@).len(),
            forall|k: int| 0 <= k < instances_of(*old(self), service_name@).len() ==> {
                let a = instances_of(*old(self), service_name@)[k];
                let b = #[trigger] instances_of(*final(self), service_name@)[k];
                if a.instance_id@ == instance_id@ && (forall|j: int| 0 <= j < k ==> (#[trigger] instances_of(*old(self), service_name@)[j]).instance_id@ != instance_id@) {
                    &&& b.health_status == status
                    &&& b.last_health_check == now
                    &&& b.response_time_ms == response_time
                    &&& b.success_count == a.success_count + (if status == HealthStatus::Healthy { 1int } else { 0 })
                    &&& b.error_count == a.error_count + (if status == HealthStatus::Unhealthy { 1int } else { 0 })
                } else {
                    b == a
                }
            },
            forall|n: Seq<char>| n != service_name@ ==> #[trigger] instances_of(*final(self), n) == instances_of(*old(self), n),
    {
        match self.services.take(service_name) {
            Some(v) => {
                let mut v = v;
                match Self::find_instance(&v, instance_id) {
                    Some(i) => {
                        let mut inst = v.remove(i);
                        inst.health_status = status;
                        inst.last_health_check = now;
                        inst.response_time_ms = response_time;
                        match status {
                            HealthStatus::Healthy => inst.success_count = inst.success_count + 1,
                            HealthStatus::Unhealthy => inst.error_count = inst.error_count + 1,
                            _ => {},
                        }
                        v.insert(i, inst);
                    },
                    None => {},
                }
                self.services.insert(service_name, v);
            },
            None => {},
        }
    }

    /// The number of healthy instances and the sum of response times of a
    /// service's instances.
    fn tally(v: &Vec<RegisteredInstance>) -> (r: (usize, u64))
        requires
            response_sum(v@) <= u64::MAX,
        ensures
            r.0 == healthy_count(v@),
            r.1 == response_sum(v@),
    {
        let mut healthy: usize = 0;
        let mut sum: u64 = 0;
        let mut i: usize = 0;
        assert(v@.subrange(0, 0) =~= Seq::<RegisteredInstance>::empty());
        while i < v.len()
            invariant
                i <= v@.len(),
                response_sum(v@) <= u64::MAX,
                healthy == healthy_count(v@.subrange(0, i as int)),
                sum == response_sum(v@.subrange(0, i as int)),
                healthy <= i,
            decreases v.len() - i,
        {
            proof {
                assert(v@.subrange(0, i + 1).drop_last() =~= v@.subrange(0, i as int));
                lemma_sum_prefix(v@, i + 1);
            }
            if v[i].health_status == HealthStatus::Healthy {
                healthy = healthy + 1;
            }
            sum = sum + v[i].response_time_ms;
            i = i + 1;
        }
        assert(v@.subrange(0, v@.len() as int) =~= v@);
        (healthy, sum)
    }

    /// The statistics of a service's instances: how many, how many are
    /// healthy, and their mean response time (0 without instances).
    pub fn service_stats(service_name: &str, v: &Vec<RegisteredInstance>) -> (s: ServiceStats)
        requires
            response_sum(v@) <= u64::MAX,
        ensures
            s.service_name@ == service_name@,
            s.total_instances == v@.len(),
            s.healthy_instances == healthy_count(v@),
            s.average_response_time_ms == if v@.len() == 0 { 0 } else { response_sum(v@) / (v@.len() as nat) },
    {
        let (healthy, sum) = Self::tally(v);
        let avg: u64 = if v.len() == 0 { 0 } else { sum / (v.len() as u64) };
        ServiceStats {
            service_name: own(service_name),
            total_instances: v.len(),
            healthy_instances: healthy,
            average_response_time_ms: avg,
        }
    }
}

/// Two instances alike in every field, the texts by their characters.
pub open spec fn same_instance(a: RegisteredInstance, b: RegisteredInstance) -> bool {
    &&& a.service_name@ == b.service_name@
    &&& a.instance_id@ == b.instance_id@
    &&& a.base_url@ == b.base_url@
    &&& a.health_status == b.health_status
    &&& a.last_health_check == b.last_health_check
    &&& a.response_time_ms == b.response_time_ms
    &&& a.error_count == b.error_count
    &&& a.success_count == b.success_count
    &&& a.metadata@.len() == b.metadata@.len()
    &&& forall|k: int| 0 <= k < a.metadata@.len() ==>
        (#[trigger] a.metadata@[k]).0@ == b.metadata@[k].0@ && a.metadata@[k].1@ == b.metadata@[k].1@
}

/// Two lists of instances alike position by position.
pub open spec fn same_instances(a: Seq<RegisteredInstance>, b: Seq<RegisteredInstance>) -> bool {
    a.len() == b.len() && forall|k: int| 0 <= k < a.len() ==> same_instance(#[trigger] a[k], b[k])
}

/// The healthy instances, in order.
pub open spec fn healthy_instances(v: Seq<RegisteredInstance>) -> Seq<RegisteredInstance>
    decreases v.len(),
{
    if v.len() == 0 {
        Seq::empty()
    } else if v.last().health_status == HealthStatus::Healthy {
        healthy_instances(v.drop_last()).push(v.last())
    } else {
        healthy_instances(v.drop_last())
    }
}

/// A copy of an instance.
pub fn copy_instance(i: &RegisteredInstance) -> (r: RegisteredInstance)
    ensures
        same_instance(r, *i),
{
    let mut metadata: Vec<(String, String)> = Vec::new();
    let mut k: usize = 0;
    while k < i.metadata.len()
        invariant
            k <= i.metadata@.len(),
            metadata@.len() == k,
            forall|j: int| 0 <= j < k ==>
                (#[trigger] metadata@[j]).0@ == i.metadata@[j].0@ && metadata@[j].1@ == i.metadata@[j].1@,
        decreases i.metadata.len() - k,
    {
        let pair = (own(i.metadata[k].0.as_str()), own(i.metadata[k].1.as_str()));
        metadata.push(pair);
        k = k + 1;
    }
    RegisteredInstance {
        service_name: own(i.service_name.as_str()),
        instance_id: own(i.instance_id.as_str()),
        base_url: own(i.base_url.as_str()),
        health_status: i.health_status,
        last_health_check: i.last_health_check,
        response_time_ms: i.response_time_ms,
        error_count: i.error_count,
        success_count: i.success_count,
        metadata,
    }
}

impl ServiceRegistry {
    /// Copies of all instances of a service (none for an unknown service).
    pub fn get_all_instances(&self, service_name: &str) -> (r: Vec<RegisteredInstance>)
        ensures
            same_instances(r@, instances_of(*self, service_name@)),
    {
        let mut r: Vec<RegisteredInstance> = Vec::new();
        match self.services.get(service_name) {
            Some(v) => {
                let mut k: usize = 0;
                while k < v.len()
                    invariant
                        k <= v@.len(),
                        same_instances(r@, v@.subrange(0, k as int)),
                    decreases v.len() - k,
                {
                    let c = copy_instance(&v[k]);
                    r.push(c);
                    k = k + 1;
                }
                assert(v@.subrange(0, v@.len() as int) =~= v@);
            },
            None => {},
        }
        r
    }

    /// Copies of the healthy instances of a service, in order.
    pub fn get_healthy_instances(&self, service_name: &str) -> (r: Vec<RegisteredInstance>)
        ensures
            same_instances(r@, healthy_instances(instances_of(*self, service_name@))),
    {
        let mut r: Vec<RegisteredInstance> = Vec::new();
        match self.services.get(service_name) {
            Some(v) => {
                let mut k: usize = 0;
                assert(v@.subrange(0, 0) =~= Seq::<RegisteredInstance>::empty());
                while k < v.len()
                    invariant
                        k <= v@.len(),
                        same_instances(r@, healthy_instances(v@.subrange(0, k as int))),
                    decreases v.len() - k,
                {
                    assert(v@.subrange(0, k + 1).drop_last() =~= v@.subrange(0, k as int));
                    if v[k].health_status == HealthStatus::Healthy {
                        let c = copy_instance(&v[k]);
                        r.push(c);
                    }
                    k = k + 1;
                }
                assert(v@.subrange(0, v@.len() as int) =~= v@);
            },
            None => {},
        }
        r
    }

    /// The statistics of every service, in the order of the table.
    pub fn get_service_stats(&self) -> (r: Vec<ServiceStats>)
        requires
            forall|k: int| 0 <= k < self.services.entries@.len() ==>
                response_sum((#[trigger] self.services.entries@[k]).1@) <= u64::MAX,
        ensures
            r@.len() == self.services.entries@.len(),
            forall|k: int| 0 <= k < r@.len() ==> {
                let (name, v) = self.services.entries@[k];
                let s = #[trigger] r@[k];
                &&& s.service_name@ == name@
                &&& s.total_instances == v@.len()
                &&& s.healthy_instances == healthy_count(v@)
                &&& s.average_response_time_ms == if v@.len() == 0 { 0 } else { response_sum(v@) / (v@.len() as nat) }
            },
    {
        let mut r: Vec<ServiceStats> = Vec::new();
        let mut k: usize = 0;
        while k < self.services.entries.len()
            invariant
                k <= self.services.entries@.len(),
                r@.len() == k,
                forall|j: int| 0 <= j < self.services.entries@.len() ==>
                    response_sum((#[trigger] self.services.entries@[j]).1@) <= u64::MAX,
                forall|j: int| 0 <= j < k ==> {
                    let (name, v) = self.services.entries@[j];
                    let s = #[trigger] r@[j];
                    &&& s.service_name@ == name@
                    &&& s.total_instances == v@.len()
                    &&& s.healthy_instances == healthy_count(v@)
                    &&& s.average_response_time_ms == if v@.len() == 0 { 0 } else { response_sum(v@) / (v@.len() as nat) }
                },
            decreases self.services.entries.len() - k,
        {
            let entry = &self.services.entries[k];
            let s = Self::service_stats(entry.0.as_str(), &entry.1);
            r.push(s);
            k = k + 1;
        }
        r
    }
}

/// An instance that a health check probes, and the address it probes.
pub struct HealthCheckTarget {
    pub service_name: String,
    pub instance_id: String,
    pub url: String,
}

/// The status that a probe shows: healthy on a success response, unhealthy
/// on any other response or on a failed request.
pub fn probe_status(success_response: bool) -> (h: HealthStatus)
    ensures
        h == (if success_response { HealthStatus::Healthy } else { HealthStatus::Unhealthy }),
{
    if success_response { HealthStatus::Healthy } else { HealthStatus::Unhealthy }
}

/// A probe as plain text: service, instance and address.
pub open spec fn target_view(t: HealthCheckTarget) -> (Seq<char>, Seq<char>, Seq<char>) {
    (t.service_name@, t.instance_id@, t.url@)
}

/// The probes of one service's instances, whose health path is `path`.
pub open spec fn service_probes(name: Seq<char>, v: Seq<RegisteredInstance>, path: Seq<char>) -> Seq<(Seq<char>, Seq<char>, Seq<char>)> {
    Seq::new(v.len(), |k: int| (name, v[k].instance_id@, v[k].base_url@ + path))
}

/// The probes of a round over the services `e`: those of each configured
/// service, service by service.
pub open spec fn round_probes(e: Seq<(String, Vec<RegisteredInstance>)>, configs: Seq<(String, ServiceConfig)>) -> Seq<(Seq<char>, Seq<char>, Seq<char>)>
    decreases e.len(),
{
    if e.len() == 0 {
        Seq::empty()
    } else {
        round_probes(e.drop_last(), configs) + match table_lookup(configs, e.last().0@) {
            Some(c) => service_probes(e.last().0@, e.last().1@, c.health_check_path@),
            None => Seq::empty(),
        }
    }
}

/// Appends the probes of one service's instances to `out`.
fn probes_of(name: &str, v: &Vec<RegisteredInstance>, path: &str, out: &mut Vec<HealthCheckTarget>)
    ensures
        final(out)@.len() == old(out)@.len() + v@.len(),
        forall|k: int| 0 <= k < old(out)@.len() ==> #[trigger] final(out)@[k] == old(out)@[k],
        forall|k: int| 0 <= k < v@.len() ==>
            target_view(#[trigger] final(out)@[old(out)@.len() + k]) == service_probes(name@, v@, path@)[k],
{
    let ghost start = old(out)@;
    let mut k: usize = 0;
    while k < v.len()
        invariant
            k <= v@.len(),
            out@.len() == start.len() + k,
            forall|j: int| 0 <= j < start.len() ==> #[trigger] out@[j] == start[j],
            forall|j: int| 0 <= j < k ==>
                target_view(#[trigger] out@[start.len() + j]) == service_probes(name@, v@, path@)[j],
        decreases v.len() - k,
    {
        let t = HealthCheckTarget {
            service_name: own(name),
            instance_id: own(v[k].instance_id.as_str()),
            url: join2(v[k].base_url.as_str(), path),
        };
        out.push(t);
        k = k + 1;
    }
}

impl ServiceRegistry {
    /// The probes of one health-check round: for each service of the table
    /// that has a configuration, one probe per instance, at the instance's
    /// base address followed by the service's health path.
    pub fn health_check_targets(&self, configs: &Table<ServiceConfig>) -> (r: Vec<HealthCheckTarget>)
        ensures
            r@.len() == round_probes(self.services.entries@, configs.entries@).len(),
            forall|k: int| 0 <= k < r@.len() ==>
                target_view(#[trigger] r@[k]) == round_probes(self.services.entries@, configs.entries@)[k],
    {
        let mut r: Vec<HealthCheckTarget> = Vec::new();
        let mut k: usize = 0;
        let ghost e = self.services.entries@;
        assert(e.subrange(0, 0) =~= Seq::<(String, Vec<RegisteredInstance>)>::empty());
        while k < self.services.entries.len()
            invariant
                k <= e.len(),
                e == self.services.entries@,
                r@.len() == round_probes(e.subrange(0, k as int), configs.entries@).len(),
                forall|j: int| 0 <= j < r@.len() ==>
                    target_view(#[trigger] r@[j]) == round_probes(e.subrange(0, k as int), configs.entries@)[j],
            decreases e.len() - k,
        {
            assert(e.subrange(0, k + 1).drop_last() =~= e.subrange(0, k as int));
            let entry = &self.services.entries[k];
            let ghost before = r@;
            match configs.get(entry.0.as_str()) {
                Some(c) => {
                    probes_of(entry.0.as_str(), &entry.1, c.health_check_path.as_str(), &mut r);
                },
                None => {},
            }
            proof {
                let sub = e.subrange(0, k + 1);
                let extra = match table_lookup(configs.entries@, sub.last().0@) {
                    Some(c) => service_probes(sub.last().0@, sub.last().1@, c.health_check_path@),
                    None => Seq::empty(),
                };
                assert(round_probes(sub, configs.entries@) == round_probes(e.subrange(0, k as int), configs.entries@) + extra);
                assert forall|j: int| 0 <= j < r@.len() implies
                    target_view(#[trigger] r@[j]) == round_probes(sub, configs.entries@)[j] by {
                    if j >= before.len() {
                        assert(r@[before.len() + (j - before.len())] == r@[j]);
                    }
                }
            }
            k = k + 1;
        }
        assert(e.subrange(0, e.len() as int) =~= e);
        r
    }

    /// Records the outcome of a probe made at `now`: the instance's status,
    /// check time and response time (its counts stay as they are).
    pub fn apply_health_check(&mut self, service_name: &str, instance_id: &str, status: HealthStatus, response_time: u64, now: Timestamp)
        requires
            distinct_keys(old(self).services.entries@),
        ensures
            distinct_keys(final(self).services.entries@),
            instances_of(*final(self), service_name@).len() == instances_of(*old(self), service_name@).len(),
            forall|k: int| 0 <= k < instances_of(*old(self), service_name@).len() ==> {
                let a = instances_of(*old(self), service_name@)[k];
                let b = #[trigger] instances_of(*final(self), service_name@)[k];
                if a.instance_id@ == instance_id@ && (forall|j: int| 0 <= j < k ==> (#[trigger] instances_of(*old(self), service_name@)[j]).instance_id@ != instance_id@) {
                    b == RegisteredInstance { health_status: status, last_health_check: now, response_time_ms: response_time, ..a }
                } else {
                    b == a
                }
            },
            forall|n: Seq<char>| n != service_name@ ==> #[trigger] instances_of(*final(self), n) == instances_of(*old(self), n),
    {
        match self.services.take(service_name) {
            Some(v) => {
                let mut v = v;
                match Self::find_instance(&v, instance_id) {
                    Some(i) => {
                        let mut inst = v.remove(i);
                        inst.health_status = status;
                        inst.last_health_check = now;
                        inst.response_time_ms = response_time;
                        v.insert(i, inst);
                    },
                    None => {},
                }
                self.services.insert(service_name, v);
            },
            None => {},
        }
    }
}

/// The number of healthy instances.
pub open spec fn healthy_count(v: Seq<RegisteredInstance>) -> nat
    decreases v.len(),
{
    if v.len() == 0 {
        0
    } else {
        healthy_count(v.drop_last()) + if v.last().health_status == HealthStatus::Healthy { 1nat } else { 0 }
    }
}

/// The sum of the instances' response times.
pub open spec fn response_sum(v: Seq<RegisteredInstance>) -> nat
    decreases v.len(),
{
    if v.len() == 0 {
        0
    } else {
        response_sum(v.drop_last()) + v.last().response_time_ms as nat
    }
}

proof fn lemma_sum_prefix(v: Seq<RegisteredInstance>, i: int)
    requires
        0 <= i <= v.len(),
    ensures
        response_sum(v.subrange(0, i)) <= response_sum(v),
    decreases v.len() - i,
{
    if i < v.len() {
        lemma_sum_prefix(v, i + 1);
        assert(v.subrange(0, i + 1).drop_last() =~= v.subrange(0, i));
    } else {
        assert(v.subrange(0, i) =~= v);
    }
}

} // verus!
