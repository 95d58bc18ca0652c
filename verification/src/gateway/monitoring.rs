//! Request counting and alerts: which conditions raise an alert, what the
//! alert says, and which alerts are kept.
use vstd::prelude::*;
use crate::text::{join2, join3, own, push_signed_decimal, signed_decimal, str_eq};

verus! {

#[derive(PartialEq, Eq, Structural, Clone, Copy, Debug)]
pub enum AlertLevel {
    Info,
    Warning,
    Error,
    Critical,
}

/// An alert raised by the monitor.
pub struct Alert {
    pub id: String,
    pub level: AlertLevel,
    pub message: String,
    pub service: Option<String>,
    pub timestamp: i64,
    pub resolved: bool,
}

/// The gateway's request counters. (Averages, rates and percentiles are
/// floating-point figures and are kept beside these.)
#[derive(PartialEq, Eq, Structural, Clone, Copy, Debug)]
pub struct RequestCounters {
    pub total_requests: u64,
    pub successful_requests: u64,
    pub failed_requests: u64,
}

impl RequestCounters {
    /// No request yet.
    pub fn new() -> (c: Self)
        ensures
            c.total_requests == 0 && c.successful_requests == 0 && c.failed_requests == 0,
    {
        RequestCounters { total_requests: 0, successful_requests: 0, failed_requests: 0 }
    }

    /// Counts a request: one more in all, and one more success or failure.
    pub fn record_request(&mut self, success: bool)
        requires
            old(self).total_requests < u64::MAX,
            success ==> old(self).successful_requests < u64::MAX,
            !success ==> old(self).failed_requests < u64::MAX,
        ensures
            final(self).total_requests == old(self).total_requests + 1,
            final(self).successful_requests == old(self).successful_requests + (if success { 1int } else { 0 }),
            final(self).failed_requests == old(self).failed_requests + (if success { 0int } else { 1 }),
    {
        self.total_requests = self.total_requests + 1;
        if success {
            self.successful_requests = self.successful_requests + 1;
        } else {
            self.failed_requests = self.failed_requests + 1;
        }
    }
}

/// Some request failed and failures are above 5% of all requests
/// (`100 * failed / total > 5`, that is `20 * failed > total`).
pub open spec fn error_rate_high(failed: u64, total: u64) -> bool {
    failed > 0 && 20 * failed > total
}

/// Whether the error rate calls for an alert.
pub fn error_rate_exceeded(failed: u64, total: u64) -> (b: bool)
    ensures
        b == error_rate_high(failed, total),
        b <==> (failed > 0 && 100 * failed > 5 * total),
{
    failed > 0 && (failed as u128) * 20 > (total as u128)
}

/// An open alert raised at `now`.
pub open spec fn raised(a: Alert, id: Seq<char>, level: AlertLevel, message: Seq<char>, service: Option<Seq<char>>, now: i64) -> bool {
    &&& a.id@ == id
    &&& a.level == level
    &&& a.message@ == message
    &&& match (a.service, service) {
        (Some(x), Some(y)) => x@ == y,
        (None, None) => true,
        _ => false,
    }
    &&& a.timestamp == now
    &&& !a.resolved
}

/// The warning about a high error rate; `message` states the rate.
pub fn error_rate_alert(message: &str, now: i64) -> (a: Alert)
    ensures
        raised(a, "error_rate_"@ + signed_decimal(now as int), AlertLevel::Warning, message@, None, now),
{
    let mut id = own("error_rate_");
    push_signed_decimal(&mut id, now);
    Alert { id, level: AlertLevel::Warning, message: own(message), service: None, timestamp: now, resolved: false }
}

/// The warning about a high mean response time; `message` states it.
pub fn response_time_alert(message: &str, now: i64) -> (a: Alert)
    ensures
        raised(a, "response_time_"@ + signed_decimal(now as int), AlertLevel::Warning, message@, None, now),
{
    let mut id = own("response_time_");
    push_signed_decimal(&mut id, now);
    Alert { id, level: AlertLevel::Warning, message: own(message), service: None, timestamp: now, resolved: false }
}

/// The error about an unhealthy service.
pub open spec fn unhealthy_service_alert(a: Alert, name: Seq<char>, now: i64) -> bool {
    raised(
        a,
        "service_health_"@ + name + "_"@ + signed_decimal(now as int),
        AlertLevel::Error,
        "Service "@ + name + " is unhealthy"@,
        Some(name),
        now,
    )
}

/// The services (name and status word) whose status is not `healthy`.
pub open spec fn unhealthy_services(health: Seq<(String, String)>) -> Seq<Seq<char>>
    decreases health.len(),
{
    if health.len() == 0 {
        Seq::empty()
    } else if health.last().1@ != "healthy"@ {
        unhealthy_services(health.drop_last()).push(health.last().0@)
    } else {
        unhealthy_services(health.drop_last())
    }
}

/// One error alert for each service whose status is not `healthy`, in order.
pub fn service_health_alerts(health: &Vec<(String, String)>, now: i64) -> (r: Vec<Alert>)
    ensures
        r@.len() == unhealthy_services(health@).len(),
        forall|k: int| 0 <= k < r@.len() ==>
            unhealthy_service_alert(#[trigger] r@[k], unhealthy_services(health@)[k], now),
{
    let mut r: Vec<Alert> = Vec::new();
    let mut k: usize = 0;
    assert(health@.subrange(0, 0) =~= Seq::<(String, String)>::empty());
    while k < health.len()
        invariant
            k <= health@.len(),
            r@.len() == unhealthy_services(health@.subrange(0, k as int)).len(),
            forall|j: int| 0 <= j < r@.len() ==>
                unhealthy_service_alert(#[trigger] r@[j], unhealthy_services(health@.subrange(0, k as int))[j], now),
        decreases health.len() - k,
    {
        assert(health@.subrange(0, k + 1).drop_last() =~= health@.subrange(0, k as int));
        let name = health[k].0.as_str();
        if !str_eq(health[k].1.as_str(), "healthy") {
            let mut id = join3("service_health_", name, "_");
            push_signed_decimal(&mut id, now);
            let a = Alert {
                id,
                level: AlertLevel::Error,
                message: join3("Service ", name, " is unhealthy"),
                service: Some(own(name)),
                timestamp: now,
                resolved: false,
            };
            r.push(a);
        }
        k = k + 1;
    }
    assert(health@.subrange(0, health@.len() as int) =~= health@);
    r
}

/// An alert stays while it is less than a day old or unresolved. (The age
/// in whole hours, `(now - timestamp) / 3600` rounded toward zero, is below
/// 24 exactly when `now - timestamp < 86400`.)
pub open spec fn alert_kept(a: Alert, now: i64) -> bool {
    now - a.timestamp < 86400 || !a.resolved
}

/// The alerts that stay, in order.
pub open spec fn kept_alerts(s: Seq<Alert>, now: i64) -> Seq<Alert>
    decreases s.len(),
{
    if s.len() == 0 {
        Seq::empty()
    } else if alert_kept(s.last(), now) {
        kept_alerts(s.drop_last(), now).push(s.last())
    } else {
        kept_alerts(s.drop_last(), now)
    }
}

/// The last (at most) hundred of a list.
pub open spec fn last_hundred(s: Seq<Alert>) -> Seq<Alert> {
    if s.len() > 100 { s.subrange(s.len() - 100, s.len() as int) } else { s }
}

proof fn lemma_kept_len(s: Seq<Alert>, now: i64)
    ensures
        kept_alerts(s, now).len() <= s.len(),
    decreases s.len(),
{
    if s.len() > 0 {
        lemma_kept_len(s.drop_last(), now);
    }
}

/// After pruning, at most a hundred alerts remain, each of them either
/// younger than a day or unresolved, in their former order.
pub proof fn law_pruned_alerts_bounded(alerts: Seq<Alert>, now: i64)
    ensures
        last_hundred(kept_alerts(alerts, now)).len() <= 100,
        forall|k: int| 0 <= k < last_hundred(kept_alerts(alerts, now)).len()
            ==> alert_kept(#[trigger] last_hundred(kept_alerts(alerts, now))[k], now),
{
    lemma_kept_all(alerts, now);
}

proof fn lemma_kept_all(alerts: Seq<Alert>, now: i64)
    ensures
        forall|k: int| 0 <= k < kept_alerts(alerts, now).len() ==> alert_kept(#[trigger] kept_alerts(alerts, now)[k], now),
    decreases alerts.len(),
{
    if alerts.len() > 0 {
        lemma_kept_all(alerts.drop_last(), now);
        let r = kept_alerts(alerts.drop_last(), now);
        if alert_kept(alerts.last(), now) {
            assert forall|k: int| 0 <= k < kept_alerts(alerts, now).len() implies alert_kept(#[trigger] kept_alerts(alerts, now)[k], now) by {
                if k < r.len() {
                    assert(kept_alerts(alerts, now)[k] == r[k]);
                }
            }
        }
    }
}

/// Drops resolved alerts older than a day, then keeps the last hundred.
pub fn prune_alerts(alerts: &mut Vec<Alert>, now: i64)
    requires
        forall|k: int| 0 <= k < old(alerts)@.len() ==>
            i64::MIN <= now - (#[trigger] old(alerts)@[k]).timestamp <= i64::MAX,
    ensures
        final(alerts)@ == last_hundred(kept_alerts(old(alerts)@, now)),
{
    let ghost orig = old(alerts)@;
    let ghost mut j: int = 0;
    let mut i: usize = 0;
    assert(orig.subrange(0, 0) =~= Seq::<Alert>::empty());
    assert(alerts@ =~= kept_alerts(orig.subrange(0, 0), now) + orig.subrange(0, orig.len() as int));
    while i < alerts.len()
        invariant
            0 <= j <= orig.len(),
            i == kept_alerts(orig.subrange(0, j), now).len(),
            alerts@ == kept_alerts(orig.subrange(0, j), now) + orig.subrange(j, orig.len() as int),
            forall|k: int| 0 <= k < orig.len() ==>
                i64::MIN <= now - (#[trigger] orig[k]).timestamp <= i64::MAX,
        decreases orig.len() - j,
    {
        proof {
            lemma_kept_len(orig.subrange(0, j), now);
            assert(orig.subrange(0, j + 1).drop_last() =~= orig.subrange(0, j));
            assert(alerts@[i as int] == orig[j]);
        }
        let keep = now - alerts[i].timestamp < 86400 || !alerts[i].resolved;
        if keep {
            i = i + 1;
        } else {
            alerts.remove(i);
        }
        proof {
            j = j + 1;
            assert(alerts@ =~= kept_alerts(orig.subrange(0, j), now) + orig.subrange(j, orig.len() as int));
        }
    }
    proof {
        assert(orig.subrange(0, orig.len() as int) =~= orig);
        assert(alerts@ =~= kept_alerts(orig, now));
    }
    let ghost kept = alerts@;
    while alerts.len() > 100
        invariant
            kept.len() >= alerts@.len(),
            alerts@.len() >= 100 || alerts@.len() == kept.len(),
            alerts@ == kept.subrange(kept.len() - alerts@.len(), kept.len() as int),
        decreases alerts.len(),
    {
        alerts.remove(0);
    }
    assert(alerts@ =~= last_hundred(kept));
}

} // verus!
