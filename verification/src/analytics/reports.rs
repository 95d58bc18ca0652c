//! Who may read analytics, the counts derived from the daily figures, the
//! default period of a metrics query, the keys of cached metrics and
//! counted events, and the outcomes of report lookups.
use vstd::prelude::*;
use crate::common::AppError;
use crate::analytics::models::ReportType;
use crate::time::{Timestamp, ts_valid, ts_plus, MIN_SECS};
use crate::text::{own, join2, join3, listed, contains_text};

verus! {

/// The counts of users that the user metrics derive from the daily
/// figures: a week is seven days and a month thirty.
#[derive(PartialEq, Eq, Structural, Clone, Copy, Debug)]
pub struct UserCounts {
    pub total_users: i64,
    pub active_users_daily: i64,
    pub active_users_weekly: i64,
    pub active_users_monthly: i64,
    pub new_users_today: i64,
    pub new_users_this_week: i64,
    pub new_users_this_month: i64,
}

/// Administrators and analysts may read analytics.
pub fn require_analytics_access(roles: &Vec<String>) -> (r: Result<(), AppError>)
    ensures
        (listed(roles@, "admin"@) || listed(roles@, "analyst"@)) ==> r is Ok,
        !(listed(roles@, "admin"@) || listed(roles@, "analyst"@)) ==> (r matches Err(AppError::Forbidden(m))
            && m@ == "Analytics access required"@),
{
    if !contains_text(roles, "admin") && !contains_text(roles, "analyst") {
        return Err(AppError::Forbidden(own("Analytics access required")));
    }
    Ok(())
}

/// The user counts, scaled from the daily figures.
pub fn user_counts(total_users: i64, active_users_daily: i64, new_users_today: i64) -> (c: UserCounts)
    requires
        i64::MIN <= active_users_daily * 30 <= i64::MAX,
        i64::MIN <= new_users_today * 30 <= i64::MAX,
    ensures
        c == (UserCounts {
            total_users,
            active_users_daily,
            active_users_weekly: (active_users_daily * 7) as i64,
            active_users_monthly: (active_users_daily * 30) as i64,
            new_users_today,
            new_users_this_week: (new_users_today * 7) as i64,
            new_users_this_month: (new_users_today * 30) as i64,
        }),
{
    UserCounts {
        total_users,
        active_users_daily,
        active_users_weekly: active_users_daily * 7,
        active_users_monthly: active_users_daily * 30,
        new_users_today,
        new_users_this_week: new_users_today * 7,
        new_users_this_month: new_users_today * 30,
    }
}

/// The sessions that were not completed.
pub fn cancelled_sessions(total_sessions: i64, completed_sessions: i64) -> (n: i64)
    requires
        i64::MIN <= total_sessions - completed_sessions <= i64::MAX,
    ensures
        n == total_sessions - completed_sessions,
{
    total_sessions - completed_sessions
}

/// The hours with most sessions (14:00 to 18:00).
pub fn peak_hours() -> (v: Vec<i32>)
    ensures
        v@ == seq![14i32, 15, 16, 17, 18],
{
    let mut v: Vec<i32> = Vec::new();
    v.push(14);
    v.push(15);
    v.push(16);
    v.push(17);
    v.push(18);
    assert(v@ =~= seq![14i32, 15, 16, 17, 18]);
    v
}

/// The period a metrics query covers: the one given, else the 30 days up
/// to `now`.
pub fn metrics_period(range: Option<(Timestamp, Timestamp)>, now: Timestamp) -> (r: (Timestamp, Timestamp))
    requires
        ts_valid(now),
        now.secs - 30 * 86400 >= MIN_SECS,
    ensures
        r == match range {
            Some(p) => p,
            None => (ts_plus(now, -30 * 86400), now),
        },
{
    match range {
        Some(p) => p,
        None => (now.plus_seconds(-30 * 86400), now),
    }
}

/// The counter of an event: `events:<category>:<name>`.
pub fn event_counter_key(category: &str, name: &str) -> (k: String)
    ensures
        k@ == "events:"@ + category@ + ":"@ + name@,
{
    let a = join3("events:", category, ":");
    join2(a.as_str(), name)
}

/// How a report type is stored: its name as a JSON string.
pub fn report_type_json(t: ReportType) -> (s: &'static str)
    ensures
        s@ == match t {
            ReportType::UserActivity => "\"UserActivity\""@,
            ReportType::Revenue => "\"Revenue\""@,
            ReportType::SessionAnalytics => "\"SessionAnalytics\""@,
            ReportType::MentorPerformance => "\"MentorPerformance\""@,
            ReportType::PlatformHealth => "\"PlatformHealth\""@,
            ReportType::Custom => "\"Custom\""@,
        },
{
    match t {
        ReportType::UserActivity => "\"UserActivity\"",
        ReportType::Revenue => "\"Revenue\"",
        ReportType::SessionAnalytics => "\"SessionAnalytics\"",
        ReportType::MentorPerformance => "\"MentorPerformance\"",
        ReportType::PlatformHealth => "\"PlatformHealth\"",
        ReportType::Custom => "\"Custom\"",
    }
}

/// The metrics summary a generated report adds, fetched besides the
/// report's query.
#[derive(PartialEq, Eq, Structural, Clone, Copy, Debug)]
pub enum ReportMetrics {
    NoMetrics,
    /// Revenue metrics, under `revenue_summary`.
    Revenue,
    /// Session metrics, under `session_summary`.
    Sessions,
    /// Platform metrics, under `platform_summary`.
    Platform,
}

/// The query statistics a generated report carries.
#[derive(PartialEq, Eq, Structural, Clone, Copy, Debug)]
pub enum ReportStats {
    NoStats,
    /// Row count and query time, under `summary`.
    Summary,
    /// Row count, query time and whether the result was cached, under
    /// `metadata`.
    Metadata,
}

/// The fixed indicators a generated report carries.
#[derive(PartialEq, Eq, Structural, Clone, Copy, Debug)]
pub enum ReportIndicators {
    NoIndicators,
    /// Rating, completion rate and response time, under
    /// `performance_indicators`.
    MentorPerformance,
    /// Uptime, error rate and response time, under `health_indicators`.
    PlatformHealth,
}

/// How a report of a type is generated: under which key the query's rows
/// stand, and which metrics, statistics and indicators come with them.
pub struct ReportPlan {
    pub rows_key: &'static str,
    pub metrics: ReportMetrics,
    pub stats: ReportStats,
    pub indicators: ReportIndicators,
}

/// The plan of a report type: user activity gives the rows under `data`
/// with a summary; revenue, session analytics and platform health add
/// their metrics (rows under `detailed_data`, none for platform health,
/// which adds its health indicators); mentor performance gives the rows as
/// `mentor_metrics` with performance indicators; custom reports give the
/// rows under `data` with metadata.
pub open spec fn plan_of(t: ReportType) -> (Seq<char>, ReportMetrics, ReportStats, ReportIndicators) {
    match t {
        ReportType::UserActivity => ("data"@, ReportMetrics::NoMetrics, ReportStats::Summary, ReportIndicators::NoIndicators),
        ReportType::Revenue => ("detailed_data"@, ReportMetrics::Revenue, ReportStats::NoStats, ReportIndicators::NoIndicators),
        ReportType::SessionAnalytics => ("detailed_data"@, ReportMetrics::Sessions, ReportStats::NoStats, ReportIndicators::NoIndicators),
        ReportType::MentorPerformance => ("mentor_metrics"@, ReportMetrics::NoMetrics, ReportStats::NoStats, ReportIndicators::MentorPerformance),
        ReportType::PlatformHealth => (""@, ReportMetrics::Platform, ReportStats::NoStats, ReportIndicators::PlatformHealth),
        ReportType::Custom => ("data"@, ReportMetrics::NoMetrics, ReportStats::Metadata, ReportIndicators::NoIndicators),
    }
}

/// How a report of type `t` is generated (see `plan_of`); a plan whose
/// rows key is empty leaves the rows out.
pub fn report_plan(t: ReportType) -> (p: ReportPlan)
    ensures
        (p.rows_key@, p.metrics, p.stats, p.indicators) == plan_of(t),
{
    match t {
        ReportType::UserActivity => ReportPlan { rows_key: "data", metrics: ReportMetrics::NoMetrics, stats: ReportStats::Summary, indicators: ReportIndicators::NoIndicators },
        ReportType::Revenue => ReportPlan { rows_key: "detailed_data", metrics: ReportMetrics::Revenue, stats: ReportStats::NoStats, indicators: ReportIndicators::NoIndicators },
        ReportType::SessionAnalytics => ReportPlan { rows_key: "detailed_data", metrics: ReportMetrics::Sessions, stats: ReportStats::NoStats, indicators: ReportIndicators::NoIndicators },
        ReportType::MentorPerformance => ReportPlan { rows_key: "mentor_metrics", metrics: ReportMetrics::NoMetrics, stats: ReportStats::NoStats, indicators: ReportIndicators::MentorPerformance },
        ReportType::PlatformHealth => ReportPlan { rows_key: "", metrics: ReportMetrics::Platform, stats: ReportStats::NoStats, indicators: ReportIndicators::PlatformHealth },
        ReportType::Custom => ReportPlan { rows_key: "data", metrics: ReportMetrics::NoMetrics, stats: ReportStats::Metadata, indicators: ReportIndicators::NoIndicators },
    }
}

/// A report lookup or deletion that matched no report of the user's.
pub fn report_outcome(found: bool) -> (r: Result<(), AppError>)
    ensures
        found ==> r is Ok,
        !found ==> (r matches Err(AppError::NotFound(m)) && m@ == "Report not found"@),
{
    if !found {
        return Err(AppError::NotFound(own("Report not found")));
    }
    Ok(())
}

/// The key under which a kind of metrics is cached, and for how many
/// seconds: platform metrics ten minutes, the others five.
pub fn metrics_cache(kind: &str) -> (r: (String, u64))
    ensures
        r.0@ == "metrics:"@ + kind@,
        r.1 == if kind@ == "platform"@ { 600u64 } else { 300u64 },
{
    let ttl: u64 = if crate::text::str_eq(kind, "platform") { 600 } else { 300 };
    (join2("metrics:", kind), ttl)
}

} // verus!
