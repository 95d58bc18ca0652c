//! Session scheduling rules: when a session may be booked, when it ends,
//! what a conflict or missing availability answers, what an update writes,
//! and when a session may still be cancelled.
use vstd::prelude::*;
use crate::common::AppError;
use crate::meetings::models::{SessionStatus, NotificationType};
use crate::time::{Timestamp, TimeOfDay, ts_valid, ts_nanos, ts_weekday, ts_time_of_day, ts_plus, MIN_SECS, MAX_SECS};
use crate::text::{own, push_uuid, uuid_text, push_decimal, decimal, push_char};

verus! {

/// The fields a session update may change; each one given is written.
pub struct UpdateSessionRequest {
    pub title: Option<String>,
    pub description: Option<String>,
    pub scheduled_start: Option<Timestamp>,
    pub duration_minutes: Option<u32>,
    pub status: Option<SessionStatus>,
    pub notes: Option<String>,
}

/// `r` is the error `BadRequest(message)`.
pub open spec fn bad_request(r: Result<(), AppError>, message: Seq<char>) -> bool {
    r matches Err(AppError::BadRequest(m)) && m@ == message
}

/// Seconds in a day.
pub open spec fn day_secs() -> int {
    86400
}

/// Why a session starting at `start` for `duration` minutes cannot be
/// booked at `now`, if so: it must lie in the future, last from 15 minutes
/// to 4 hours, and start at most 30 days ahead.
pub open spec fn booking_problem(start: Timestamp, duration: u32, now: Timestamp) -> Option<Seq<char>> {
    if ts_nanos(start) <= ts_nanos(now) {
        Some("Session must be scheduled in the future"@)
    } else if duration < 15 || duration > 240 {
        Some("Session duration must be between 15 minutes and 4 hours"@)
    } else if ts_nanos(start) > ts_nanos(now) + 30 * day_secs() * 1_000_000_000 {
        Some("Cannot book sessions more than 30 days in advance"@)
    } else {
        None
    }
}

/// Only a session in the future, lasting from 15 minutes to 4 hours and
/// starting at most 30 days ahead, can be booked; a future session shorter
/// than 15 minutes or longer than 240 is refused for its duration, and one
/// in the past or now for its start.
pub proof fn law_booking_bounds(start: Timestamp, duration: u32, now: Timestamp)
    ensures
        booking_problem(start, duration, now) is None ==> 15 <= duration <= 240 && ts_nanos(now) < ts_nanos(start)
            && ts_nanos(start) <= ts_nanos(now) + 30 * 86400 * 1_000_000_000,
        ts_nanos(now) < ts_nanos(start) && (duration < 15 || duration > 240)
            ==> booking_problem(start, duration, now) == Some("Session duration must be between 15 minutes and 4 hours"@),
        ts_nanos(start) <= ts_nanos(now) ==> booking_problem(start, duration, now) == Some("Session must be scheduled in the future"@),
{
}

/// `parts` joined by `sep`.
pub open spec fn joined(parts: Seq<Seq<char>>, sep: Seq<char>) -> Seq<char>
    decreases parts.len(),
{
    if parts.len() == 0 {
        Seq::empty()
    } else if parts.len() == 1 {
        parts[0]
    } else {
        joined(parts.drop_last(), sep) + sep + parts.last()
    }
}

/// `$n`.
pub open spec fn placeholder(n: nat) -> Seq<char> {
    seq!['$'] + decimal(n)
}

/// The columns an update writes, in order; the end is written only with a
/// new start and a duration.
pub open spec fn update_columns(r: UpdateSessionRequest) -> Seq<Seq<char>> {
    (if r.title is Some { seq!["title"@] } else { Seq::empty() })
        + (if r.description is Some { seq!["description"@] } else { Seq::empty() })
        + (if r.scheduled_start is Some { seq!["scheduled_start"@] } else { Seq::empty() })
        + (if r.scheduled_start is Some && r.duration_minutes is Some { seq!["scheduled_end"@] } else { Seq::empty() })
        + (if r.status is Some { seq!["status"@] } else { Seq::empty() })
        + (if r.notes is Some { seq!["notes"@] } else { Seq::empty() })
}

/// `column = $n` for each column, numbered from 1.
pub open spec fn assignments(cols: Seq<Seq<char>>) -> Seq<Seq<char>>
    decreases cols.len(),
{
    if cols.len() == 0 {
        Seq::empty()
    } else {
        assignments(cols.drop_last()).push(cols.last() + " = "@ + placeholder(cols.len()))
    }
}

/// The statement an update runs: the given columns and `updated_at`, for
/// the session bound last; nothing when no column is given.
pub open spec fn update_sql(r: UpdateSessionRequest) -> Option<Seq<char>> {
    let cols = update_columns(r);
    if cols.len() == 0 {
        None
    } else {
        let all = cols.push("updated_at"@);
        Some("UPDATE mentorship_sessions SET "@ + joined(assignments(all), ", "@) + " WHERE session_id = "@
            + placeholder(all.len() + 1))
    }
}

/// Whether a session at `start` for `duration` minutes may be booked at
/// `now` (see `booking_problem`).
pub fn validate_session_request(start: Timestamp, duration_minutes: u32, now: Timestamp) -> (r: Result<(), AppError>)
    requires
        ts_valid(start),
        ts_valid(now),
        now.secs + 30 * 86400 <= MAX_SECS,
    ensures
        match booking_problem(start, duration_minutes, now) {
            Some(m) => bad_request(r, m),
            None => r is Ok,
        },
        r is Ok ==> 15 <= duration_minutes <= 240 && ts_nanos(now) < ts_nanos(start)
            && ts_nanos(start) <= ts_nanos(now) + 30 * 86400 * 1_000_000_000,
        ts_nanos(now) < ts_nanos(start) && (duration_minutes < 15 || duration_minutes > 240)
            ==> bad_request(r, "Session duration must be between 15 minutes and 4 hours"@),
{
    if !now.before(&start) {
        return Err(AppError::BadRequest(own("Session must be scheduled in the future")));
    }
    if duration_minutes < 15 || duration_minutes > 240 {
        return Err(AppError::BadRequest(own("Session duration must be between 15 minutes and 4 hours")));
    }
    let max_advance = now.plus_seconds(30 * 86400);
    if max_advance.before(&start) {
        return Err(AppError::BadRequest(own("Cannot book sessions more than 30 days in advance")));
    }
    Ok(())
}

/// The end of a session: its start plus its duration.
pub fn session_end(start: Timestamp, duration_minutes: u32) -> (t: Timestamp)
    requires
        ts_valid(start),
        start.secs + duration_minutes * 60 <= MAX_SECS,
    ensures
        ts_valid(t),
        t == ts_plus(start, duration_minutes * 60),
        ts_nanos(t) == ts_nanos(start) + duration_minutes * 60 * 1_000_000_000,
{
    start.plus_seconds(duration_minutes as i64 * 60)
}

/// A booking that overlaps another session of the mentor is refused.
pub fn conflict_outcome(conflict_count: i64) -> (r: Result<(), AppError>)
    ensures
        conflict_count > 0 ==> bad_request(r, "Scheduling conflict detected"@),
        conflict_count <= 0 ==> r is Ok,
{
    if conflict_count > 0 {
        return Err(AppError::BadRequest(own("Scheduling conflict detected")));
    }
    Ok(())
}

/// A booking outside every availability window of the mentor is refused.
pub fn availability_outcome(available_count: i64) -> (r: Result<(), AppError>)
    ensures
        available_count == 0 ==> bad_request(r, "Mentor is not available at the requested time"@),
        available_count != 0 ==> r is Ok,
{
    if available_count == 0 {
        return Err(AppError::BadRequest(own("Mentor is not available at the requested time")));
    }
    Ok(())
}

/// What the availability check compares: the weekday of the start and the
/// times of day of the start and of the end.
pub fn availability_window(start: Timestamp, duration_minutes: u32) -> (r: (u8, TimeOfDay, TimeOfDay))
    requires
        ts_valid(start),
        start.secs + duration_minutes * 60 <= MAX_SECS,
    ensures
        r.0 == ts_weekday(start),
        r.1 == ts_time_of_day(start),
        r.2 == ts_time_of_day(ts_plus(start, duration_minutes * 60)),
{
    let end = session_end(start, duration_minutes);
    (start.weekday(), start.time_of_day(), end.time_of_day())
}

/// A session may be cancelled only 24 hours or more before it starts.
pub fn cancellation_outcome(scheduled_start: Timestamp, now: Timestamp) -> (r: Result<(), AppError>)
    requires
        ts_valid(scheduled_start),
        ts_valid(now),
        now.secs + 86400 <= MAX_SECS,
    ensures
        ts_nanos(scheduled_start) - ts_nanos(now) < 86400 * 1_000_000_000 ==> bad_request(r, "Cannot cancel session within 24 hours"@),
        ts_nanos(scheduled_start) - ts_nanos(now) >= 86400 * 1_000_000_000 ==> r is Ok,
{
    let limit = now.plus_seconds(86400);
    if scheduled_start.before(&limit) {
        return Err(AppError::BadRequest(own("Cannot cancel session within 24 hours")));
    }
    Ok(())
}

/// The note a cancellation records: the reason given, else `Cancelled by
/// user`.
pub fn cancellation_note(reason: Option<&str>) -> (n: String)
    ensures
        n@ == match reason { Some(t) => t@, None => "Cancelled by user"@ },
{
    match reason {
        Some(t) => own(t),
        None => own("Cancelled by user"),
    }
}

/// The notification an update sends, by the status it sets.
pub fn status_notification(status: Option<SessionStatus>) -> (n: Option<NotificationType>)
    ensures
        n == match status {
            Some(SessionStatus::Cancelled) => Some(NotificationType::SessionCancellation),
            Some(SessionStatus::Rescheduled) => Some(NotificationType::SessionRescheduled),
            _ => None::<NotificationType>,
        },
{
    match status {
        Some(SessionStatus::Cancelled) => Some(NotificationType::SessionCancellation),
        Some(SessionStatus::Rescheduled) => Some(NotificationType::SessionRescheduled),
        _ => None,
    }
}

/// An update checks for conflicts when it moves the session and gives a
/// duration.
pub fn update_checks_conflicts(request: &UpdateSessionRequest) -> (b: bool)
    ensures
        b == (request.scheduled_start is Some && request.duration_minutes is Some),
{
    request.scheduled_start.is_some() && request.duration_minutes.is_some()
}

/// The cache entry of a user's availability: `availability:<id>`.
pub fn availability_cache_key(user_id: u128) -> (k: String)
    ensures
        k@ == "availability:"@ + uuid_text(user_id),
{
    let mut k = own("availability:");
    push_uuid(&mut k, user_id);
    k
}

fn push_placeholder(s: &mut String, n: u64)
    ensures
        final(s)@ == old(s)@ + placeholder(n as nat),
{
    push_char(s, '$');
    push_decimal(s, n);
    assert(old(s)@.push('$') + decimal(n as nat) =~= old(s)@ + placeholder(n as nat));
}

/// The columns an update writes, in order (see `update_columns`).
fn columns_of(request: &UpdateSessionRequest) -> (cols: Vec<&'static str>)
    ensures
        cols@.len() == update_columns(*request).len(),
        cols@.len() <= 6,
        forall|k: int| 0 <= k < cols@.len() ==> (#[trigger] cols@[k])@ == update_columns(*request)[k],
{
    let mut cols: Vec<&'static str> = Vec::new();
    if request.title.is_some() {
        cols.push("title");
    }
    if request.description.is_some() {
        cols.push("description");
    }
    if request.scheduled_start.is_some() {
        cols.push("scheduled_start");
        if request.duration_minutes.is_some() {
            cols.push("scheduled_end");
        }
    }
    if request.status.is_some() {
        cols.push("status");
    }
    if request.notes.is_some() {
        cols.push("notes");
    }
    proof {
        let given = update_columns(*request);
        assert(cols@.map_values(|c: &'static str| c@) =~= given);
        assert forall|k: int| 0 <= k < cols@.len() implies (#[trigger] cols@[k])@ == given[k] by {
            assert(cols@.map_values(|c: &'static str| c@)[k] == cols@[k]@);
        }
    }
    cols
}

/// The statement that sets `cols` and names the session last.
fn render_update(cols: &Vec<&'static str>, Ghost(all): Ghost<Seq<Seq<char>>>) -> (q: String)
    requires
        cols@.len() == all.len(),
        cols@.len() <= 7,
        forall|k: int| 0 <= k < cols@.len() ==> (#[trigger] cols@[k])@ == all[k],
    ensures
        q@ == "UPDATE mentorship_sessions SET "@ + joined(assignments(all), ", "@) + " WHERE session_id = "@
            + placeholder(all.len() + 1),
{
    let mut q = own("UPDATE mentorship_sessions SET ");
    let ghost prefix = q@;
    let mut i: usize = 0;
    assert(all.subrange(0, 0) =~= Seq::<Seq<char>>::empty());
    while i < cols.len()
        invariant
            i <= cols@.len(),
            cols@.len() == all.len(),
            cols@.len() <= 7,
            forall|k: int| 0 <= k < cols@.len() ==> (#[trigger] cols@[k])@ == all[k],
            q@ == prefix + joined(assignments(all.subrange(0, i as int)), ", "@),
        decreases cols.len() - i,
    {
        let ghost prev = all.subrange(0, i as int);
        let ghost sub = all.subrange(0, i + 1);
        let ghost item = all[i as int] + " = "@ + placeholder((i + 1) as nat);
        proof {
            assert(sub.drop_last() =~= prev);
            assert(sub.last() == all[i as int]);
            lemma_assignments_len(prev);
            assert(assignments(sub) =~= assignments(prev).push(item));
            lemma_joined_push(assignments(prev), item, ", "@);
        }
        if i > 0 {
            q.append(", ");
        }
        q.append(cols[i]);
        q.append(" = ");
        push_placeholder(&mut q, (i + 1) as u64);
        proof {
            if i == 0 {
                assert(assignments(prev).len() == 0);
                assert(q@ =~= prefix + item);
            } else {
                assert(q@ =~= prefix + joined(assignments(prev), ", "@) + ", "@ + item);
            }
        }
        i = i + 1;
    }
    assert(all.subrange(0, all.len() as int) =~= all);
    q.append(" WHERE session_id = ");
    push_placeholder(&mut q, (cols.len() + 1) as u64);
    q
}

proof fn lemma_joined_push(parts: Seq<Seq<char>>, x: Seq<char>, sep: Seq<char>)
    ensures
        joined(parts.push(x), sep) == if parts.len() == 0 { x } else { joined(parts, sep) + sep + x },
{
    assert(parts.push(x).drop_last() =~= parts);
}

/// The statement an update runs (see `update_sql`).
pub fn update_statement(request: &UpdateSessionRequest) -> (r: Option<String>)
    ensures
        match update_sql(*request) {
            Some(q) => r matches Some(s) && s@ == q,
            None => r is None,
        },
{
    let mut cols = columns_of(request);
    if cols.len() == 0 {
        return None;
    }
    let ghost all = update_columns(*request).push("updated_at"@);
    cols.push("updated_at");
    Some(render_update(&cols, Ghost(all)))
}

proof fn lemma_assignments_len(cols: Seq<Seq<char>>)
    ensures
        assignments(cols).len() == cols.len(),
    decreases cols.len(),
{
    if cols.len() > 0 {
        lemma_assignments_len(cols.drop_last());
    }
}

} // verus!
