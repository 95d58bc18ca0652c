//! Instants on the UTC time line, as seconds and nanoseconds since the Unix
//! epoch, within the range of dates the services can represent (years
//! -262143 to 262142).
use vstd::prelude::*;

use crate::gateway::middleware::system_now;

verus! {

/// The first second of the representable range (1 January -262143).
pub const MIN_SECS: i64 = -8334601315200;

/// The last second of the representable range (31 December 262142).
pub const MAX_SECS: i64 = 8210266876799;

/// A whole number of weeks, in seconds, that moves every representable
/// instant to a non-negative count.
pub const WEEK_ALIGNED_OFFSET: i64 = 8340192000000;

/// An instant: whole seconds since 1970-01-01T00:00:00Z and the nanoseconds
/// into that second.
#[derive(PartialEq, Eq, Structural, Clone, Copy, Debug)]
pub struct Timestamp {
    pub secs: i64,
    pub nanos: u32,
}

/// A time of day: seconds since midnight and nanoseconds into that second.
#[derive(PartialEq, Eq, Structural, Clone, Copy, Debug)]
pub struct TimeOfDay {
    pub secs: u32,
    pub nanos: u32,
}

/// The instant lies in the representable range.
pub open spec fn ts_valid(t: Timestamp) -> bool {
    MIN_SECS <= t.secs <= MAX_SECS && t.nanos < 1_000_000_000
}

/// `SystemTime::duration_since(UNIX_EPOCH)`, as whole seconds and the
/// nanoseconds into the last second; `None` where the time is before the
/// epoch. A `Duration`'s sub-second nanoseconds are below one second.
/// Nothing else is promised: the value is a clock reading.
#[verifier::external_body]
fn since_epoch(t: &std::time::SystemTime) -> (r: Option<(u64, u32)>)
    ensures
        r matches Some((s, n)) ==> n < 1_000_000_000,
{
    match t.duration_since(std::time::UNIX_EPOCH) {
        Ok(d) => Some((d.as_secs(), d.subsec_nanos())),
        Err(_) => None,
    }
}

/// The instant `secs` seconds and `nanos` nanoseconds after the epoch, or
/// `None` past the representable range.
pub fn timestamp_of(secs: u64, nanos: u32) -> (r: Option<Timestamp>)
    ensures
        (r == if secs <= MAX_SECS { Some(Timestamp { secs: secs as i64, nanos }) } else { None::<Timestamp> }),
{
    if secs <= MAX_SECS as u64 {
        Some(Timestamp { secs: secs as i64, nanos })
    } else {
        None
    }
}

/// The current instant, read from the system clock: the clock's reading
/// since the epoch through `timestamp_of`; `None` where the clock reads
/// before the epoch or past the representable range.
pub fn utc_now() -> (r: Option<Timestamp>)
    ensures
        r matches Some(t) ==> ts_valid(t) && t.secs >= 0,
{
    match since_epoch(&system_now()) {
        Some((s, n)) => timestamp_of(s, n),
        None => None,
    }
}

/// Nanoseconds since the epoch: the order of instants.
pub open spec fn ts_nanos(t: Timestamp) -> int {
    t.secs * 1_000_000_000 + t.nanos
}

/// Days since the epoch, rounded down.
pub open spec fn ts_day(t: Timestamp) -> int {
    (t.secs + WEEK_ALIGNED_OFFSET) / 86400 - WEEK_ALIGNED_OFFSET / 86400
}

/// The day of the week counted from Sunday (0) to Saturday (6); the epoch
/// fell on a Thursday.
pub open spec fn ts_weekday(t: Timestamp) -> int {
    (ts_day(t) + 4) % 7
}

/// The time of day of an instant.
pub open spec fn ts_time_of_day(t: Timestamp) -> TimeOfDay {
    TimeOfDay { secs: ((t.secs + WEEK_ALIGNED_OFFSET) % 86400) as u32, nanos: t.nanos }
}

/// An instant moved by a number of seconds.
pub open spec fn ts_plus(t: Timestamp, seconds: int) -> Timestamp {
    Timestamp { secs: (t.secs + seconds) as i64, nanos: t.nanos }
}

/// `a` is later than `b`: more seconds, or as many and more nanoseconds.
/// For instants whose nanoseconds are below a second this is the order of
/// `ts_nanos`.
pub open spec fn ts_later(a: Timestamp, b: Timestamp) -> bool {
    a.secs > b.secs || (a.secs == b.secs && a.nanos > b.nanos)
}

impl Timestamp {
    /// `self` is strictly later than `other`.
    pub fn later_than(&self, other: &Timestamp) -> (b: bool)
        ensures
            b == ts_later(*self, *other),
            self.nanos < 1_000_000_000 && other.nanos < 1_000_000_000 ==> b == (ts_nanos(*self) > ts_nanos(*other)),
    {
        self.secs > other.secs || (self.secs == other.secs && self.nanos > other.nanos)
    }

    /// `self` is strictly before `other`.
    pub fn before(&self, other: &Timestamp) -> (b: bool)
        requires
            self.nanos < 1_000_000_000,
            other.nanos < 1_000_000_000,
        ensures
            b == (ts_nanos(*self) < ts_nanos(*other)),
    {
        self.secs < other.secs || (self.secs == other.secs && self.nanos < other.nanos)
    }

    /// `self` plus `seconds` (negative to go back).
    pub fn plus_seconds(&self, seconds: i64) -> (t: Timestamp)
        requires
            ts_valid(*self),
            MIN_SECS <= self.secs + seconds <= MAX_SECS,
        ensures
            ts_valid(t),
            t == ts_plus(*self, seconds as int),
            ts_nanos(t) == ts_nanos(*self) + seconds * 1_000_000_000,
    {
        Timestamp { secs: self.secs + seconds, nanos: self.nanos }
    }

    /// The day of the week, from Sunday (0).
    pub fn weekday(&self) -> (d: u8)
        requires
            ts_valid(*self),
        ensures
            d == ts_weekday(*self),
            d < 7,
    {
        let shifted: u64 = (self.secs + WEEK_ALIGNED_OFFSET) as u64;
        let days: u64 = shifted / 86400;
        assert(WEEK_ALIGNED_OFFSET / 86400 == 96530000int);
        assert((days + 4) % 7 == (days - 96530000int + 4) % 7) by {
            vstd::arithmetic::div_mod::lemma_mod_multiples_vanish(13790000, (days - 96530000int + 4) as int, 7);
            assert(7 * 13790000int + (days - 96530000int + 4) == days + 4);
        }
        ((days + 4) % 7) as u8
    }

    /// The time of day.
    pub fn time_of_day(&self) -> (t: TimeOfDay)
        requires
            ts_valid(*self),
        ensures
            t == ts_time_of_day(*self),
            t.secs < 86400,
    {
        let shifted: u64 = (self.secs + WEEK_ALIGNED_OFFSET) as u64;
        TimeOfDay { secs: (shifted % 86400) as u32, nanos: self.nanos }
    }
}

} // verus!
