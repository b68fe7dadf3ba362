use std::time::Duration;
use std::time::Instant;
use std::time::SystemTime;
use vstd::prelude::*;

verus! {

/// `std::time::Instant`, a reading of the monotonic clock, as an opaque value.
#[verifier::external_type_specification]
#[verifier::external_body]
pub struct ExInstant(Instant);

/// `std::time::SystemTime`, a reading of the wall clock, as an opaque value.
#[verifier::external_type_specification]
#[verifier::external_body]
pub struct ExSystemTime(SystemTime);

/// Calls `SystemTime::now`: a reading of the wall clock.
#[verifier::external_body]
pub(crate) fn system_now() -> SystemTime {
    SystemTime::now()
}

/// Calls `SystemTime::duration_since` with the Unix epoch: the time from the
/// epoch to `t`, or nothing where `t` lies before the epoch.
#[verifier::external_body]
pub(crate) fn since_unix_epoch(t: &SystemTime) -> Option<Duration> {
    t.duration_since(SystemTime::UNIX_EPOCH).ok()
}

/// Calls `Duration::as_secs`: the whole seconds of a duration.
#[verifier::external_body]
pub(crate) fn duration_as_secs(d: &Duration) -> u64 {
    d.as_secs()
}

/// The date, in universal time, of the moment `secs` seconds after the Unix
/// epoch, written as year, month and day with hyphens between them, as
/// `chrono` writes it; none where `chrono` knows no such moment.
pub uninterp spec fn date_text(secs: i64) -> Option<Seq<char>>;

/// Calls `chrono::DateTime::from_timestamp`, which gives the moment `secs`
/// seconds after the Unix epoch or nothing where that is out of its range,
/// and writes the date of the moment with `DateTime::format`. What comes
/// back depends on `secs` alone.
#[verifier::external_body]
pub(crate) fn date_of(secs: i64) -> (r: Option<String>)
    ensures
        r is Some == date_text(secs) is Some,
        r matches Some(s) ==> date_text(secs) == Some(s@),
{
    match chrono::DateTime::from_timestamp(secs, 0) {
        Some(moment) => Some(moment.format("%Y-%m-%d").to_string()),
        None => None,
    }
}

/// The date of the moment that the reading `secs` of the wall clock stands
/// for; none where the reading is beyond what a date can be told of.
pub open spec fn date_at(secs: u64) -> Option<Seq<char>> {
    if secs <= i64::MAX {
        date_text(secs as i64)
    } else {
        None
    }
}

/// Tells the date of a reading of the wall clock in seconds.
pub fn date_today(secs: u64) -> (r: Option<String>)
    ensures
        r is Some == date_at(secs) is Some,
        r matches Some(s) ==> date_at(secs) == Some(s@),
{
    if secs > i64::MAX as u64 {
        None
    } else {
        date_of(secs as i64)
    }
}

/// The whole seconds from the Unix epoch to now; none where the wall clock
/// shows a time before the epoch.
pub fn unix_seconds() -> u64 {
    let t = system_now();
    match since_unix_epoch(&t) {
        Some(d) => duration_as_secs(&d),
        None => 0,
    }
}

/// The number of nanoseconds in one second.
pub const NANOS_PER_SEC: u64 = 1_000_000_000;

/// Calls `Instant::now`: a reading of the monotonic clock.
#[verifier::external_body]
pub(crate) fn instant_now() -> Instant {
    Instant::now()
}

/// Calls `Instant::elapsed`: the time that has passed since `start`.
#[verifier::external_body]
pub(crate) fn instant_elapsed(start: &Instant) -> Duration {
    start.elapsed()
}

/// Calls `Duration::as_nanos`: the whole duration in nanoseconds.
#[verifier::external_body]
pub(crate) fn duration_as_nanos(d: &Duration) -> u128 {
    d.as_nanos()
}

/// The nanoseconds that have passed since `start`, as far as they fit in
/// a `u64`.
pub fn nanos_since(start: &Instant) -> u64 {
    let d = instant_elapsed(start);
    let n: u128 = duration_as_nanos(&d);
    if n > u64::MAX as u128 {
        u64::MAX
    } else {
        n as u64
    }
}

/// The whole seconds from the reading `start` to the reading `now`, both in
/// nanoseconds; none where `now` lies before `start`.
pub open spec fn seconds_between(start: u64, now: u64) -> u64 {
    if now >= start {
        ((now - start) / (NANOS_PER_SEC as int)) as u64
    } else {
        0
    }
}

/// Computes [`seconds_between`].
pub fn elapsed_seconds(start: u64, now: u64) -> (s: u64)
    ensures
        s == seconds_between(start, now),
{
    if now >= start {
        (now - start) / NANOS_PER_SEC
    } else {
        0
    }
}

/// The later of two readings.
pub open spec fn later(a: u64, b: u64) -> u64 {
    if a >= b {
        a
    } else {
        b
    }
}

} // verus!
