//! Clock readings and durations from the standard library.
//!
//! Readings of the clock depend on when they are taken, so nothing is promised of
//! their values; the logic that uses them takes the readings as arguments.
use vstd::prelude::*;

verus! {

#[verifier::external_type_specification]
#[verifier::external_body]
pub struct ExInstant(std::time::Instant);

#[verifier::external_type_specification]
#[verifier::external_body]
pub struct ExSystemTime(std::time::SystemTime);

/// `std::time::Instant::now()`: the current monotonic instant.
#[verifier::external_body]
pub(crate) fn instant_now() -> std::time::Instant {
    std::time::Instant::now()
}

/// Nanoseconds elapsed since `since`, read from the monotonic clock: the nanosecond
/// count of the elapsed duration, whatever the clock gave.
pub(crate) fn elapsed_ns(since: &std::time::Instant) -> (r: u128)
    ensures
        exists|d: std::time::Duration| r == #[trigger] duration_nanos(d),
{
    let d = instant_elapsed(since);
    duration_as_nanos(&d)
}

/// `Instant::elapsed`: the time since `since`. Depends on the clock: no value is promised.
#[verifier::external_body]
pub(crate) fn instant_elapsed(since: &std::time::Instant) -> std::time::Duration {
    since.elapsed()
}

/// Time from `earlier` to `later`, zero when `earlier` is the later of the two
/// (`Instant::duration_since`).
pub uninterp spec fn instant_gap(later: std::time::Instant, earlier: std::time::Instant) -> std::time::Duration;

/// `Instant::duration_since`: the time from `earlier` to `later`, saturating at zero.
/// The result is a function of the two instants alone, named `instant_gap`; nothing
/// more of its value is stated.
#[verifier::external_body]
pub(crate) fn instant_duration_since(later: &std::time::Instant, earlier: &std::time::Instant) -> (r: std::time::Duration)
    ensures
        r == instant_gap(*later, *earlier),
{
    later.duration_since(*earlier)
}

/// Total number of nanoseconds of a duration (`Duration::as_nanos`).
pub uninterp spec fn duration_nanos(d: std::time::Duration) -> u128;

/// `Duration::as_nanos`: the total number of nanoseconds of a duration.
#[verifier::external_body]
pub(crate) fn duration_as_nanos(d: &std::time::Duration) -> (r: u128)
    ensures
        r == duration_nanos(*d),
{
    d.as_nanos()
}

/// `Duration::as_secs`: the whole seconds of a duration.
#[verifier::external_body]
pub(crate) fn duration_as_secs(d: &std::time::Duration) -> (r: u64)
    ensures
        r == duration_nanos(*d) / 1_000_000_000,
{
    d.as_secs()
}

/// `Duration::from_secs`: a duration of `secs` whole seconds.
#[verifier::external_body]
pub(crate) fn duration_from_secs(secs: u64) -> (r: std::time::Duration)
    ensures
        duration_nanos(r) == secs as int * 1_000_000_000,
{
    std::time::Duration::from_secs(secs)
}

/// `Duration::from_millis`: a duration of `millis` milliseconds.
#[verifier::external_body]
pub(crate) fn duration_from_millis(millis: u64) -> (r: std::time::Duration)
    ensures
        duration_nanos(r) == millis as int * 1_000_000,
{
    std::time::Duration::from_millis(millis)
}

/// `SystemTime::now()`: the current wall-clock time.
#[verifier::external_body]
pub(crate) fn system_time_now() -> std::time::SystemTime {
    std::time::SystemTime::now()
}

/// Time elapsed from the Unix epoch to the wall-clock time `t`, or `None` for a time
/// before the epoch (`SystemTime::duration_since(UNIX_EPOCH)`).
pub uninterp spec fn unix_epoch_offset(t: std::time::SystemTime) -> Option<std::time::Duration>;

/// `SystemTime::duration_since(UNIX_EPOCH)`: the time elapsed since the Unix epoch, or
/// `None` for a time before it. The result is a function of `t` alone, named
/// `unix_epoch_offset`; nothing more of its value is stated.
#[verifier::external_body]
pub(crate) fn since_unix_epoch(t: &std::time::SystemTime) -> (r: Option<std::time::Duration>)
    ensures
        r == unix_epoch_offset(*t),
{
    t.duration_since(std::time::UNIX_EPOCH).ok()
}

/// Nanoseconds since the Unix epoch at wall-clock time `t`, truncated to `u64`; 0 before
/// the epoch.
pub open spec fn unix_nanos_at(t: std::time::SystemTime) -> u64 {
    match unix_epoch_offset(t) {
        Some(d) => duration_nanos(d) as u64,
        None => 0,
    }
}

/// Whole seconds since the Unix epoch at wall-clock time `t`; 0 before the epoch.
pub open spec fn unix_secs_at(t: std::time::SystemTime) -> u64 {
    match unix_epoch_offset(t) {
        Some(d) => (duration_nanos(d) / 1_000_000_000) as u64,
        None => 0,
    }
}

/// Nanoseconds since the Unix epoch of the current wall-clock time, truncated to `u64`;
/// 0 when the clock is before the epoch. Which time the clock gives is not stated.
pub(crate) fn unix_now_ns() -> (r: u64)
    ensures
        exists|t: std::time::SystemTime| r == #[trigger] unix_nanos_at(t),
{
    let now = system_time_now();
    let r: u64 = match since_unix_epoch(&now) {
        Some(d) => duration_as_nanos(&d) as u64,
        None => 0,
    };
    assert(r == unix_nanos_at(now));
    r
}

/// Whole seconds since the Unix epoch of the current wall-clock time; 0 when the clock
/// is before the epoch. Which time the clock gives is not stated.
pub(crate) fn unix_now_secs() -> (r: u64)
    ensures
        exists|t: std::time::SystemTime| r == #[trigger] unix_secs_at(t),
{
    let now = system_time_now();
    let r: u64 = match since_unix_epoch(&now) {
        Some(d) => duration_as_secs(&d),
        None => 0,
    };
    assert(r == unix_secs_at(now));
    r
}

} // verus!
