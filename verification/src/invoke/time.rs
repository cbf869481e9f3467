//! Building durations and deadlines.
use vstd::prelude::*;
use crate::time::{Duration, Instant, MAX_NANOS, NANOS_PER_SEC};
pub use crate::time::now;

verus! {

/// `count` microseconds.
pub fn micros(count: u64) -> (r: Duration)
    ensures
        r@ == count * 1000,
{
    Duration::from_micros(count)
}

/// `count` milliseconds.
pub fn millis(count: u64) -> (r: Duration)
    ensures
        r@ == count * 1_000_000,
{
    Duration::from_millis(count)
}

/// `count` nanoseconds.
pub fn nanos(count: u64) -> (r: Duration)
    ensures
        r@ == count,
{
    Duration::from_nanos(count)
}

/// `count` seconds.
pub fn secs(count: u64) -> (r: Duration)
    ensures
        r@ == count * NANOS_PER_SEC,
{
    Duration::from_secs(count)
}

/// `count` minutes; the number of seconds must fit in a `u64`.
pub fn mins(count: u64) -> (r: Duration)
    requires
        count * 60 <= u64::MAX,
    ensures
        r@ == count * 60 * NANOS_PER_SEC,
{
    Duration::from_secs(count * 60)
}

/// `count` hours; the number of seconds must fit in a `u64`.
pub fn hours(count: u64) -> (r: Duration)
    requires
        count * 3600 <= u64::MAX,
    ensures
        r@ == count * 3600 * NANOS_PER_SEC,
{
    Duration::from_secs(count * 3600)
}

/// `count` days; the number of seconds must fit in a `u64`.
pub fn days(count: u64) -> (r: Duration)
    requires
        count * 86400 <= u64::MAX,
    ensures
        r@ == count * 86400 * NANOS_PER_SEC,
{
    Duration::from_secs(count * 86400)
}

/// The instant `duration` after `now`.
pub fn after_from(now: Instant, duration: Duration) -> (r: Instant)
    requires
        now@ + duration@ <= MAX_NANOS,
    ensures
        r@ == now@ + duration@,
{
    now.add(duration)
}

/// The instant `micros` microseconds after `now`.
pub fn after_micros_from(now: Instant, micros: u64) -> (r: Instant)
    requires
        now@ + micros * 1000 <= MAX_NANOS,
    ensures
        r@ == now@ + micros * 1000,
{
    after_from(now, Duration::from_micros(micros))
}

/// The instant `millis` milliseconds after `now`.
pub fn after_millis_from(now: Instant, millis: u64) -> (r: Instant)
    requires
        now@ + millis * 1_000_000 <= MAX_NANOS,
    ensures
        r@ == now@ + millis * 1_000_000,
{
    after_from(now, Duration::from_millis(millis))
}

/// The instant `nanos` nanoseconds after `now`.
pub fn after_nanos_from(now: Instant, nanos: u64) -> (r: Instant)
    requires
        now@ + nanos <= MAX_NANOS,
    ensures
        r@ == now@ + nanos,
{
    after_from(now, Duration::from_nanos(nanos))
}

/// The instant `secs` seconds after `now`.
pub fn after_secs_from(now: Instant, secs: u64) -> (r: Instant)
    requires
        now@ + secs * NANOS_PER_SEC <= MAX_NANOS,
    ensures
        r@ == now@ + secs * NANOS_PER_SEC,
{
    after_from(now, Duration::from_secs(secs))
}

/// The instant `mins` minutes after `now`.
pub fn after_mins_from(now: Instant, mins: u64) -> (r: Instant)
    requires
        mins * 60 <= u64::MAX,
        now@ + mins * 60 * NANOS_PER_SEC <= MAX_NANOS,
    ensures
        r@ == now@ + mins * 60 * NANOS_PER_SEC,
{
    after_from(now, Duration::from_secs(mins * 60))
}

/// The instant `hours` hours after `now`.
pub fn after_hours_from(now: Instant, hours: u64) -> (r: Instant)
    requires
        hours * 3600 <= u64::MAX,
        now@ + hours * 3600 * NANOS_PER_SEC <= MAX_NANOS,
    ensures
        r@ == now@ + hours * 3600 * NANOS_PER_SEC,
{
    after_from(now, Duration::from_secs(hours * 3600))
}

/// The instant `days` days after `now`.
pub fn after_days_from(now: Instant, days: u64) -> (r: Instant)
    requires
        days * 86400 <= u64::MAX,
        now@ + days * 86400 * NANOS_PER_SEC <= MAX_NANOS,
    ensures
        r@ == now@ + days * 86400 * NANOS_PER_SEC,
{
    after_from(now, Duration::from_secs(days * 86400))
}

/// The instant `duration` after the current time of the clock, or the last
/// representable instant when that is out of range.
pub fn after(duration: Duration) -> (r: Instant)
    ensures
        r@ >= duration@,
{
    now().saturating_add(duration)
}

/// The instant `micros` microseconds after the current time of the clock, or the last
/// representable instant when that is out of range.
pub fn after_micros(micros: u64) -> (r: Instant)
    ensures
        r@ >= micros * 1000,
{
    after(Duration::from_micros(micros))
}

/// The instant `millis` milliseconds after the current time of the clock, or the last
/// representable instant when that is out of range.
pub fn after_millis(millis: u64) -> (r: Instant)
    ensures
        r@ >= millis * 1_000_000,
{
    after(Duration::from_millis(millis))
}

/// The instant `nanos` nanoseconds after the current time of the clock, or the last
/// representable instant when that is out of range.
pub fn after_nanos(nanos: u64) -> (r: Instant)
    ensures
        r@ >= nanos,
{
    after(Duration::from_nanos(nanos))
}

/// The instant `secs` seconds after the current time of the clock, or the last
/// representable instant when that is out of range.
pub fn after_secs(secs: u64) -> (r: Instant)
    ensures
        r@ >= secs * NANOS_PER_SEC,
{
    after(Duration::from_secs(secs))
}

/// The instant `mins` minutes after the current time of the clock, or the last
/// representable instant when that is out of range.
pub fn after_mins(mins: u64) -> (r: Instant)
    requires
        mins * 60 <= u64::MAX,
    ensures
        r@ >= mins * 60 * NANOS_PER_SEC,
{
    after(Duration::from_secs(mins * 60))
}

/// The instant `hours` hours after the current time of the clock, or the last
/// representable instant when that is out of range.
pub fn after_hours(hours: u64) -> (r: Instant)
    requires
        hours * 3600 <= u64::MAX,
    ensures
        r@ >= hours * 3600 * NANOS_PER_SEC,
{
    after(Duration::from_secs(hours * 3600))
}

/// The instant `days` days after the current time of the clock, or the last
/// representable instant when that is out of range.
pub fn after_days(days: u64) -> (r: Instant)
    requires
        days * 86400 <= u64::MAX,
    ensures
        r@ >= days * 86400 * NANOS_PER_SEC,
{
    after(Duration::from_secs(days * 86400))
}

} // verus!
