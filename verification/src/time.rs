//! Spans of time and points in time, counted in nanoseconds, and a timer.
use vstd::prelude::*;

verus! {

/// The number of nanoseconds in a second.
pub const NANOS_PER_SEC: u128 = 1_000_000_000;

/// The longest span a [`Duration`] can hold: `u64::MAX` seconds and 999,999,999 nanoseconds.
pub const MAX_NANOS: u128 = 18_446_744_073_709_551_615_999_999_999;

/// A span of time, in nanoseconds, of at most [`MAX_NANOS`].
#[derive(Debug, Clone, Copy, PartialEq, Eq, Structural, PartialOrd, Ord, Hash)]
pub struct Duration {
    nanos: u128,
}

impl View for Duration {
    /// The length in nanoseconds.
    type V = nat;

    closed spec fn view(&self) -> nat {
        self.nanos as nat
    }
}

impl Duration {
    #[verifier::type_invariant]
    spec fn in_range(&self) -> bool {
        self.nanos <= MAX_NANOS
    }

    /// A duration of `nanos` nanoseconds.
    pub fn new(nanos: u128) -> (r: Duration)
        requires
            nanos <= MAX_NANOS,
        ensures
            r@ == nanos,
    {
        Duration { nanos }
    }

    /// The empty duration.
    pub fn zero() -> (r: Duration)
        ensures
            r@ == 0,
    {
        Duration { nanos: 0 }
    }

    /// A duration of `nanos` nanoseconds.
    pub fn from_nanos(nanos: u64) -> (r: Duration)
        ensures
            r@ == nanos,
    {
        Duration { nanos: nanos as u128 }
    }

    /// A duration of `micros` microseconds.
    pub fn from_micros(micros: u64) -> (r: Duration)
        ensures
            r@ == micros * 1000,
    {
        Duration { nanos: micros as u128 * 1000 }
    }

    /// A duration of `millis` milliseconds.
    pub fn from_millis(millis: u64) -> (r: Duration)
        ensures
            r@ == millis * 1_000_000,
    {
        Duration { nanos: millis as u128 * 1_000_000 }
    }

    /// A duration of `secs` seconds.
    pub fn from_secs(secs: u64) -> (r: Duration)
        ensures
            r@ == secs * NANOS_PER_SEC,
    {
        Duration { nanos: secs as u128 * NANOS_PER_SEC }
    }

    /// The length in nanoseconds, which is at most [`MAX_NANOS`].
    pub fn as_nanos(&self) -> (r: u128)
        ensures
            r == self@,
            r <= MAX_NANOS,
    {
        proof {
            use_type_invariant(self);
        }
        self.nanos
    }

    /// The whole seconds of the length.
    pub fn as_secs(&self) -> (r: u64)
        ensures
            r == self@ / NANOS_PER_SEC as nat,
    {
        proof {
            use_type_invariant(self);
        }
        (self.nanos / NANOS_PER_SEC) as u64
    }

    /// The nanoseconds beyond the whole seconds.
    pub fn subsec_nanos(&self) -> (r: u32)
        ensures
            r == self@ % NANOS_PER_SEC as nat,
    {
        (self.nanos % NANOS_PER_SEC) as u32
    }

    /// The sum of two durations, or `None` when it is too long.
    pub fn checked_add(self, other: Duration) -> (r: Option<Duration>)
        ensures
            r is Some <==> self@ + other@ <= MAX_NANOS,
            r is Some ==> r->0@ == self@ + other@,
    {
        proof {
            use_type_invariant(&self);
            use_type_invariant(&other);
        }
        let sum = self.nanos + other.nanos;
        if sum <= MAX_NANOS {
            Some(Duration { nanos: sum })
        } else {
            None
        }
    }

    /// The difference of two durations, or zero when `other` is the longer.
    pub fn saturating_sub(self, other: Duration) -> (r: Duration)
        ensures
            r@ == if self@ >= other@ {
                self@ - other@
            } else {
                0
            },
    {
        proof {
            use_type_invariant(&self);
        }
        if self.nanos >= other.nanos {
            Duration { nanos: self.nanos - other.nanos }
        } else {
            Duration { nanos: 0 }
        }
    }
}

/// A point in time, in nanoseconds since the epoch of the clock it was read from,
/// at most [`MAX_NANOS`].
#[derive(Debug, Clone, Copy, PartialEq, Eq, Structural, PartialOrd, Ord, Hash)]
pub struct Instant {
    nanos: u128,
}

impl View for Instant {
    /// Nanoseconds since the epoch.
    type V = nat;

    closed spec fn view(&self) -> nat {
        self.nanos as nat
    }
}

impl Instant {
    #[verifier::type_invariant]
    spec fn in_range(&self) -> bool {
        self.nanos <= MAX_NANOS
    }

    /// The instant `nanos` nanoseconds after the epoch.
    pub fn from_nanos(nanos: u128) -> (r: Instant)
        requires
            nanos <= MAX_NANOS,
        ensures
            r@ == nanos,
    {
        Instant { nanos }
    }

    /// Nanoseconds since the epoch, which are at most [`MAX_NANOS`].
    pub fn as_nanos(&self) -> (r: u128)
        ensures
            r == self@,
            r <= MAX_NANOS,
    {
        proof {
            use_type_invariant(self);
        }
        self.nanos
    }

    /// Whether `self` comes before `other`.
    pub fn is_before(&self, other: &Instant) -> (r: bool)
        ensures
            r == (self@ < other@),
    {
        self.nanos < other.nanos
    }

    /// The instant `duration` after this one, or `None` when it is out of range.
    pub fn checked_add(self, duration: Duration) -> (r: Option<Instant>)
        ensures
            r is Some <==> self@ + duration@ <= MAX_NANOS,
            r is Some ==> r->0@ == self@ + duration@,
    {
        proof {
            use_type_invariant(&self);
        }
        let sum = self.nanos + duration.as_nanos();
        if sum <= MAX_NANOS {
            Some(Instant { nanos: sum })
        } else {
            None
        }
    }

    /// The instant `duration` after this one.
    pub fn add(self, duration: Duration) -> (r: Instant)
        requires
            self@ + duration@ <= MAX_NANOS,
        ensures
            r@ == self@ + duration@,
    {
        Instant { nanos: self.nanos + duration.as_nanos() }
    }

    /// The instant `duration` after this one, or the last representable instant
    /// when that is out of range.
    pub(crate) fn saturating_add(self, duration: Duration) -> (r: Instant)
        ensures
            r@ == if self@ + duration@ <= MAX_NANOS {
                self@ + duration@
            } else {
                MAX_NANOS as nat
            },
            r@ >= duration@,
    {
        proof {
            use_type_invariant(&duration);
        }
        match self.checked_add(duration) {
            Some(t) => t,
            None => Instant { nanos: MAX_NANOS },
        }
    }

    /// The time from `earlier` to this instant, or zero when `earlier` is later.
    pub fn duration_since(&self, earlier: Instant) -> (r: Duration)
        ensures
            r@ == if self@ >= earlier@ {
                self@ - earlier@
            } else {
                0
            },
    {
        proof {
            use_type_invariant(self);
        }
        if self.nanos >= earlier.nanos {
            Duration::new(self.nanos - earlier.nanos)
        } else {
            Duration::zero()
        }
    }
}

/// Reads the system clock: `std::time::SystemTime::now()`, as nanoseconds since the
/// Unix epoch (zero for a reading before the epoch). Nothing is promised of the
/// reading beyond the range that every [`Instant`] keeps; two readings may differ
/// in either direction.
#[verifier::external_body]
pub fn now() -> (r: Instant) {
    let reading = std::time::SystemTime::now().duration_since(std::time::UNIX_EPOCH);
    let since = reading.unwrap_or(std::time::Duration::ZERO);
    Instant { nanos: since.as_nanos() }
}

/// A stopwatch started at some instant.
#[derive(Debug, Clone, Copy, PartialEq, Eq, Structural, PartialOrd, Ord, Hash)]
pub struct Timer {
    time: Instant,
}

impl Timer {
    /// The instant the timer was started or last reset.
    pub closed spec fn spec_start(&self) -> Instant {
        self.time
    }

    /// A timer started at the current time of the clock.
    pub fn start() -> (r: Timer) {
        Timer::start_at(now())
    }

    /// A timer started at `now`.
    pub fn start_at(now: Instant) -> (r: Timer)
        ensures
            r.spec_start() == now,
    {
        Timer { time: now }
    }

    /// The instant the timer was started or last reset.
    pub fn start_time(self) -> (r: Instant)
        ensures
            r == self.spec_start(),
    {
        self.time
    }

    /// The time from the start to the current time of the clock (zero if the clock
    /// reads earlier). The reading itself is the clock's.
    pub fn elapsed(&self) -> (r: Duration)
        ensures
            exists|reading: Instant|
                r@ == if #[trigger] reading@ >= self.spec_start()@ {
                    reading@ - self.spec_start()@
                } else {
                    0
                },
    {
        self.elapsed_at(now())
    }

    /// The time from the start to `now` (zero if `now` is earlier).
    pub fn elapsed_at(&self, now: Instant) -> (r: Duration)
        ensures
            r@ == if now@ >= self.spec_start()@ {
                now@ - self.spec_start()@
            } else {
                0
            },
    {
        now.duration_since(self.time)
    }

    /// Reads the clock and starts the timer again at that reading, then returns the
    /// time from the previous start to a second reading of the clock (zero if that
    /// reads earlier). The readings themselves are the clock's.
    pub fn time(&mut self) -> (r: Duration)
        ensures
            exists|first: Instant, second: Instant|
                #![trigger first@, second@]
                final(self).spec_start() == first && r@ == if second@ >= old(self).spec_start()@ {
                    second@ - old(self).spec_start()@
                } else {
                    0
                },
    {
        let previous = Timer { time: self.time };
        let first = now();
        self.reset_at(first);
        let r = previous.elapsed_at(now());
        let ghost new_start = first@;
        r
    }

    /// The time from the start to `now`; the timer then starts again at `now`.
    pub fn time_at(&mut self, now: Instant) -> (r: Duration)
        ensures
            r@ == if now@ >= old(self).spec_start()@ {
                now@ - old(self).spec_start()@
            } else {
                0
            },
            final(self).spec_start() == now,
    {
        let elapsed = now.duration_since(self.time);
        self.time = now;
        elapsed
    }

    /// Starts the timer again at the current time of the clock.
    pub fn reset(&mut self) {
        self.reset_at(now())
    }

    /// Runs `f` and measures how long it took by the clock.
    pub fn measure_time<R, F: FnOnce() -> R>(f: F) -> (r: (Duration, R))
        requires
            f.requires(()),
        ensures
            f.ensures((), r.1),
    {
        let timer = Timer::start();
        let result = f();
        (timer.elapsed(), result)
    }

    /// Starts the timer again at `now`.
    pub fn reset_at(&mut self, now: Instant)
        ensures
            final(self).spec_start() == now,
    {
        self.time = now;
    }
}

/// The result of a measured computation, with when it started and how long it took.
pub struct MeasureTimeResult<T> {
    pub start_time: Instant,
    pub result: T,
    pub duration: Duration,
}

impl<T> MeasureTimeResult<T> {
    /// The measurement of a computation that ran from `start_time` to `end_time`.
    pub fn new(start_time: Instant, result: T, end_time: Instant) -> (r: Self)
        ensures
            r.start_time == start_time,
            r.result == result,
            r.duration@ == if end_time@ >= start_time@ {
                end_time@ - start_time@
            } else {
                0
            },
    {
        MeasureTimeResult { start_time, result, duration: end_time.duration_since(start_time) }
    }
}

} // verus!
