//! A task together with the instant it is due.
use vstd::prelude::*;
use crate::time::{now, Instant};
use std::cmp::Ordering;
use vstd::std_specs::cmp::{PartialEqSpecImpl, PartialOrdSpecImpl};

verus! {

/// A callback due at an instant.
pub struct TimeKey<C> {
    /// When the callback is due.
    pub time: Instant,
    /// What runs.
    pub callback: C,
}

impl<C> TimeKey<C> {
    /// The callback `callback` due at `time`.
    pub fn new(time: Instant, callback: C) -> (r: Self)
        ensures
            r.time == time,
            r.callback == callback,
    {
        TimeKey { time, callback }
    }

    /// Whether the callback is due by the current time of the clock. The reading
    /// itself is the clock's.
    pub fn is_ready(&self) -> (r: bool)
        ensures
            exists|reading: Instant| r == (#[trigger] reading@ >= self.time@),
    {
        self.is_ready_at(now())
    }

    /// Whether the callback is due at `now`.
    pub fn is_ready_at(&self, now: Instant) -> (r: bool)
        ensures
            r == (now@ >= self.time@),
    {
        !now.is_before(&self.time)
    }
}

/// How two instants, in nanoseconds, compare.
pub open spec fn nanos_order(a: nat, b: nat) -> Ordering {
    if a < b {
        Ordering::Less
    } else if a == b {
        Ordering::Equal
    } else {
        Ordering::Greater
    }
}

/// How `a` compares with `b`.
fn instant_order(a: &Instant, b: &Instant) -> (r: Ordering)
    ensures
        r == nanos_order(a@, b@),
{
    if a.is_before(b) {
        Ordering::Less
    } else if b.is_before(a) {
        Ordering::Greater
    } else {
        Ordering::Equal
    }
}

/// Keys are equal when they are due at the same instant.
impl<C> PartialEq for TimeKey<C> {
    fn eq(&self, other: &TimeKey<C>) -> (r: bool) {
        !self.time.is_before(&other.time) && !other.time.is_before(&self.time)
    }
}

impl<C> PartialEqSpecImpl for TimeKey<C> {
    open spec fn obeys_eq_spec() -> bool {
        true
    }

    open spec fn eq_spec(&self, other: &TimeKey<C>) -> bool {
        self.time@ == other.time@
    }
}

impl<C> Eq for TimeKey<C> {

}

/// Keys are ordered latest first, so that the earliest key is the greatest.
impl<C> PartialOrd for TimeKey<C> {
    fn partial_cmp(&self, other: &TimeKey<C>) -> (r: Option<Ordering>) {
        Some(instant_order(&other.time, &self.time))
    }
}

impl<C> PartialOrdSpecImpl for TimeKey<C> {
    open spec fn obeys_partial_cmp_spec() -> bool {
        true
    }

    open spec fn partial_cmp_spec(&self, other: &TimeKey<C>) -> Option<Ordering> {
        Some(nanos_order(other.time@, self.time@))
    }
}

/// A key equals an instant when it is due then.
impl<C> PartialEq<Instant> for TimeKey<C> {
    fn eq(&self, other: &Instant) -> (r: bool) {
        !self.time.is_before(other) && !other.is_before(&self.time)
    }
}

impl<C> PartialEqSpecImpl<Instant> for TimeKey<C> {
    open spec fn obeys_eq_spec() -> bool {
        true
    }

    open spec fn eq_spec(&self, other: &Instant) -> bool {
        self.time@ == other@
    }
}

/// A key compares with an instant latest first, as keys compare with each other.
impl<C> PartialOrd<Instant> for TimeKey<C> {
    fn partial_cmp(&self, other: &Instant) -> (r: Option<Ordering>) {
        Some(instant_order(other, &self.time))
    }
}

impl<C> PartialOrdSpecImpl<Instant> for TimeKey<C> {
    open spec fn obeys_partial_cmp_spec() -> bool {
        true
    }

    open spec fn partial_cmp_spec(&self, other: &Instant) -> Option<Ordering> {
        Some(nanos_order(other@, self.time@))
    }
}

} // verus!
