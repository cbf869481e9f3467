//! What a running task can see: when it was due, the shared state, and the scheduler.
use vstd::prelude::*;
use crate::time::{Duration, Instant, MAX_NANOS, NANOS_PER_SEC};
use super::scheduler::{inserted_in_order, Scheduler};
use super::time_key::TimeKey;

verus! {

/// The context handed to a running task.
pub struct TaskContext<'a, C, Ctx> {
    /// The instant the task was scheduled for.
    pub time: Instant,
    /// The shared state.
    pub shared: &'a mut Ctx,
    /// The scheduler that runs the task.
    pub scheduler: &'a mut Scheduler<C>,
}

impl<'a, C, Ctx> TaskContext<'a, C, Ctx> {
    /// A context from its parts.
    pub fn from_parts(time: Instant, shared: &'a mut Ctx, scheduler: &'a mut Scheduler<C>) -> (r: Self)
        ensures
            r.time == time,
            *r.shared == *old(shared),
            *final(shared) == *final(r.shared),
            *r.scheduler == *old(scheduler),
            *final(scheduler) == *final(r.scheduler),
    {
        TaskContext { time, shared, scheduler }
    }

    /// Schedules `callback` at `time`.
    pub fn at(&mut self, time: Instant, callback: C)
        ensures
            final(self).scheduler.wf(),
            final(self).time == old(self).time,
            inserted_in_order(old(self).scheduler.queue(), TimeKey { time, callback }, final(self).scheduler.queue()),
    {
        self.scheduler.at(time, callback);
    }

    /// Schedules `callback` at the current time of the clock.
    pub fn now(&mut self, callback: C)
        ensures
            final(self).scheduler.wf(),
            final(self).time == old(self).time,
            exists|t: Instant|
                #[trigger] t@ <= MAX_NANOS && inserted_in_order(
                    old(self).scheduler.queue(),
                    TimeKey { time: t, callback },
                    final(self).scheduler.queue(),
                ),
    {
        self.scheduler.now(callback);
    }

    /// Schedules `callback` `duration` past the instant of this run (`time`).
    pub fn after(&mut self, duration: Duration, callback: C)
        requires
            old(self).time@ + duration@ <= MAX_NANOS,
        ensures
            final(self).scheduler.wf(),
            final(self).time == old(self).time,
            exists|t: Instant|
                #[trigger] t@ == old(self).time@ + duration@ && inserted_in_order(
                    old(self).scheduler.queue(),
                    TimeKey { time: t, callback },
                    final(self).scheduler.queue(),
                ),
    {
        let t = self.time.add(duration);
        self.scheduler.at(t, callback);
    }

    /// Schedules `callback` `micros` microseconds past the instant of this run (`time`).
    pub fn after_micros(&mut self, micros: u64, callback: C)
        requires
            old(self).time@ + micros * 1000 <= MAX_NANOS,
        ensures
            final(self).scheduler.wf(),
            final(self).time == old(self).time,
            exists|t: Instant|
                #[trigger] t@ == old(self).time@ + micros * 1000 && inserted_in_order(
                    old(self).scheduler.queue(),
                    TimeKey { time: t, callback },
                    final(self).scheduler.queue(),
                ),
    {
        let t = self.time.add(Duration::from_micros(micros));
        self.scheduler.at(t, callback);
    }

    /// Schedules `callback` `millis` milliseconds past the instant of this run (`time`).
    pub fn after_millis(&mut self, millis: u64, callback: C)
        requires
            old(self).time@ + millis * 1_000_000 <= MAX_NANOS,
        ensures
            final(self).scheduler.wf(),
            final(self).time == old(self).time,
            exists|t: Instant|
                #[trigger] t@ == old(self).time@ + millis * 1_000_000 && inserted_in_order(
                    old(self).scheduler.queue(),
                    TimeKey { time: t, callback },
                    final(self).scheduler.queue(),
                ),
    {
        let t = self.time.add(Duration::from_millis(millis));
        self.scheduler.at(t, callback);
    }

    /// Schedules `callback` `nanos` nanoseconds past the instant of this run (`time`).
    pub fn after_nanos(&mut self, nanos: u64, callback: C)
        requires
            old(self).time@ + nanos <= MAX_NANOS,
        ensures
            final(self).scheduler.wf(),
            final(self).time == old(self).time,
            exists|t: Instant|
                #[trigger] t@ == old(self).time@ + nanos && inserted_in_order(
                    old(self).scheduler.queue(),
                    TimeKey { time: t, callback },
                    final(self).scheduler.queue(),
                ),
    {
        let t = self.time.add(Duration::from_nanos(nanos));
        self.scheduler.at(t, callback);
    }

    /// Schedules `callback` `secs` seconds past the instant of this run (`time`).
    pub fn after_secs(&mut self, secs: u64, callback: C)
        requires
            old(self).time@ + secs * NANOS_PER_SEC <= MAX_NANOS,
        ensures
            final(self).scheduler.wf(),
            final(self).time == old(self).time,
            exists|t: Instant|
                #[trigger] t@ == old(self).time@ + secs * NANOS_PER_SEC && inserted_in_order(
                    old(self).scheduler.queue(),
                    TimeKey { time: t, callback },
                    final(self).scheduler.queue(),
                ),
    {
        let t = self.time.add(Duration::from_secs(secs));
        self.scheduler.at(t, callback);
    }

    /// Schedules `callback` `mins` minutes past the instant of this run (`time`).
    pub fn after_mins(&mut self, mins: u64, callback: C)
        requires
            mins * 60 <= u64::MAX,
            old(self).time@ + mins * 60 * NANOS_PER_SEC <= MAX_NANOS,
        ensures
            final(self).scheduler.wf(),
            final(self).time == old(self).time,
            exists|t: Instant|
                #[trigger] t@ == old(self).time@ + mins * 60 * NANOS_PER_SEC && inserted_in_order(
                    old(self).scheduler.queue(),
                    TimeKey { time: t, callback },
                    final(self).scheduler.queue(),
                ),
    {
        let t = self.time.add(Duration::from_secs(mins * 60));
        self.scheduler.at(t, callback);
    }

    /// Schedules `callback` `hours` hours past the instant of this run (`time`).
    pub fn after_hours(&mut self, hours: u64, callback: C)
        requires
            hours * 3600 <= u64::MAX,
            old(self).time@ + hours * 3600 * NANOS_PER_SEC <= MAX_NANOS,
        ensures
            final(self).scheduler.wf(),
            final(self).time == old(self).time,
            exists|t: Instant|
                #[trigger] t@ == old(self).time@ + hours * 3600 * NANOS_PER_SEC && inserted_in_order(
                    old(self).scheduler.queue(),
                    TimeKey { time: t, callback },
                    final(self).scheduler.queue(),
                ),
    {
        let t = self.time.add(Duration::from_secs(hours * 3600));
        self.scheduler.at(t, callback);
    }

    /// Schedules `callback` `days` days past the instant of this run (`time`).
    pub fn after_days(&mut self, days: u64, callback: C)
        requires
            days * 86400 <= u64::MAX,
            old(self).time@ + days * 86400 * NANOS_PER_SEC <= MAX_NANOS,
        ensures
            final(self).scheduler.wf(),
            final(self).time == old(self).time,
            exists|t: Instant|
                #[trigger] t@ == old(self).time@ + days * 86400 * NANOS_PER_SEC && inserted_in_order(
                    old(self).scheduler.queue(),
                    TimeKey { time: t, callback },
                    final(self).scheduler.queue(),
                ),
    {
        let t = self.time.add(Duration::from_secs(days * 86400));
        self.scheduler.at(t, callback);
    }

    /// The parts of the context.
    pub fn into_parts(self) -> (r: (Instant, &'a mut Ctx, &'a mut Scheduler<C>))
        ensures
            r.0 == self.time,
            *r.1 == *old(self.shared),
            *final(r.1) == *final(self.shared),
            *r.2 == *old(self.scheduler),
            *final(r.2) == *final(self.scheduler),
    {
        (self.time, self.shared, self.scheduler)
    }
}

} // verus!
