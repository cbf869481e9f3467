//! The queue of scheduled callbacks, earliest first, and the decisions of the
//! processing loop.
use vstd::prelude::*;
use crate::time::{now, Duration, Instant, MAX_NANOS, NANOS_PER_SEC};
use super::callback::Callback;
use super::task_context::TaskContext;
use super::task_response::{next_run, reschedule_time, TaskResponse};
use super::time_key::TimeKey;

verus! {

/// Whether the keys are in order of their times.
pub open spec fn in_time_order<C>(queue: Seq<TimeKey<C>>) -> bool {
    forall|i: int, j: int| 0 <= i < j < queue.len() ==> queue[i].time@ <= queue[j].time@
}

/// `after` is `before` with `key` put behind every key that is due no later than it.
pub open spec fn inserted_in_order<C>(before: Seq<TimeKey<C>>, key: TimeKey<C>, after: Seq<TimeKey<C>>) -> bool {
    exists|i: int|
        0 <= i <= before.len() && after == before.insert(i, key) && (forall|j: int|
            0 <= j < i ==> (#[trigger] before[j]).time@ <= key.time@) && (forall|j: int|
            i <= j < before.len() ==> (#[trigger] before[j]).time@ > key.time@)
}

/// How a task that ran goes back into the queue: `queue` is `before` with the task
/// (now `callback`) put back behind every task due no later than the instant its
/// `response` names, reckoned from the time it was scheduled at and the clock
/// readings `began` and `ended` around its run; `put_back` says whether it went
/// back, which it does exactly when its response names an instant in range, and
/// otherwise `queue` is `before`.
pub open spec fn requeued<C>(
    scheduled: Instant,
    callback: C,
    response: TaskResponse,
    began: Instant,
    ended: Instant,
    before: Seq<TimeKey<C>>,
    put_back: bool,
    queue: Seq<TimeKey<C>>,
) -> bool {
    let run = next_run(response, scheduled, began, ended);
    &&& put_back == (run is Some && run->0 <= MAX_NANOS)
    &&& !put_back ==> queue == before
    &&& put_back ==> exists|t: Instant|
        #[trigger] t@ == run->0 && inserted_in_order(before, TimeKey { time: t, callback }, queue)
}

/// One run of the first task of the queue `before`, as [`Scheduler::process_next`]
/// performs it: the task is handed its scheduled time, the shared state `shared` and
/// a scheduler `rest` whose queue is `before` without it; `queue` is the queue and
/// `shared_after` the shared state afterwards, with the task put back as its
/// response asks.
pub open spec fn ran_first<C: Callback<C, Ctx>, Ctx>(
    before: Seq<TimeKey<C>>,
    shared: Ctx,
    queue: Seq<TimeKey<C>>,
    shared_after: Ctx,
) -> bool {
    &&& before.len() > 0
    &&& exists|
        rest: Scheduler<C>,
        after: C,
        response: TaskResponse,
        began: Instant,
        ended: Instant,
        mid: Scheduler<C>,
        put_back: bool,
    |
        #![trigger rest.queue(), requeued(before[0].time, after, response, began, ended, mid.queue(), put_back, queue)]
        rest.queue() == before.drop_first() && before[0].callback.spec_invoked(
            before[0].time,
            shared,
            rest,
            after,
            response,
            shared_after,
            mid,
        ) && requeued(before[0].time, after, response, began, ended, mid.queue(), put_back, queue)
}

/// One run of the first task of `before`, which is due at `deadline`.
pub open spec fn due_run<C: Callback<C, Ctx>, Ctx>(
    deadline: Instant,
    before: Seq<TimeKey<C>>,
    shared: Ctx,
    queue: Seq<TimeKey<C>>,
    shared_after: Ctx,
) -> bool {
    &&& before.len() > 0
    &&& before[0].time@ <= deadline@
    &&& ran_first(before, shared, queue, shared_after)
}

/// Whether the step from `states[i]` to `states[i + 1]` (a queue and a shared state
/// each) is a run of the first task due at `deadline`, or, for `deadline` `None`,
/// due at some reading of the clock.
pub open spec fn step_at<C: Callback<C, Ctx>, Ctx>(
    deadline: Option<Instant>,
    states: Seq<(Seq<TimeKey<C>>, Ctx)>,
    i: int,
) -> bool {
    match deadline {
        Some(d) => due_run(d, states[i].0, states[i].1, states[i + 1].0, states[i + 1].1),
        None => exists|reading: Instant|
            #[trigger] due_run(reading, states[i].0, states[i].1, states[i + 1].0, states[i + 1].1),
    }
}

/// `states` is a run of `count` steps from the queue `before` and shared state
/// `shared` to `queue` and `shared_after`, each step as [`step_at`] says.
pub open spec fn run_chain<C: Callback<C, Ctx>, Ctx>(
    deadline: Option<Instant>,
    states: Seq<(Seq<TimeKey<C>>, Ctx)>,
    count: nat,
    before: Seq<TimeKey<C>>,
    shared: Ctx,
    queue: Seq<TimeKey<C>>,
    shared_after: Ctx,
) -> bool {
    &&& states.len() == count + 1
    &&& states[0] == (before, shared)
    &&& states[count as int] == (queue, shared_after)
    &&& forall|i: int| 0 <= i < count ==> #[trigger] step_at(deadline, states, i)
}

/// `count` runs, one after another, each of the first task of the queue as it then
/// stands and each due at `deadline`, lead from the queue `before` and the shared
/// state `shared` to `queue` and `shared_after`.
pub open spec fn due_runs<C: Callback<C, Ctx>, Ctx>(
    deadline: Instant,
    count: nat,
    before: Seq<TimeKey<C>>,
    shared: Ctx,
    queue: Seq<TimeKey<C>>,
    shared_after: Ctx,
) -> bool {
    exists|states: Seq<(Seq<TimeKey<C>>, Ctx)>|
        #[trigger] run_chain(Some(deadline), states, count, before, shared, queue, shared_after)
}

/// As [`due_runs`], but each run due at a reading of the clock taken just before it.
pub open spec fn clock_runs<C: Callback<C, Ctx>, Ctx>(
    count: nat,
    before: Seq<TimeKey<C>>,
    shared: Ctx,
    queue: Seq<TimeKey<C>>,
    shared_after: Ctx,
) -> bool {
    exists|states: Seq<(Seq<TimeKey<C>>, Ctx)>|
        #[trigger] run_chain(None, states, count, before, shared, queue, shared_after)
}

/// Callbacks waiting for their time.
pub struct Scheduler<C> {
    schedule: Vec<TimeKey<C>>,
}

impl<C> Scheduler<C> {
    /// The waiting callbacks in the order they become due (ties in the order they were added).
    pub closed spec fn queue(&self) -> Seq<TimeKey<C>> {
        self.schedule@.reverse()
    }

    /// The queue is in time order: every scheduler keeps it so.
    pub open spec fn wf(&self) -> bool {
        in_time_order(self.queue())
    }

    /// The internal invariant: the stored keys are in time order.
    #[verifier::type_invariant]
    closed spec fn ordered(self) -> bool {
        in_time_order(self.schedule@.reverse())
    }

    /// An empty scheduler.
    pub fn new() -> (r: Self)
        ensures
            r.wf(),
            r.queue() == Seq::<TimeKey<C>>::empty(),
    {
        let r = Scheduler { schedule: Vec::new() };
        assert(r.queue() =~= Seq::<TimeKey<C>>::empty());
        r
    }

    /// Schedules `callback` at `time`, behind the callbacks due no later.
    #[verifier::rlimit(40)]
    pub fn at(&mut self, time: Instant, callback: C)
        ensures
            final(self).wf(),
            inserted_in_order(old(self).queue(), TimeKey { time, callback }, final(self).queue()),
    {
        proof {
            use_type_invariant(&*self);
        }
        let ghost old_vec = self.schedule@;
        let key = TimeKey::new(time, callback);
        let mut p: usize = 0;
        while p < self.schedule.len() && time.is_before(&self.schedule[p].time)
            invariant
                p <= self.schedule@.len(),
                self.schedule@ == old_vec,
                forall|j: int| 0 <= j < p ==> time@ < (#[trigger] old_vec[j]).time@,
            decreases self.schedule@.len() - p,
        {
            p = p + 1;
        }
        let mut keys: Vec<TimeKey<C>> = Vec::new();
        std::mem::swap(&mut keys, &mut self.schedule);
        keys.insert(p, key);
        proof {
            let n = old_vec.len() as int;
            let q = old_vec.reverse();
            let i = n - p;
            assert(keys@.reverse() =~= q.insert(i, key));
            let q2 = q.insert(i, key);
            assert forall|j: int| 0 <= j < i implies (#[trigger] q[j]).time@ <= key.time@ by {
                assert(q[j] == old_vec[n - 1 - j]);
                if p < n {
                    assert(!(time@ < old_vec[p as int].time@));
                    assert(q[n - 1 - p] == old_vec[p as int]);
                    if n - 1 - j != p {
                        assert(q[j].time@ <= q[n - 1 - p].time@);
                    }
                }
            }
            assert forall|j: int| i <= j < n implies (#[trigger] q[j]).time@ > key.time@ by {
                assert(q[j] == old_vec[n - 1 - j]);
            }
            assert forall|a: int, b: int| 0 <= a < b < q2.len() implies q2[a].time@ <= q2[b].time@ by {
                if b < i {
                    assert(q2[a] == q[a] && q2[b] == q[b]);
                } else if b == i {
                    assert(q2[a] == q[a]);
                } else if a < i {
                    assert(q2[a] == q[a] && q2[b] == q[b - 1]);
                } else if a == i {
                    assert(q2[b] == q[b - 1]);
                } else {
                    assert(q2[a] == q[a - 1] && q2[b] == q[b - 1]);
                }
            }
        }
        self.schedule = keys;
    }

    /// Schedules `callback` `duration` after `now`.
    pub fn after_from(&mut self, now: Instant, duration: Duration, callback: C)
        requires
            now@ + duration@ <= MAX_NANOS,
        ensures
            final(self).wf(),
            exists|t: Instant|
                #[trigger] t@ == now@ + duration@ && inserted_in_order(
                    old(self).queue(),
                    TimeKey { time: t, callback },
                    final(self).queue(),
                ),
    {
        let t = now.add(duration);
        self.at(t, callback);
    }

    /// Schedules `callback` `micros` microseconds after `now`.
    pub fn after_micros_from(&mut self, now: Instant, micros: u64, callback: C)
        requires
            now@ + micros * 1000 <= MAX_NANOS,
        ensures
            final(self).wf(),
            exists|t: Instant|
                #[trigger] t@ == now@ + micros * 1000 && inserted_in_order(
                    old(self).queue(),
                    TimeKey { time: t, callback },
                    final(self).queue(),
                ),
    {
        self.after_from(now, Duration::from_micros(micros), callback);
    }

    /// Schedules `callback` `millis` milliseconds after `now`.
    pub fn after_millis_from(&mut self, now: Instant, millis: u64, callback: C)
        requires
            now@ + millis * 1_000_000 <= MAX_NANOS,
        ensures
            final(self).wf(),
            exists|t: Instant|
                #[trigger] t@ == now@ + millis * 1_000_000 && inserted_in_order(
                    old(self).queue(),
                    TimeKey { time: t, callback },
                    final(self).queue(),
                ),
    {
        self.after_from(now, Duration::from_millis(millis), callback);
    }

    /// Schedules `callback` `nanos` nanoseconds after `now`.
    pub fn after_nanos_from(&mut self, now: Instant, nanos: u64, callback: C)
        requires
            now@ + nanos <= MAX_NANOS,
        ensures
            final(self).wf(),
            exists|t: Instant|
                #[trigger] t@ == now@ + nanos && inserted_in_order(
                    old(self).queue(),
                    TimeKey { time: t, callback },
                    final(self).queue(),
                ),
    {
        self.after_from(now, Duration::from_nanos(nanos), callback);
    }

    /// Schedules `callback` `secs` seconds after `now`.
    pub fn after_secs_from(&mut self, now: Instant, secs: u64, callback: C)
        requires
            now@ + secs * NANOS_PER_SEC <= MAX_NANOS,
        ensures
            final(self).wf(),
            exists|t: Instant|
                #[trigger] t@ == now@ + secs * NANOS_PER_SEC && inserted_in_order(
                    old(self).queue(),
                    TimeKey { time: t, callback },
                    final(self).queue(),
                ),
    {
        self.after_from(now, Duration::from_secs(secs), callback);
    }

    /// Schedules `callback` `mins` minutes after `now`.
    pub fn after_mins_from(&mut self, now: Instant, mins: u64, callback: C)
        requires
            mins * 60 <= u64::MAX,
            now@ + mins * 60 * NANOS_PER_SEC <= MAX_NANOS,
        ensures
            final(self).wf(),
            exists|t: Instant|
                #[trigger] t@ == now@ + mins * 60 * NANOS_PER_SEC && inserted_in_order(
                    old(self).queue(),
                    TimeKey { time: t, callback },
                    final(self).queue(),
                ),
    {
        self.after_from(now, Duration::from_secs(mins * 60), callback);
    }

    /// Schedules `callback` `hours` hours after `now`.
    pub fn after_hours_from(&mut self, now: Instant, hours: u64, callback: C)
        requires
            hours * 3600 <= u64::MAX,
            now@ + hours * 3600 * NANOS_PER_SEC <= MAX_NANOS,
        ensures
            final(self).wf(),
            exists|t: Instant|
                #[trigger] t@ == now@ + hours * 3600 * NANOS_PER_SEC && inserted_in_order(
                    old(self).queue(),
                    TimeKey { time: t, callback },
                    final(self).queue(),
                ),
    {
        self.after_from(now, Duration::from_secs(hours * 3600), callback);
    }

    /// Schedules `callback` `days` days after `now`.
    pub fn after_days_from(&mut self, now: Instant, days: u64, callback: C)
        requires
            days * 86400 <= u64::MAX,
            now@ + days * 86400 * NANOS_PER_SEC <= MAX_NANOS,
        ensures
            final(self).wf(),
            exists|t: Instant|
                #[trigger] t@ == now@ + days * 86400 * NANOS_PER_SEC && inserted_in_order(
                    old(self).queue(),
                    TimeKey { time: t, callback },
                    final(self).queue(),
                ),
    {
        self.after_from(now, Duration::from_secs(days * 86400), callback);
    }

    /// Schedules `callback` at the current time of the clock.
    pub fn now(&mut self, callback: C)
        ensures
            final(self).wf(),
            exists|t: Instant|
                #[trigger] t@ <= MAX_NANOS && inserted_in_order(
                    old(self).queue(),
                    TimeKey { time: t, callback },
                    final(self).queue(),
                ),
    {
        let t = now();
        let _ = t.as_nanos();
        self.at(t, callback);
        assert(t@ <= MAX_NANOS);
    }

    /// Schedules `callback` `duration` after the current time of the clock (at the
    /// last representable instant when that is out of range).
    pub fn after(&mut self, duration: Duration, callback: C)
        ensures
            final(self).wf(),
            exists|t: Instant|
                #[trigger] t@ >= duration@ && inserted_in_order(
                    old(self).queue(),
                    TimeKey { time: t, callback },
                    final(self).queue(),
                ),
    {
        let t = now().saturating_add(duration);
        self.at(t, callback);
    }

    /// Schedules `callback` `micros` microseconds after the current time of the clock (at the
    /// last representable instant when that is out of range).
    pub fn after_micros(&mut self, micros: u64, callback: C)
        ensures
            final(self).wf(),
            exists|t: Instant|
                #[trigger] t@ >= micros * 1000 && inserted_in_order(
                    old(self).queue(),
                    TimeKey { time: t, callback },
                    final(self).queue(),
                ),
    {
        self.after(Duration::from_micros(micros), callback);
    }

    /// Schedules `callback` `millis` milliseconds after the current time of the clock (at the
    /// last representable instant when that is out of range).
    pub fn after_millis(&mut self, millis: u64, callback: C)
        ensures
            final(self).wf(),
            exists|t: Instant|
                #[trigger] t@ >= millis * 1_000_000 && inserted_in_order(
                    old(self).queue(),
                    TimeKey { time: t, callback },
                    final(self).queue(),
                ),
    {
        self.after(Duration::from_millis(millis), callback);
    }

    /// Schedules `callback` `nanos` nanoseconds after the current time of the clock (at the
    /// last representable instant when that is out of range).
    pub fn after_nanos(&mut self, nanos: u64, callback: C)
        ensures
            final(self).wf(),
            exists|t: Instant|
                #[trigger] t@ >= nanos && inserted_in_order(
                    old(self).queue(),
                    TimeKey { time: t, callback },
                    final(self).queue(),
                ),
    {
        self.after(Duration::from_nanos(nanos), callback);
    }

    /// Schedules `callback` `secs` seconds after the current time of the clock (at the
    /// last representable instant when that is out of range).
    pub fn after_secs(&mut self, secs: u64, callback: C)
        ensures
            final(self).wf(),
            exists|t: Instant|
                #[trigger] t@ >= secs * NANOS_PER_SEC && inserted_in_order(
                    old(self).queue(),
                    TimeKey { time: t, callback },
                    final(self).queue(),
                ),
    {
        self.after(Duration::from_secs(secs), callback);
    }

    /// Schedules `callback` `mins` minutes after the current time of the clock (at the
    /// last representable instant when that is out of range).
    pub fn after_mins(&mut self, mins: u64, callback: C)
        requires
            mins * 60 <= u64::MAX,
        ensures
            final(self).wf(),
            exists|t: Instant|
                #[trigger] t@ >= mins * 60 * NANOS_PER_SEC && inserted_in_order(
                    old(self).queue(),
                    TimeKey { time: t, callback },
                    final(self).queue(),
                ),
    {
        self.after(Duration::from_secs(mins * 60), callback);
    }

    /// Schedules `callback` `hours` hours after the current time of the clock (at the
    /// last representable instant when that is out of range).
    pub fn after_hours(&mut self, hours: u64, callback: C)
        requires
            hours * 3600 <= u64::MAX,
        ensures
            final(self).wf(),
            exists|t: Instant|
                #[trigger] t@ >= hours * 3600 * NANOS_PER_SEC && inserted_in_order(
                    old(self).queue(),
                    TimeKey { time: t, callback },
                    final(self).queue(),
                ),
    {
        self.after(Duration::from_secs(hours * 3600), callback);
    }

    /// Schedules `callback` `days` days after the current time of the clock (at the
    /// last representable instant when that is out of range).
    pub fn after_days(&mut self, days: u64, callback: C)
        requires
            days * 86400 <= u64::MAX,
        ensures
            final(self).wf(),
            exists|t: Instant|
                #[trigger] t@ >= days * 86400 * NANOS_PER_SEC && inserted_in_order(
                    old(self).queue(),
                    TimeKey { time: t, callback },
                    final(self).queue(),
                ),
    {
        self.after(Duration::from_secs(days * 86400), callback);
    }

    /// Runs the first task: takes it out of the queue, hands it a context with its
    /// scheduled time, the shared state and this scheduler, reads the clock before
    /// and after it runs, and puts it back as its response asks (dropping it when the
    /// instant asked for is out of range). Returns whether the task was put back.
    ///
    /// In the contract, the run is handed the task's scheduled time, the shared state
    /// and the scheduler `rest` (the queue without the task); `after` and `response`
    /// are what the run left of the task and what it answered, `mid` the scheduler as
    /// the run left it (the task may schedule or clear through its context), and
    /// `began` and `ended` the two clock readings.
    pub fn process_next<Ctx>(&mut self, shared: &mut Ctx) -> (r: bool) where C: Callback<C, Ctx>
        requires
            old(self).queue().len() > 0,
        ensures
            final(self).wf(),
            exists|
                rest: Scheduler<C>,
                after: C,
                response: TaskResponse,
                began: Instant,
                ended: Instant,
                mid: Scheduler<C>,
            |
                #![trigger rest.queue(), requeued(old(self).queue()[0].time, after, response, began, ended, mid.queue(), r, final(self).queue())]
                rest.queue() == old(self).queue().drop_first() && old(self).queue()[0].callback.spec_invoked(
                    old(self).queue()[0].time,
                    *old(shared),
                    rest,
                    after,
                    response,
                    *final(shared),
                    mid,
                ) && requeued(
                    old(self).queue()[0].time,
                    after,
                    response,
                    began,
                    ended,
                    mid.queue(),
                    r,
                    final(self).queue(),
                ),
    {
        let key = self.pop_first();
        let TimeKey { time, callback } = key;
        let mut callback = callback;
        let ghost callback_before = callback;
        let ghost rest = *self;
        let began = now();
        let ctx = TaskContext::from_parts(time, shared, self);
        let ghost handed = ctx;
        let response = callback.invoke(ctx);
        proof {
            assert(callback_before.spec_invoked(
                time,
                *old(shared),
                rest,
                callback,
                response,
                *final(handed.shared),
                *final(handed.scheduler),
            ));
        }
        let ended = now();
        let ghost mid = *self;
        let ghost callback_after = callback;
        let r = self.reschedule(time, callback, response, began, ended);
        proof {
            assert(requeued(time, callback_after, response, began, ended, mid.queue(), r, self.queue()));
            assert(rest.queue() == old(self).queue().drop_first());
        }
        r
    }

    /// Runs the first task if it is due at `deadline`; returns whether one ran.
    pub fn process_due<Ctx>(&mut self, deadline: Instant, shared: &mut Ctx) -> (r: bool) where
        C: Callback<C, Ctx>,
        ensures
            final(self).wf(),
            r == (old(self).queue().len() > 0 && old(self).queue()[0].time@ <= deadline@),
            !r ==> final(self).queue() == old(self).queue() && *final(shared) == *old(shared),
            r ==> due_run(deadline, old(self).queue(), *old(shared), final(self).queue(), *final(shared)),
            r ==> exists|
                rest: Scheduler<C>,
                after: C,
                response: TaskResponse,
                began: Instant,
                ended: Instant,
                mid: Scheduler<C>,
                put_back: bool,
            |
                #![trigger rest.queue(), requeued(old(self).queue()[0].time, after, response, began, ended, mid.queue(), put_back, final(self).queue())]
                rest.queue() == old(self).queue().drop_first() && old(self).queue()[0].callback.spec_invoked(
                    old(self).queue()[0].time,
                    *old(shared),
                    rest,
                    after,
                    response,
                    *final(shared),
                    mid,
                ) && requeued(
                    old(self).queue()[0].time,
                    after,
                    response,
                    began,
                    ended,
                    mid.queue(),
                    put_back,
                    final(self).queue(),
                ),
    {
        match self.next_task_time() {
            Some(time) => {
                if deadline.is_before(&time) {
                    proof {
                        use_type_invariant(&*self);
                    }
                    false
                } else {
                    self.process_next(shared);
                    true
                }
            },
            None => {
                proof {
                    use_type_invariant(&*self);
                }
                false
            },
        }
    }

    /// Runs the first task if it is due by the current time of the clock; returns
    /// whether one ran.
    pub fn process_due_now<Ctx>(&mut self, shared: &mut Ctx) -> (r: bool) where
        C: Callback<C, Ctx>,
        ensures
            final(self).wf(),
            r ==> old(self).queue().len() > 0,
            !r ==> final(self).queue() == old(self).queue(),
            r ==> exists|
                rest: Scheduler<C>,
                after: C,
                response: TaskResponse,
                began: Instant,
                ended: Instant,
                mid: Scheduler<C>,
                put_back: bool,
            |
                #![trigger rest.queue(), requeued(old(self).queue()[0].time, after, response, began, ended, mid.queue(), put_back, final(self).queue())]
                rest.queue() == old(self).queue().drop_first() && old(self).queue()[0].callback.spec_invoked(
                    old(self).queue()[0].time,
                    *old(shared),
                    rest,
                    after,
                    response,
                    *final(shared),
                    mid,
                ) && requeued(
                    old(self).queue()[0].time,
                    after,
                    response,
                    began,
                    ended,
                    mid.queue(),
                    put_back,
                    final(self).queue(),
                ),
    {
        self.process_due(now(), shared)
    }

    /// Runs the tasks due at `deadline` one at a time, each time the first of the
    /// queue (so in time order, tasks that they schedule included), but at most
    /// `limit` of them; returns how many ran. Every task that ran was due at
    /// `deadline`, and when fewer than `limit` ran, no task due at `deadline` is left.
    pub fn process_until_bounded<Ctx>(&mut self, deadline: Instant, limit: usize, shared: &mut Ctx) -> (r: usize) where
        C: Callback<C, Ctx>,
        ensures
            final(self).wf(),
            r <= limit,
            due_runs(deadline, r as nat, old(self).queue(), *old(shared), final(self).queue(), *final(shared)),
            r > 0 ==> old(self).queue().len() > 0 && old(self).queue()[0].time@ <= deadline@,
            r < limit ==> !(final(self).queue().len() > 0 && final(self).queue()[0].time@ <= deadline@),
    {
        proof {
            use_type_invariant(&*self);
        }
        let mut count: usize = 0;
        let ghost mut states: Seq<(Seq<TimeKey<C>>, Ctx)> = seq![(self.queue(), *shared)];
        while count < limit
            invariant_except_break
                count <= limit,
                self.wf(),
                run_chain(Some(deadline), states, count as nat, old(self).queue(), *old(shared), self.queue(), *shared),
                count > 0 ==> old(self).queue().len() > 0 && old(self).queue()[0].time@ <= deadline@,
            ensures
                count <= limit,
                self.wf(),
                run_chain(Some(deadline), states, count as nat, old(self).queue(), *old(shared), self.queue(), *shared),
                count > 0 ==> old(self).queue().len() > 0 && old(self).queue()[0].time@ <= deadline@,
                count < limit ==> !(self.queue().len() > 0 && self.queue()[0].time@ <= deadline@),
            decreases limit - count,
        {
            let ghost queue_before = self.queue();
            let ghost shared_before = *shared;
            if !self.process_due(deadline, shared) {
                break;
            }
            proof {
                let next = states.push((self.queue(), *shared));
                assert forall|k: int| 0 <= k < count + 1 implies #[trigger] step_at(Some(deadline), next, k) by {
                    if k < count {
                        assert(step_at(Some(deadline), states, k));
                        assert(next[k] == states[k] && next[k + 1] == states[k + 1]);
                    } else {
                        assert(next[k] == (queue_before, shared_before));
                    }
                }
                states = next;
            }
            count = count + 1;
        }
        proof {
            assert(run_chain(Some(deadline), states, count as nat, old(self).queue(), *old(shared), self.queue(), *shared));
        }
        count
    }

    /// Runs the tasks due by the clock one at a time, each time the first of the
    /// queue and reading the clock again before each one, but at most `limit` of
    /// them; returns how many ran. Every task that ran was due at the reading taken
    /// before it, and when fewer than `limit` ran, the first task left (if any) was
    /// not due at the last reading.
    pub fn process_current_bounded<Ctx>(&mut self, limit: usize, shared: &mut Ctx) -> (r: usize) where
        C: Callback<C, Ctx>,
        ensures
            final(self).wf(),
            r <= limit,
            clock_runs(r as nat, old(self).queue(), *old(shared), final(self).queue(), *final(shared)),
            r < limit ==> exists|reading: Instant|
                !(final(self).queue().len() > 0 && final(self).queue()[0].time@ <= #[trigger] reading@),
    {
        proof {
            use_type_invariant(&*self);
        }
        let mut count: usize = 0;
        let ghost mut states: Seq<(Seq<TimeKey<C>>, Ctx)> = seq![(self.queue(), *shared)];
        while count < limit
            invariant_except_break
                count <= limit,
                self.wf(),
                run_chain(None, states, count as nat, old(self).queue(), *old(shared), self.queue(), *shared),
            ensures
                count <= limit,
                self.wf(),
                run_chain(None, states, count as nat, old(self).queue(), *old(shared), self.queue(), *shared),
                count < limit ==> exists|reading: Instant|
                    !(self.queue().len() > 0 && self.queue()[0].time@ <= #[trigger] reading@),
            decreases limit - count,
        {
            let ghost queue_before = self.queue();
            let ghost shared_before = *shared;
            let reading = now();
            if !self.process_due(reading, shared) {
                assert(!(self.queue().len() > 0 && self.queue()[0].time@ <= reading@));
                break;
            }
            proof {
                let next = states.push((self.queue(), *shared));
                assert forall|k: int| 0 <= k < count + 1 implies #[trigger] step_at(None, next, k) by {
                    if k < count {
                        assert(step_at(None, states, k));
                        assert(next[k] == states[k] && next[k + 1] == states[k + 1]);
                    } else {
                        assert(next[k] == (queue_before, shared_before));
                        assert(due_run(reading, next[k].0, next[k].1, next[k + 1].0, next[k + 1].1));
                    }
                }
                states = next;
            }
            count = count + 1;
        }
        proof {
            assert(run_chain(None, states, count as nat, old(self).queue(), *old(shared), self.queue(), *shared));
            if count < limit {
                let reading = choose|reading: Instant|
                    !(self.queue().len() > 0 && self.queue()[0].time@ <= #[trigger] reading@);
                assert(!(self.queue().len() > 0 && self.queue()[0].time@ <= reading@));
            }
        }
        count
    }

    /// Takes the first task.
    fn pop_first(&mut self) -> (r: TimeKey<C>)
        requires
            old(self).queue().len() > 0,
        ensures
            final(self).wf(),
            r == old(self).queue()[0],
            final(self).queue() == old(self).queue().drop_first(),
    {
        proof {
            use_type_invariant(&*self);
        }
        let mut keys: Vec<TimeKey<C>> = Vec::new();
        std::mem::swap(&mut keys, &mut self.schedule);
        let key = keys.pop().unwrap();
        proof {
            assert(old(self).queue()[0] == key);
            assert(keys@.reverse() =~= old(self).queue().drop_first());
        }
        self.schedule = keys;
        key
    }

    /// Takes the first callback if it is due at `deadline`.
    pub fn pop_due(&mut self, deadline: Instant) -> (r: Option<TimeKey<C>>)
        ensures
            final(self).wf(),
            old(self).queue().len() > 0 && old(self).queue()[0].time@ <= deadline@ ==> r == Some(
                old(self).queue()[0],
            ) && final(self).queue() == old(self).queue().drop_first(),
            !(old(self).queue().len() > 0 && old(self).queue()[0].time@ <= deadline@) ==> r
                is None && final(self).queue() == old(self).queue(),
    {
        proof {
            use_type_invariant(&*self);
        }
        let n = self.schedule.len();
        if n == 0 {
            return None;
        }
        if deadline.is_before(&self.schedule[n - 1].time) {
            proof {
                assert(old(self).queue()[0] == self.schedule@[n - 1]);
            }
            return None;
        }
        let mut keys: Vec<TimeKey<C>> = Vec::new();
        std::mem::swap(&mut keys, &mut self.schedule);
        let key = keys.pop().unwrap();
        proof {
            assert(old(self).queue()[0] == key);
            assert(keys@.reverse() =~= old(self).queue().drop_first());
        }
        self.schedule = keys;
        Some(key)
    }

    /// Puts a callback that ran back into the queue as its response asks, or drops it
    /// (also when the instant asked for is out of range). Returns whether it was put back.
    pub fn reschedule(
        &mut self,
        scheduled: Instant,
        callback: C,
        response: TaskResponse,
        began: Instant,
        ended: Instant,
    ) -> (r: bool)
        ensures
            final(self).wf(),
            r == (next_run(response, scheduled, began, ended) is Some && next_run(
                response,
                scheduled,
                began,
                ended,
            )->0 <= MAX_NANOS),
            !r ==> final(self).queue() == old(self).queue(),
            r ==> exists|t: Instant|
                #[trigger] t@ == next_run(response, scheduled, began, ended)->0 && inserted_in_order(
                    old(self).queue(),
                    TimeKey { time: t, callback },
                    final(self).queue(),
                ),
    {
        proof {
            use_type_invariant(&*self);
        }
        match reschedule_time(response, scheduled, began, ended) {
            Some(t) => {
                self.at(t, callback);
                true
            },
            None => false,
        }
    }

    /// When the first callback is due.
    pub fn next_task_time(&self) -> (r: Option<Instant>)
        ensures
            self.queue().len() == 0 ==> r is None,
            self.queue().len() > 0 ==> r == Some(self.queue()[0].time),
    {
        let n = self.schedule.len();
        if n == 0 {
            None
        } else {
            Some(self.schedule[n - 1].time)
        }
    }

    /// How long from the current time of the clock until the first callback is due
    /// (zero if it is due already).
    pub fn duration_until_next_task(&self) -> (r: Option<Duration>)
        ensures
            self.queue().len() == 0 <==> r is None,
            r is Some ==> r->0@ <= self.queue()[0].time@,
    {
        self.duration_until_next_task_from(now())
    }

    /// How long from `now` until the first callback is due (zero if it is due already).
    pub fn duration_until_next_task_from(&self, now: Instant) -> (r: Option<Duration>)
        ensures
            self.queue().len() == 0 ==> r is None,
            self.queue().len() > 0 ==> r is Some && r->0@ == (if self.queue()[0].time@ >= now@ {
                self.queue()[0].time@ - now@
            } else {
                0
            }),
    {
        match self.next_task_time() {
            Some(time) => Some(time.duration_since(now)),
            None => None,
        }
    }

    /// Removes every callback.
    pub fn clear(&mut self)
        ensures
            final(self).wf(),
            final(self).queue() == Seq::<TimeKey<C>>::empty(),
    {
        self.schedule = Vec::new();
        assert(self.queue() =~= Seq::<TimeKey<C>>::empty());
    }

    /// The number of waiting callbacks.
    pub fn len(&self) -> (r: usize)
        ensures
            r == self.queue().len(),
    {
        self.schedule.len()
    }

    /// Whether nothing waits.
    pub fn is_empty(&self) -> (r: bool)
        ensures
            r == (self.queue().len() == 0),
    {
        self.schedule.len() == 0
    }
}

} // verus!
