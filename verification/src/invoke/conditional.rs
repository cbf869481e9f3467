//! Tasks that run only while a condition holds.
use vstd::prelude::*;
use std::marker::PhantomData;
use super::callback::Callback;
use super::scheduler_context::{GroupResolver, ResolveError};
use super::task_context::TaskContext;
use super::task_response::TaskResponse;
use super::scheduler::Scheduler;
use crate::time::Instant;
use super::trigger::Trigger;

verus! {

/// A condition evaluated before each run, on arguments looked up in the shared state.
pub trait ConditionalPredicate<Args>: Sized {
    /// Whether evaluating the predicate as it is on `args` can leave it as `after`
    /// and answer `result`.
    spec fn spec_evaluated(&self, after: Self, args: Args, result: bool) -> bool;

    /// Whether the task is to run.
    fn evaluate(&mut self, args: Args) -> (r: bool)
        ensures
            old(self).spec_evaluated(*final(self), args, r),
    ;
}

impl ConditionalPredicate<()> for Trigger {
    /// The trigger stays as it is; what it reads is the shared flag, which other
    /// handles may change at any time.
    open spec fn spec_evaluated(&self, after: Trigger, args: (), result: bool) -> bool {
        after == *self
    }

    fn evaluate(&mut self, args: ()) -> (r: bool) {
        Trigger::evaluate(self)
    }
}

/// A task that runs `callback` when `predicate` holds and otherwise waits for the next
/// run; the predicate's arguments `PredArgs` are looked up in the shared state first.
pub struct Conditional<F, P, PredArgs = ()> {
    pub callback: F,
    pub predicate: P,
    pub arguments: PhantomData<PredArgs>,
}

/// `callback`, run only when `predicate` holds.
pub fn conditional<F, P, PredArgs>(predicate: P, callback: F) -> (r: Conditional<F, P, PredArgs>)
    ensures
        r.callback == callback,
        r.predicate == predicate,
{
    Conditional { callback, predicate, arguments: PhantomData }
}

/// Looks the predicate's arguments up first: when they are to be skipped the task
/// waits for its next run, and when one is missing the task is dropped. Otherwise the
/// callback runs if the predicate holds on them.
impl<C, Ctx, F: Callback<C, Ctx>, PredArgs: GroupResolver<Ctx>, P: ConditionalPredicate<PredArgs>> Callback<C, Ctx> for Conditional<F, P, PredArgs> {
    open spec fn spec_invoked(
        &self,
        time: Instant,
        shared: Ctx,
        scheduler: Scheduler<C>,
        after: Conditional<F, P, PredArgs>,
        response: TaskResponse,
        shared_after: Ctx,
        scheduler_after: Scheduler<C>,
    ) -> bool {
        &&& after.arguments == self.arguments
        &&& exists|mid: Ctx, found: Result<PredArgs, ResolveError>|
            #[trigger] PredArgs::spec_group_resolved(shared, mid, found) && match found {
                Err(ResolveError::Skip) => response == TaskResponse::Continue && after.callback
                    == self.callback && after.predicate == self.predicate && shared_after == mid
                    && scheduler_after == scheduler,
                Err(ResolveError::NotFound(_)) => response == TaskResponse::Finish && after.callback
                    == self.callback && after.predicate == self.predicate && shared_after == mid
                    && scheduler_after == scheduler,
                Ok(args) => exists|holds: bool|
                    #[trigger] self.predicate.spec_evaluated(after.predicate, args, holds) && if holds {
                        self.callback.spec_invoked(
                            time,
                            mid,
                            scheduler,
                            after.callback,
                            response,
                            shared_after,
                            scheduler_after,
                        )
                    } else {
                        response == TaskResponse::Continue && after.callback == self.callback
                            && shared_after == mid && scheduler_after == scheduler
                    },
            }
    }

    fn invoke(&mut self, task_ctx: TaskContext<'_, C, Ctx>) -> (r: TaskResponse) {
        let ghost time = task_ctx.time;
        let ghost before = *task_ctx.shared;
        let ghost scheduler_before = *task_ctx.scheduler;
        let (time_now, shared, scheduler) = task_ctx.into_parts();
        let found = PredArgs::group_resolve(shared);
        let ghost mid = *shared;
        let ghost outcome = found;
        proof {
            assert(PredArgs::spec_group_resolved(before, mid, outcome));
        }
        let args = match found {
            Ok(args) => args,
            Err(ResolveError::Skip) => return TaskResponse::Continue,
            Err(ResolveError::NotFound(_)) => return TaskResponse::Finish,
        };
        let ghost predicate_before = self.predicate;
        let holds = self.predicate.evaluate(args);
        proof {
            assert(predicate_before.spec_evaluated(self.predicate, args, holds));
        }
        if holds {
            let ghost callback_before = self.callback;
            let ctx = TaskContext::from_parts(time_now, shared, scheduler);
            let ghost inner = ctx;
            let response = self.callback.invoke(ctx);
            proof {
                assert(callback_before.spec_invoked(
                    time,
                    mid,
                    scheduler_before,
                    self.callback,
                    response,
                    *final(inner.shared),
                    *final(inner.scheduler),
                ));
                assert(outcome == Ok::<PredArgs, ResolveError>(args));
                assert(old(self).predicate.spec_evaluated(self.predicate, args, holds));
            }
            response
        } else {
            proof {
                assert(outcome == Ok::<PredArgs, ResolveError>(args));
            }
            TaskResponse::Continue
        }
    }
}

} // verus!
