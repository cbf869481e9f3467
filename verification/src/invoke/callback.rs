//! Tasks: what the scheduler runs.
use vstd::prelude::*;
use super::every::{every_response, Every};
use super::task_context::TaskContext;
use super::task_response::TaskResponse;
use super::scheduler::Scheduler;
use crate::time::Instant;

verus! {

/// A task that the scheduler can run; `C` is how the scheduler stores tasks and
/// `Ctx` the shared state.
pub trait Callback<C, Ctx>: Sized {
    /// Whether a run of the task as it is, handed a context with the instant `time`,
    /// the shared state `shared` and the scheduler `scheduler`, can leave
    /// the task as `after`, answer `response`, and leave the shared state as
    /// `shared_after` and the scheduler as `scheduler_after`.
    spec fn spec_invoked(
        &self,
        time: Instant,
        shared: Ctx,
        scheduler: Scheduler<C>,
        after: Self,
        response: TaskResponse,
        shared_after: Ctx,
        scheduler_after: Scheduler<C>,
    ) -> bool;

    /// Runs the task and says what the scheduler should do with it next.
    fn invoke(&mut self, task_ctx: TaskContext<'_, C, Ctx>) -> (r: TaskResponse)
        ensures
            old(self).spec_invoked(
                task_ctx.time,
                *old(task_ctx.shared),
                *old(task_ctx.scheduler),
                *final(self),
                r,
                *final(task_ctx.shared),
                *final(task_ctx.scheduler),
            ),
    ;
}

/// Turning a value into a task.
pub trait IntoCallback<C, Ctx> {
    /// The task.
    type Output: Callback<C, Ctx>;

    /// The task made from the value.
    fn into_callback(self) -> Self::Output;
}

impl<C, Ctx, F: Callback<C, Ctx>> IntoCallback<C, Ctx> for F {
    type Output = F;

    fn into_callback(self) -> (r: F)
        ensures
            r == self,
    {
        self
    }
}

/// A task that removes every task from the scheduler.
pub struct Clear;

impl<C, Ctx> Callback<C, Ctx> for Clear {
    /// Clearing empties the queue, leaves the shared state, and finishes.
    open spec fn spec_invoked(
        &self,
        time: Instant,
        shared: Ctx,
        scheduler: Scheduler<C>,
        after: Clear,
        response: TaskResponse,
        shared_after: Ctx,
        scheduler_after: Scheduler<C>,
    ) -> bool {
        &&& response == TaskResponse::Finish
        &&& shared_after == shared
        &&& scheduler_after.queue().len() == 0
    }

    fn invoke(&mut self, task_ctx: TaskContext<'_, C, Ctx>) -> (r: TaskResponse)
        ensures
            r == TaskResponse::Finish,
    {
        let (time, shared, scheduler) = task_ctx.into_parts();
        scheduler.clear();
        TaskResponse::Finish
    }
}

impl<C, Ctx, F: Callback<C, Ctx>> Callback<C, Ctx> for Every<F> {
    /// The inner callback runs once; its answer becomes the repeat that
    /// [`every_response`] gives, and the interval and anchor stay.
    open spec fn spec_invoked(
        &self,
        time: Instant,
        shared: Ctx,
        scheduler: Scheduler<C>,
        after: Every<F>,
        response: TaskResponse,
        shared_after: Ctx,
        scheduler_after: Scheduler<C>,
    ) -> bool {
        &&& after.duration == self.duration
        &&& after.anchor == self.anchor
        &&& exists|inner: TaskResponse|
            #[trigger] self.callback.spec_invoked(
                time,
                shared,
                scheduler,
                after.callback,
                inner,
                shared_after,
                scheduler_after,
            ) && response == every_response(self.anchor, self.duration, inner)
    }

    fn invoke(&mut self, task_ctx: TaskContext<'_, C, Ctx>) -> (r: TaskResponse) {
        let ghost callback_before = self.callback;
        let ghost time = task_ctx.time;
        let ghost shared = *task_ctx.shared;
        let ghost scheduler = *task_ctx.scheduler;
        let ghost ctx = task_ctx;
        let response = self.callback.invoke(task_ctx);
        proof {
            assert(callback_before.spec_invoked(
                time,
                shared,
                scheduler,
                self.callback,
                response,
                *final(ctx.shared),
                *final(ctx.scheduler),
            ));
        }
        self.respond(response)
    }
}

} // verus!
