//! Repeating a callback at a fixed interval.
use vstd::prelude::*;
use crate::time::Duration;
use super::task_response::TaskResponse;

verus! {

/// What an interval is counted from.
#[derive(Debug, Clone, Copy, PartialEq, Eq, Structural, PartialOrd, Ord, Hash)]
pub enum EveryTimeAnchor {
    /// The time the task was scheduled for.
    Schedule,
    /// The time the task returned.
    After,
    /// The time the task began.
    Before,
}

/// A callback that runs again every `duration`, until it answers [`TaskResponse::Finish`].
pub struct Every<C> {
    pub duration: Duration,
    pub anchor: EveryTimeAnchor,
    pub callback: C,
}

/// `callback`, repeated every `duration` counted from `anchor`.
pub fn every<C>(duration: Duration, anchor: EveryTimeAnchor, callback: C) -> (r: Every<C>)
    ensures
        r.duration == duration,
        r.anchor == anchor,
        r.callback == callback,
{
    Every { duration, anchor, callback }
}

/// The response of a repeated task whose callback answered `inner`: finished when the
/// callback finished, else the next run `duration` after the anchor.
pub open spec fn every_response(anchor: EveryTimeAnchor, duration: Duration, inner: TaskResponse) -> TaskResponse {
    if inner is Finish {
        TaskResponse::Finish
    } else {
        match anchor {
            EveryTimeAnchor::Schedule => TaskResponse::AfterScheduled(duration),
            EveryTimeAnchor::After => TaskResponse::AfterTaskEnds(duration),
            EveryTimeAnchor::Before => TaskResponse::AfterTaskBegan(duration),
        }
    }
}

impl<C> Every<C> {
    /// The response to the scheduler after the inner callback answered `inner`.
    pub fn respond(&self, inner: TaskResponse) -> (r: TaskResponse)
        ensures
            r == every_response(self.anchor, self.duration, inner),
    {
        if inner.finished() {
            return TaskResponse::Finish;
        }
        match self.anchor {
            EveryTimeAnchor::Schedule => TaskResponse::AfterScheduled(self.duration),
            EveryTimeAnchor::After => TaskResponse::AfterTaskEnds(self.duration),
            EveryTimeAnchor::Before => TaskResponse::AfterTaskBegan(self.duration),
        }
    }
}

} // verus!
