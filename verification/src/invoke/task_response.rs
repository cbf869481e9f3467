//! What a task asks of the scheduler when it returns.
use vstd::prelude::*;
use crate::time::{Duration, Instant, MAX_NANOS};

verus! {

/// What to do with a task after it ran.
#[derive(Debug, Clone, Copy, PartialEq, Eq, Structural, PartialOrd, Ord, Hash)]
pub enum TaskResponse {
    /// Finish the task, do nothing.
    Continue,
    /// Finish the task.
    Finish,
    /// Run the task again at once.
    Immediate,
    /// Run the task again this long after it began.
    AfterTaskBegan(Duration),
    /// Run the task again this long after it returned.
    AfterTaskEnds(Duration),
    /// Run the task again this long after the time it was scheduled for.
    AfterScheduled(Duration),
    /// Run the task again at this instant.
    At(Instant),
}

impl Default for TaskResponse {
    fn default() -> (r: TaskResponse)
        ensures
            r == TaskResponse::Continue,
    {
        TaskResponse::Continue
    }
}

impl TaskResponse {
    /// `default` if the response is [`TaskResponse::Finish`], else the response.
    pub fn unfinished_or(self, default: TaskResponse) -> (r: TaskResponse)
        ensures
            r == (if self is Finish {
                default
            } else {
                self
            }),
    {
        match self {
            TaskResponse::Finish => default,
            unfinished => unfinished,
        }
    }

    /// What `default` returns if the response is [`TaskResponse::Finish`], else the response.
    pub fn unfinished_or_else<F: FnOnce() -> TaskResponse>(self, default: F) -> (r: TaskResponse)
        requires
            self is Finish ==> default.requires(()),
        ensures
            self is Finish ==> default.ensures((), r),
            !(self is Finish) ==> r == self,
    {
        match self {
            TaskResponse::Finish => default(),
            unfinished => unfinished,
        }
    }

    /// Whether the response is [`TaskResponse::Finish`].
    pub fn finished(self) -> (r: bool)
        ensures
            r == (self is Finish),
    {
        match self {
            TaskResponse::Finish => true,
            _ => false,
        }
    }
}

impl From<()> for TaskResponse {
    fn from(value: ()) -> (r: TaskResponse) {
        TaskResponse::Finish
    }
}

impl vstd::std_specs::convert::FromSpecImpl<()> for TaskResponse {
    open spec fn obeys_from_spec() -> bool {
        true
    }

    open spec fn from_spec(v: ()) -> TaskResponse {
        TaskResponse::Finish
    }
}

impl From<Duration> for TaskResponse {
    fn from(value: Duration) -> (r: TaskResponse) {
        TaskResponse::AfterTaskEnds(value)
    }
}

impl vstd::std_specs::convert::FromSpecImpl<Duration> for TaskResponse {
    open spec fn obeys_from_spec() -> bool {
        true
    }

    open spec fn from_spec(v: Duration) -> TaskResponse {
        TaskResponse::AfterTaskEnds(v)
    }
}

impl From<Instant> for TaskResponse {
    fn from(value: Instant) -> (r: TaskResponse) {
        TaskResponse::At(value)
    }
}

impl vstd::std_specs::convert::FromSpecImpl<Instant> for TaskResponse {
    open spec fn obeys_from_spec() -> bool {
        true
    }

    open spec fn from_spec(v: Instant) -> TaskResponse {
        TaskResponse::At(v)
    }
}

impl From<Option<TaskResponse>> for TaskResponse {
    fn from(value: Option<TaskResponse>) -> (r: TaskResponse) {
        match value {
            Some(response) => response,
            None => TaskResponse::Finish,
        }
    }
}

impl vstd::std_specs::convert::FromSpecImpl<Option<TaskResponse>> for TaskResponse {
    open spec fn obeys_from_spec() -> bool {
        true
    }

    open spec fn from_spec(v: Option<TaskResponse>) -> TaskResponse {
        match v {
            Some(response) => response,
            None => TaskResponse::Finish,
        }
    }
}

/// When a task that was scheduled for `scheduled`, began at `began` and returned at
/// `ended` runs next, after it answered `response`: `None` when it is done.
pub open spec fn next_run(
    response: TaskResponse,
    scheduled: Instant,
    began: Instant,
    ended: Instant,
) -> Option<nat> {
    match response {
        TaskResponse::Continue => None,
        TaskResponse::Finish => None,
        TaskResponse::Immediate => Some(ended@),
        TaskResponse::AfterTaskBegan(d) => Some(began@ + d@),
        TaskResponse::AfterTaskEnds(d) => Some(ended@ + d@),
        TaskResponse::AfterScheduled(d) => Some(scheduled@ + d@),
        TaskResponse::At(instant) => Some(instant@),
    }
}

/// The instant at which a task runs next, as [`next_run`] describes it; `None` when
/// it is done or when that instant is out of range.
pub fn reschedule_time(response: TaskResponse, scheduled: Instant, began: Instant, ended: Instant) -> (r: Option<Instant>)
    ensures
        r is Some <==> (next_run(response, scheduled, began, ended) is Some && next_run(
            response,
            scheduled,
            began,
            ended,
        )->0 <= MAX_NANOS),
        r is Some ==> r->0@ == next_run(response, scheduled, began, ended)->0,
{
    match response {
        TaskResponse::Finish | TaskResponse::Continue => None,
        TaskResponse::AfterTaskBegan(duration) => began.checked_add(duration),
        TaskResponse::AfterTaskEnds(duration) => ended.checked_add(duration),
        TaskResponse::AfterScheduled(duration) => scheduled.checked_add(duration),
        TaskResponse::At(instant) => {
            let _ = instant.as_nanos();
            Some(instant)
        },
        TaskResponse::Immediate => {
            let _ = ended.as_nanos();
            Some(ended)
        },
    }
}

} // verus!
