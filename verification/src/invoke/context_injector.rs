//! Tasks made from closures together with data they keep between runs.
use vstd::prelude::*;

verus! {

/// A closure with the data it is handed on every run.
pub struct ContextInjector<DataArgs, F> {
    /// The data handed to the closure.
    pub data: DataArgs,
    /// The closure.
    pub callback: F,
}

impl<F> ContextInjector<(), F> {
    /// A closure without data.
    pub fn new(callback: F) -> (r: ContextInjector<(), F>)
        ensures
            r.callback == callback,
    {
        ContextInjector { data: (), callback }
    }
}

impl<DataArgs, F> ContextInjector<DataArgs, F> {
    /// A closure with `data`.
    pub fn with_data(data: DataArgs, callback: F) -> (r: ContextInjector<DataArgs, F>)
        ensures
            r.data == data,
            r.callback == callback,
    {
        ContextInjector { data, callback }
    }
}

/// A closure with `data`, ready to be scheduled.
pub fn with<DataArgs, F>(data: DataArgs, callback: F) -> (r: ContextInjector<DataArgs, F>)
    ensures
        r.data == data,
        r.callback == callback,
{
    ContextInjector { data, callback }
}

} // verus!
