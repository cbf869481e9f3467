//! Calling functions with their arguments packed in a tuple.
use vstd::prelude::*;

verus! {

/// Calling by value, consuming the function.
pub trait VariadicCallbackOnce<Args, R>: Sized {
    /// Whether the function accepts `args`.
    spec fn spec_accepts(&self, args: Args) -> bool;

    /// Whether `r` is a possible result of the call with `args`.
    spec fn spec_returns(&self, args: Args, r: R) -> bool;

    /// Calls the function with the unpacked arguments.
    fn call_consume(self, args: Args) -> (r: R)
        requires
            self.spec_accepts(args),
        ensures
            self.spec_returns(args, r),
    ;
}

/// Calling by shared reference.
pub trait VariadicCallbackRef<Args, R> {
    /// Whether the function accepts `args`.
    spec fn spec_accepts(&self, args: Args) -> bool;

    /// Whether `r` is a possible result of the call with `args`.
    spec fn spec_returns(&self, args: Args, r: R) -> bool;

    /// Calls the function with the unpacked arguments.
    fn call_immutable(&self, args: Args) -> (r: R)
        requires
            self.spec_accepts(args),
        ensures
            self.spec_returns(args, r),
    ;
}

/// Calling by mutable reference.
pub trait VariadicCallbackMut<Args, R> {
    /// Whether the function accepts `args`.
    spec fn spec_accepts(&self, args: Args) -> bool;

    /// Whether `r` is a possible result of the call with `args` on the function as it
    /// was before the call.
    spec fn spec_returns(&self, args: Args, r: R) -> bool;

    /// Calls the function with the unpacked arguments.
    fn call_mutable(&mut self, args: Args) -> (r: R)
        requires
            old(self).spec_accepts(args),
        ensures
            old(self).spec_returns(args, r),
    ;
}

impl<R, F: FnMut() -> R> VariadicCallbackMut<(), R> for F {
    open spec fn spec_accepts(&self, args: ()) -> bool {
        call_requires(*self, ())
    }

    open spec fn spec_returns(&self, args: (), r: R) -> bool {
        call_ensures(*self, (), r)
    }

    fn call_mutable(&mut self, args: ()) -> (r: R) {
        (self)()
    }
}

impl<A0, A1, R, F: FnMut(A0, A1) -> R> VariadicCallbackMut<(A0, A1), R> for F {
    open spec fn spec_accepts(&self, args: (A0, A1)) -> bool {
        call_requires(*self, (args.0, args.1))
    }

    open spec fn spec_returns(&self, args: (A0, A1), r: R) -> bool {
        call_ensures(*self, (args.0, args.1), r)
    }

    fn call_mutable(&mut self, args: (A0, A1)) -> (r: R) {
        let (a0, a1) = args;
        (self)(a0, a1)
    }
}

impl<A0, R, F: FnMut(A0) -> R> VariadicCallbackMut<(A0,), R> for F {
    open spec fn spec_accepts(&self, args: (A0,)) -> bool {
        call_requires(*self, (args.0,))
    }

    open spec fn spec_returns(&self, args: (A0,), r: R) -> bool {
        call_ensures(*self, (args.0,), r)
    }

    fn call_mutable(&mut self, args: (A0,)) -> (r: R) {
        let (a0,) = args;
        (self)(a0)
    }
}

impl<R, F: FnOnce() -> R> VariadicCallbackOnce<(), R> for F {
    open spec fn spec_accepts(&self, args: ()) -> bool {
        call_requires(*self, ())
    }

    open spec fn spec_returns(&self, args: (), r: R) -> bool {
        call_ensures(*self, (), r)
    }

    fn call_consume(self, args: ()) -> (r: R) {
        (self)()
    }
}

impl<A0, R, F: FnOnce(A0) -> R> VariadicCallbackOnce<(A0,), R> for F {
    open spec fn spec_accepts(&self, args: (A0,)) -> bool {
        call_requires(*self, (args.0,))
    }

    open spec fn spec_returns(&self, args: (A0,), r: R) -> bool {
        call_ensures(*self, (args.0,), r)
    }

    fn call_consume(self, args: (A0,)) -> (r: R) {
        let (a0,) = args;
        (self)(a0)
    }
}

impl<A0, A1, R, F: FnOnce(A0, A1) -> R> VariadicCallbackOnce<(A0, A1), R> for F {
    open spec fn spec_accepts(&self, args: (A0, A1)) -> bool {
        call_requires(*self, (args.0, args.1))
    }

    open spec fn spec_returns(&self, args: (A0, A1), r: R) -> bool {
        call_ensures(*self, (args.0, args.1), r)
    }

    fn call_consume(self, args: (A0, A1)) -> (r: R) {
        let (a0, a1) = args;
        (self)(a0, a1)
    }
}

impl<R, F: Fn() -> R> VariadicCallbackRef<(), R> for F {
    open spec fn spec_accepts(&self, args: ()) -> bool {
        call_requires(*self, ())
    }

    open spec fn spec_returns(&self, args: (), r: R) -> bool {
        call_ensures(*self, (), r)
    }

    fn call_immutable(&self, args: ()) -> (r: R) {
        (self)()
    }
}

impl<A0, R, F: Fn(A0) -> R> VariadicCallbackRef<(A0,), R> for F {
    open spec fn spec_accepts(&self, args: (A0,)) -> bool {
        call_requires(*self, (args.0,))
    }

    open spec fn spec_returns(&self, args: (A0,), r: R) -> bool {
        call_ensures(*self, (args.0,), r)
    }

    fn call_immutable(&self, args: (A0,)) -> (r: R) {
        let (a0,) = args;
        (self)(a0)
    }
}

impl<A0, A1, R, F: Fn(A0, A1) -> R> VariadicCallbackRef<(A0, A1), R> for F {
    open spec fn spec_accepts(&self, args: (A0, A1)) -> bool {
        call_requires(*self, (args.0, args.1))
    }

    open spec fn spec_returns(&self, args: (A0, A1), r: R) -> bool {
        call_ensures(*self, (args.0, args.1), r)
    }

    fn call_immutable(&self, args: (A0, A1)) -> (r: R) {
        let (a0, a1) = args;
        (self)(a0, a1)
    }
}

} // verus!
