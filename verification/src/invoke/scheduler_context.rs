//! Looking up task arguments in the shared state.
use vstd::prelude::*;
use super::optional::Optional;

verus! {

/// The shared state that tasks draw their arguments from.
pub trait SchedulerContext: Sized {

}

impl SchedulerContext for () {

}

/// Values made from the shared state as a whole.
pub trait ResolveContext<'ctx, Ctx>: Sized {
    /// The value for the shared state `ctx`.
    fn resolve(ctx: &'ctx mut Ctx) -> Self;
}

impl<'ctx, Ctx> ResolveContext<'ctx, Ctx> for () {
    fn resolve(ctx: &'ctx mut Ctx) -> (r: ()) {
    }
}

impl<'ctx, Ctx> ResolveContext<'ctx, Ctx> for &'ctx mut Ctx {
    /// The shared state itself: what is written through the result is what the state
    /// holds afterwards.
    fn resolve(ctx: &'ctx mut Ctx) -> (r: &'ctx mut Ctx)
        ensures
            *r == *old(ctx),
            *final(ctx) == *final(r),
    {
        ctx
    }
}

/// Why an argument could not be found.
#[derive(Debug, Clone, Copy, PartialEq, Eq, PartialOrd, Ord, Hash)]
pub enum ResolveError {
    /// No value of the named type is there, which is an error.
    NotFound(&'static str),
    /// No value is there, and the task is to be skipped.
    Skip,
}

/// A value that can be looked up in the shared state.
pub trait ContextResolvable<Ctx>: Sized {
    /// Whether looking the value up in `before` can leave the state as `after` and
    /// give `r`.
    spec fn spec_resolved(before: Ctx, after: Ctx, r: Result<Self, ResolveError>) -> bool;

    /// Looks the value up.
    fn resolve(context: &mut Ctx) -> (r: Result<Self, ResolveError>)
        ensures
            Self::spec_resolved(*old(context), *final(context), r),
    ;
}

impl<Ctx, T: ContextResolvable<Ctx>> ContextResolvable<Ctx> for Optional<T> {
    /// The inner value if it was found, `Nothing` if not; never an error.
    open spec fn spec_resolved(before: Ctx, after: Ctx, r: Result<Optional<T>, ResolveError>) -> bool {
        exists|inner: Result<T, ResolveError>|
            #[trigger] T::spec_resolved(before, after, inner) && r == Ok::<Optional<T>, ResolveError>(
                match inner {
                    Ok(v) => Optional::Just(v),
                    Err(_) => Optional::Nothing,
                },
            )
    }

    fn resolve(context: &mut Ctx) -> (r: Result<Optional<T>, ResolveError>)
        ensures
            r is Ok,
    {
        match T::resolve(context) {
            Ok(some) => Ok(Optional::Just(some)),
            Err(_) => Ok(Optional::Nothing),
        }
    }
}

/// A value whose absence skips the task instead of failing it.
pub struct Skip<T>(pub T);

impl<Ctx, T: ContextResolvable<Ctx>> ContextResolvable<Ctx> for Skip<T> {
    /// The inner value if it was found; any failure becomes [`ResolveError::Skip`].
    open spec fn spec_resolved(before: Ctx, after: Ctx, r: Result<Skip<T>, ResolveError>) -> bool {
        exists|inner: Result<T, ResolveError>|
            #[trigger] T::spec_resolved(before, after, inner) && r == match inner {
                Ok(v) => Ok::<Skip<T>, ResolveError>(Skip(v)),
                Err(_) => Err::<Skip<T>, ResolveError>(ResolveError::Skip),
            }
    }

    fn resolve(context: &mut Ctx) -> (r: Result<Skip<T>, ResolveError>)
        ensures
            r is Err ==> r == Err::<Skip<T>, ResolveError>(ResolveError::Skip),
    {
        match T::resolve(context) {
            Err(_) => Err(ResolveError::Skip),
            Ok(inner) => Ok(Skip(inner)),
        }
    }
}

/// A group of values looked up one after another; the first failure is the result.
pub trait GroupResolver<Ctx>: Sized {
    /// Whether looking the group up in `before` can leave the state as `after` and
    /// give `r`.
    spec fn spec_group_resolved(before: Ctx, after: Ctx, r: Result<Self, ResolveError>) -> bool;

    /// Looks the values up.
    fn group_resolve(context: &mut Ctx) -> (r: Result<Self, ResolveError>)
        ensures
            Self::spec_group_resolved(*old(context), *final(context), r),
    ;
}

impl<Ctx> GroupResolver<Ctx> for () {
    open spec fn spec_group_resolved(before: Ctx, after: Ctx, r: Result<(), ResolveError>) -> bool {
        r == Ok::<(), ResolveError>(()) && after == before
    }

    fn group_resolve(context: &mut Ctx) -> (r: Result<(), ResolveError>)
        ensures
            r is Ok,
    {
        Ok(())
    }
}

impl<Ctx, T0: ContextResolvable<Ctx>> GroupResolver<Ctx> for (T0,) {
    open spec fn spec_group_resolved(before: Ctx, after: Ctx, r: Result<(T0,), ResolveError>) -> bool {
        match r {
            Ok(v) => T0::spec_resolved(before, after, Ok(v.0)),
            Err(e) => T0::spec_resolved(before, after, Err(e)),
        }
    }

    fn group_resolve(context: &mut Ctx) -> (r: Result<(T0,), ResolveError>) {
        let t0 = match T0::resolve(context) {
            Ok(v) => v,
            Err(e) => return Err(e),
        };
        Ok((t0,))
    }
}

impl<Ctx, T0: ContextResolvable<Ctx>, T1: ContextResolvable<Ctx>> GroupResolver<Ctx> for (T0, T1) {
    open spec fn spec_group_resolved(before: Ctx, after: Ctx, r: Result<(T0, T1), ResolveError>) -> bool {
        match r {
            Ok(v) => exists|mid: Ctx|
                #[trigger] T0::spec_resolved(before, mid, Ok(v.0)) && T1::spec_resolved(mid, after, Ok(v.1)),
            Err(e) => T0::spec_resolved(before, after, Err(e)) || exists|mid: Ctx, v0: T0|
                #[trigger] T0::spec_resolved(before, mid, Ok(v0)) && T1::spec_resolved(mid, after, Err(e)),
        }
    }

    fn group_resolve(context: &mut Ctx) -> (r: Result<(T0, T1), ResolveError>) {
        let ghost c0 = *context;
        let r0 = T0::resolve(context);
        let ghost c1 = *context;
        let t0 = match r0 {
            Ok(v) => v,
            Err(e) => return Err(e),
        };
        let r1 = T1::resolve(context);
        let ghost c2 = *context;
        proof {
            assert(T0::spec_resolved(c0, c1, Ok(t0)));
        }
        let t1 = match r1 {
            Ok(v) => v,
            Err(e) => return Err(e),
        };
        proof {
            assert(T1::spec_resolved(c1, c2, Ok(t1)));
        }
        let pair = (t0, t1);
        proof {
            assert(T0::spec_resolved(c0, c1, Ok(pair.0)));
            let found: Result<(T0, T1), ResolveError> = Ok(pair);
            assert(found->Ok_0 == pair);
        }
        Ok(pair)
    }
}

impl<
    Ctx,
    T0: ContextResolvable<Ctx>,
    T1: ContextResolvable<Ctx>,
    T2: ContextResolvable<Ctx>,
> GroupResolver<Ctx> for (T0, T1, T2) {
    open spec fn spec_group_resolved(before: Ctx, after: Ctx, r: Result<(T0, T1, T2), ResolveError>) -> bool {
        match r {
            Ok(v) => exists|m1: Ctx, m2: Ctx|
                #[trigger] T0::spec_resolved(before, m1, Ok(v.0)) && #[trigger] T1::spec_resolved(m1, m2, Ok(v.1))
                    && T2::spec_resolved(m2, after, Ok(v.2)),
            Err(e) => T0::spec_resolved(before, after, Err(e)) || (exists|m1: Ctx, v0: T0|
                #[trigger] T0::spec_resolved(before, m1, Ok(v0)) && T1::spec_resolved(m1, after, Err(e)))
                || (exists|m1: Ctx, m2: Ctx, v0: T0, v1: T1|
                #[trigger] T0::spec_resolved(before, m1, Ok(v0)) && #[trigger] T1::spec_resolved(m1, m2, Ok(v1))
                    && T2::spec_resolved(m2, after, Err(e))),
        }
    }

    fn group_resolve(context: &mut Ctx) -> (r: Result<(T0, T1, T2), ResolveError>) {
        let ghost c0 = *context;
        let r0 = T0::resolve(context);
        let ghost c1 = *context;
        let t0 = match r0 {
            Ok(v) => v,
            Err(e) => return Err(e),
        };
        proof {
            assert(T0::spec_resolved(c0, c1, Ok(t0)));
        }
        let r1 = T1::resolve(context);
        let ghost c2 = *context;
        let t1 = match r1 {
            Ok(v) => v,
            Err(e) => return Err(e),
        };
        proof {
            assert(T1::spec_resolved(c1, c2, Ok(t1)));
        }
        let r2 = T2::resolve(context);
        let ghost c3 = *context;
        let t2 = match r2 {
            Ok(v) => v,
            Err(e) => return Err(e),
        };
        proof {
            assert(T2::spec_resolved(c2, c3, Ok(t2)));
        }
        let triple = (t0, t1, t2);
        proof {
            assert(T0::spec_resolved(c0, c1, Ok(triple.0)));
            assert(T1::spec_resolved(c1, c2, Ok(triple.1)));
            let found: Result<(T0, T1, T2), ResolveError> = Ok(triple);
            assert(found->Ok_0 == triple);
        }
        Ok(triple)
    }
}

} // verus!
