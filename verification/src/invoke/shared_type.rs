//! Reading a value of the shared state that may or may not be there.
use vstd::prelude::*;

verus! {

/// Turning a value that may be missing into the type a task asks for: the value
/// itself, which must then be present, or the `Option`.
pub trait ResolveMaybeOptional<T>: Sized {
    /// Whether `input` can be turned into this type.
    spec fn spec_resolvable(input: Option<T>) -> bool;

    /// The value that `input` is turned into.
    spec fn spec_resolved(input: Option<T>) -> Self;

    /// Turns `input` into this type.
    fn resolve(input: Option<T>) -> (r: Self)
        requires
            Self::spec_resolvable(input),
        ensures
            r == Self::spec_resolved(input),
    ;
}

impl<T> ResolveMaybeOptional<T> for T {
    open spec fn spec_resolvable(input: Option<T>) -> bool {
        input is Some
    }

    open spec fn spec_resolved(input: Option<T>) -> T {
        input->0
    }

    fn resolve(input: Option<T>) -> (r: T) {
        input.unwrap()
    }
}

impl<T> ResolveMaybeOptional<T> for Option<T> {
    open spec fn spec_resolvable(input: Option<T>) -> bool {
        true
    }

    open spec fn spec_resolved(input: Option<T>) -> Option<T> {
        input
    }

    fn resolve(input: Option<T>) -> (r: Option<T>) {
        input
    }
}

/// A store of shared values, found by their type.
pub trait SharedType {
    /// The value of type `T`, if there is one.
    fn get<T>(&self) -> Option<T>;
}

} // verus!
