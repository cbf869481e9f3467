//! An optional value of the scheduler's own, convertible to and from `Option`.
use vstd::prelude::*;

verus! {

/// A value that may be absent.
#[derive(Debug, Clone, Copy, PartialEq, Eq, Structural, PartialOrd, Ord, Hash)]
pub enum Optional<T> {
    Nothing,
    Just(T),
}

impl<T> Optional<T> {
    /// The `Optional` holding what `option` holds.
    pub fn from_option(option: Option<T>) -> (r: Self)
        ensures
            r == (match option {
                Some(v) => Optional::Just(v),
                None => Optional::<T>::Nothing,
            }),
    {
        match option {
            Some(some) => Optional::Just(some),
            None => Optional::Nothing,
        }
    }

    /// The `Option` holding what this holds.
    pub fn to_option(self) -> (r: Option<T>)
        ensures
            r == (match self {
                Optional::Just(v) => Some(v),
                Optional::Nothing => None::<T>,
            }),
    {
        match self {
            Optional::Nothing => None,
            Optional::Just(some) => Some(some),
        }
    }
}

impl<T> From<Option<T>> for Optional<T> {
    fn from(value: Option<T>) -> (r: Optional<T>) {
        Self::from_option(value)
    }
}

impl<T> vstd::std_specs::convert::FromSpecImpl<Option<T>> for Optional<T> {
    open spec fn obeys_from_spec() -> bool {
        true
    }

    open spec fn from_spec(v: Option<T>) -> Optional<T> {
        match v {
            Some(x) => Optional::Just(x),
            None => Optional::Nothing,
        }
    }
}

/// Converting there and back gives the same value.
pub proof fn lemma_optional_round_trip<T>(option: Option<T>, optional: Optional<T>)
    ensures
        (match (match option {
            Some(v) => Optional::Just(v),
            None => Optional::<T>::Nothing,
        }) {
            Optional::Just(v) => Some(v),
            Optional::Nothing => None::<T>,
        }) == option,
        (match (match optional {
            Optional::Just(v) => Some(v),
            Optional::Nothing => None::<T>,
        }) {
            Some(v) => Optional::Just(v),
            None => Optional::<T>::Nothing,
        }) == optional,
{
}

} // verus!
