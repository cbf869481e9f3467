use vstd::prelude::*;
use vstd::std_specs::cmp::PartialEqSpec;

verus! {

/// The outcome of an update: whether the value changed, and if so its previous value.
#[derive(Debug, Clone, Copy, PartialEq, Eq)]
pub enum Change<T> {
    Unchanged,
    /// Holds the previous value.
    Changed(T),
}

impl<T> Change<T> {
    /// The previous value, if the value changed.
    pub fn some(self) -> (r: Option<T>)
        ensures
            r == (match self {
                Change::Changed(old) => Some(old),
                Change::Unchanged => None,
            }),
    {
        match self {
            Change::Changed(old) => Some(old),
            Change::Unchanged => None,
        }
    }

    /// Returns true if the value changed.
    pub fn changed(&self) -> (r: bool)
        ensures
            r == (*self is Changed),
    {
        match self {
            Change::Changed(_) => true,
            Change::Unchanged => false,
        }
    }

    /// Calls a function with the old value as the argument if the value has changed.
    pub fn if_changed<F: FnOnce(T)>(self, f: F)
        requires
            self matches Change::Changed(old) ==> f.requires((old,)),
        ensures
            self matches Change::Changed(old) ==> f.ensures((old,), ()),
    {
        match self {
            Change::Changed(old) => f(old),
            Change::Unchanged => {},
        }
    }

    /// The previous value; the value must have changed (`msg` is the panic
    /// message the unchecked form gives).
    pub fn expect(self, msg: &str) -> (r: T)
        requires
            self is Changed,
        ensures
            self == Change::Changed(r),
    {
        match self {
            Change::Changed(previous) => previous,
            Change::Unchanged => vstd::pervasive::unreached(),
        }
    }

    /// The previous value; the value must have changed.
    pub fn unwrap(self) -> (r: T)
        requires
            self is Changed,
        ensures
            self == Change::Changed(r),
    {
        self.expect("Attempted to unwrap Change::Unchanged (no previous value present).")
    }
}

impl<T: PartialEq> Change<T> {
    /// `Changed(old_value)` when `new_value` differs from `old_value`,
    /// `Unchanged` when they are equal.
    pub fn cmp_new(new_value: &T, old_value: T) -> (r: Self)
        ensures
            r is Unchanged || r == Change::Changed(old_value),
            T::obeys_eq_spec() ==> r == (if new_value.eq_spec(&old_value) {
                Change::Unchanged
            } else {
                Change::Changed(old_value)
            }),
    {
        if *new_value != old_value {
            Change::Changed(old_value)
        } else {
            Change::Unchanged
        }
    }
}

/// Replacing a value only when the new one differs.
pub trait ReplaceCompare: Sized {
    /// Compares `self` with `src`, and replaces `self` with `src` if they are
    /// not equal. Returns `Change::Changed(old_value)` if the replacement occurred.
    fn replace_compare(&mut self, src: Self) -> (r: Change<Self>)
        ensures
            r is Unchanged ==> *final(self) == *old(self),
            r is Changed ==> r == Change::Changed(*old(self)) && *final(self) == src,
    ;
}

impl<T: PartialEq> ReplaceCompare for T {
    fn replace_compare(&mut self, src: Self) -> (r: Change<Self>)
        ensures
            T::obeys_eq_spec() ==> (r is Unchanged <==> (*old(self)).eq_spec(&src)),
    {
        if *self == src {
            Change::Unchanged
        } else {
            let mut old_value = src;
            std::mem::swap(self, &mut old_value);
            Change::Changed(old_value)
        }
    }
}

} // verus!
