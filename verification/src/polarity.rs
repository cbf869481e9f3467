//! The sign of a number as a value of its own.
use vstd::prelude::*;

verus! {

/// Negative or positive; zero counts as positive.
#[derive(Debug, Clone, Copy, PartialEq, Eq, Structural, PartialOrd, Ord, Hash)]
pub enum Polarity {
    Negative,
    Positive,
}

/// Signed integers, which can be compared with zero and negated.
pub trait Signed: Copy {
    /// The number.
    spec fn spec_value(self) -> int;

    /// The number is the smallest of its type, whose negation overflows.
    spec fn spec_is_min(self) -> bool;

    /// The negation of a number other than the smallest.
    fn negate(self) -> (r: Self)
        requires
            !self.spec_is_min(),
        ensures
            r.spec_value() == -self.spec_value(),
    ;

    /// Whether the number is below zero.
    fn is_negative(self) -> (r: bool)
        ensures
            r == (self.spec_value() < 0),
    ;
}

/// The polarity of the sign of `v`.
pub open spec fn polarity_of(v: int) -> Polarity {
    if v < 0 {
        Polarity::Negative
    } else {
        Polarity::Positive
    }
}

/// `v` with its sign made to match `p`: kept when its polarity is `p`, negated
/// otherwise.
pub open spec fn with_polarity(p: Polarity, v: int) -> int {
    if polarity_of(v) == p {
        v
    } else {
        -v
    }
}

/// Setting a polarity twice gives what setting it once gives, and the result has
/// that polarity unless it is zero (which counts as positive).
pub proof fn lemma_set_polarity_idempotent(p: Polarity, v: int)
    ensures
        with_polarity(p, with_polarity(p, v)) == with_polarity(p, v),
        with_polarity(p, v) != 0 ==> polarity_of(with_polarity(p, v)) == p,
{
}

impl Polarity {
    /// Negates `value` for a negative polarity, and keeps it for a positive one.
    pub fn polarize<T: Signed>(self, value: T) -> (r: T)
        requires
            self is Negative ==> !value.spec_is_min(),
        ensures
            r.spec_value() == (if self is Negative {
                -value.spec_value()
            } else {
                value.spec_value()
            }),
    {
        match self {
            Polarity::Negative => value.negate(),
            Polarity::Positive => value,
        }
    }

    /// `value` with its sign made to match the polarity (zero counts as positive).
    pub fn set_polarity<T: Signed>(self, value: T) -> (r: T)
        requires
            polarity_of(value.spec_value()) != self ==> !value.spec_is_min(),
        ensures
            r.spec_value() == with_polarity(self, value.spec_value()),
    {
        let negative = value.is_negative();
        match self {
            Polarity::Negative if negative => value,
            Polarity::Positive if !negative => value,
            _ => value.negate(),
        }
    }

    /// The polarity of `value`.
    pub fn get<T: Signed>(value: T) -> (r: Self)
        ensures
            r == polarity_of(value.spec_value()),
    {
        if value.is_negative() {
            Polarity::Negative
        } else {
            Polarity::Positive
        }
    }
}

/// Getting the polarity of a value.
pub trait GetPolarity {
    /// The polarity of the value.
    fn polarity(self) -> Polarity;
}

impl<T: Signed> GetPolarity for T {
    fn polarity(self) -> (r: Polarity)
        ensures
            r == polarity_of(self.spec_value()),
    {
        Polarity::get(self)
    }
}

impl Signed for i8 {
    open spec fn spec_value(self) -> int {
        self as int
    }

    open spec fn spec_is_min(self) -> bool {
        self == i8::MIN
    }

    fn negate(self) -> (r: i8) {
        -self
    }

    fn is_negative(self) -> (r: bool) {
        self < 0
    }
}

impl Signed for i16 {
    open spec fn spec_value(self) -> int {
        self as int
    }

    open spec fn spec_is_min(self) -> bool {
        self == i16::MIN
    }

    fn negate(self) -> (r: i16) {
        -self
    }

    fn is_negative(self) -> (r: bool) {
        self < 0
    }
}

impl Signed for i32 {
    open spec fn spec_value(self) -> int {
        self as int
    }

    open spec fn spec_is_min(self) -> bool {
        self == i32::MIN
    }

    fn negate(self) -> (r: i32) {
        -self
    }

    fn is_negative(self) -> (r: bool) {
        self < 0
    }
}

impl Signed for i64 {
    open spec fn spec_value(self) -> int {
        self as int
    }

    open spec fn spec_is_min(self) -> bool {
        self == i64::MIN
    }

    fn negate(self) -> (r: i64) {
        -self
    }

    fn is_negative(self) -> (r: bool) {
        self < 0
    }
}

impl Signed for i128 {
    open spec fn spec_value(self) -> int {
        self as int
    }

    open spec fn spec_is_min(self) -> bool {
        self == i128::MIN
    }

    fn negate(self) -> (r: i128) {
        -self
    }

    fn is_negative(self) -> (r: bool) {
        self < 0
    }
}

impl Signed for isize {
    open spec fn spec_value(self) -> int {
        self as int
    }

    open spec fn spec_is_min(self) -> bool {
        self == isize::MIN
    }

    fn negate(self) -> (r: isize) {
        -self
    }

    fn is_negative(self) -> (r: bool) {
        self < 0
    }
}

} // verus!
