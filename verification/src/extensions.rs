use vstd::prelude::*;
use std::ops::{Range, RangeInclusive};

verus! {

/// Wrapping a value in `Some`.
pub trait ToSome: Sized {
    /// `Some(self)`.
    fn some(self) -> (r: Option<Self>)
        ensures
            r == Some(self),
    ;
}

impl<T: Sized> ToSome for T {
    fn some(self) -> (r: Option<Self>) {
        Some(self)
    }
}

/// Wrapping a value in an array of one element.
pub trait ArrayOfOne: Sized {
    /// `[self]`.
    fn array_of_one(self) -> (r: [Self; 1])
        ensures
            r@ == seq![self],
    ;
}

impl<T: Sized> ArrayOfOne for T {
    fn array_of_one(self) -> (r: [Self; 1]) {
        let r = [self];
        assert(r@ =~= seq![self]);
        r
    }
}

/// `std::slice::from_ref`: the one-element slice that borrows `x`.
#[verifier::external_body]
fn slice_from_ref<T>(x: &T) -> (r: &[T])
    ensures
        r@ == seq![*x],
{
    std::slice::from_ref(x)
}

/// Viewing a value as a slice of one element.
pub trait AsSliceOfOne: Sized {
    /// The one-element slice that holds `self`.
    fn as_slice_of_one(&self) -> (r: &[Self])
        ensures
            r@ == seq![*self],
    ;
}

impl<T: Sized> AsSliceOfOne for T {
    fn as_slice_of_one(&self) -> (r: &[Self]) {
        slice_from_ref(self)
    }
}

/// `std::slice::from_mut`: the one-element slice that borrows `x` mutably. What is
/// written through the slice is what `x` holds afterwards.
#[verifier::external_body]
fn slice_from_mut<T>(x: &mut T) -> (r: &mut [T])
    ensures
        r@ == seq![*old(x)],
        final(r)@.len() == 1,
        *final(x) == final(r)@[0],
{
    std::slice::from_mut(x)
}

/// Viewing a value as a mutable slice of one element.
pub trait AsSliceOfOneMut: Sized {
    /// The one-element slice that holds `self`, through which it can be changed.
    fn as_slice_of_one_mut(&mut self) -> (r: &mut [Self])
        ensures
            r@ == seq![*old(self)],
            final(r)@.len() == 1,
            *final(self) == final(r)@[0],
    ;
}

impl<T: Sized> AsSliceOfOneMut for T {
    fn as_slice_of_one_mut(&mut self) -> (r: &mut [Self]) {
        slice_from_mut(self)
    }
}

/// Wrapping a value in a tuple of one element.
pub trait TupleOfOne: Sized {
    /// `(self,)`.
    fn tuple_of_one(self) -> (r: (Self,))
        ensures
            r == (self,),
    ;
}

impl<T: Sized> TupleOfOne for T {
    fn tuple_of_one(self) -> (r: (Self,)) {
        (self,)
    }
}

/// In-place replacement of values.
pub trait Replace: Sized {
    /// Replaces `self` with `src` and returns the old value.
    fn replace(&mut self, src: Self) -> (r: Self)
        ensures
            r == *old(self),
            *final(self) == src,
    ;
}

impl<T: Sized> Replace for T {
    fn replace(&mut self, src: Self) -> (r: Self) {
        let mut r = src;
        std::mem::swap(self, &mut r);
        r
    }
}

/// An extension to the [`Option`] type.
pub trait OptionExtension<T>: Sized {
    /// Calls `then` with the inner value as argument if `self` is `Some`.
    fn then<F: FnOnce(T)>(self, then: F)
        requires
            forall|v: T| then.requires((v,)),
    ;

    /// If `self` is `Some`, takes the value and drops it, leaving `None`.
    fn drop(&mut self)
        ensures
            final(self).spec_is_none(),
    ;

    /// Whether this is `None`.
    spec fn spec_is_none(self) -> bool;
}

impl<T> OptionExtension<T> for Option<T> {
    open spec fn spec_is_none(self) -> bool {
        self is None
    }

    fn then<F: FnOnce(T)>(self, then: F) {
        match self {
            Some(value) => then(value),
            None => {},
        }
    }

    fn drop(&mut self) {
        *self = None;
    }
}

/// An extension to the [`bool`] type.
pub trait BoolExtension: Sized {
    /// `self` as a spec value.
    spec fn spec_bool(self) -> bool;

    /// `true_` if `self`, else `false_`.
    fn select<T>(self, true_: T, false_: T) -> (r: T)
        ensures
            r == (if self.spec_bool() {
                true_
            } else {
                false_
            }),
    ;

    /// Calls `true_` if `self`, else `false_`, and returns what it returns.
    fn select_fn<T, TF: FnOnce() -> T, FF: FnOnce() -> T>(self, true_: TF, false_: FF) -> (r: T)
        requires
            self.spec_bool() ==> true_.requires(()),
            !self.spec_bool() ==> false_.requires(()),
        ensures
            self.spec_bool() ==> true_.ensures((), r),
            !self.spec_bool() ==> false_.ensures((), r),
    ;

    /// Calls `true_(value)` if `self`, else `false_(value)`.
    fn select_unary<T, V, TF: FnOnce(V) -> T, FF: FnOnce(V) -> T>(
        self,
        value: V,
        true_: TF,
        false_: FF,
    ) -> (r: T)
        requires
            self.spec_bool() ==> true_.requires((value,)),
            !self.spec_bool() ==> false_.requires((value,)),
        ensures
            self.spec_bool() ==> true_.ensures((value,), r),
            !self.spec_bool() ==> false_.ensures((value,), r),
    ;

    /// Sets the value to true and returns true if it was previously false.
    fn mark(&mut self) -> (r: bool)
        ensures
            final(self).spec_bool(),
            r == !old(self).spec_bool(),
    ;

    /// If the condition holds, sets the value to true and returns true if the value changed.
    fn mark_if(&mut self, condition: bool) -> (r: bool)
        ensures
            final(self).spec_bool() == (condition || old(self).spec_bool()),
            r == (condition && !old(self).spec_bool()),
    ;

    /// Sets the value to false and returns true if it was previously true.
    fn unmark(&mut self) -> (r: bool)
        ensures
            !final(self).spec_bool(),
            r == old(self).spec_bool(),
    ;

    /// If the condition holds, sets the value to false and returns true if the value changed.
    fn unmark_if(&mut self, condition: bool) -> (r: bool)
        ensures
            final(self).spec_bool() == (!condition && old(self).spec_bool()),
            r == (condition && old(self).spec_bool()),
    ;

    /// Inverts the value and returns the new value.
    fn toggle(&mut self) -> (r: Self)
        ensures
            final(self).spec_bool() == !old(self).spec_bool(),
            r.spec_bool() == final(self).spec_bool(),
    ;

    /// Inverts the value if the condition holds, and returns the new value.
    fn toggle_if(&mut self, condition: bool) -> (r: Self)
        ensures
            final(self).spec_bool() == (old(self).spec_bool() != condition),
            r.spec_bool() == final(self).spec_bool(),
    ;

    /// Calls `if_` when `self` is true.
    fn if_<F: FnOnce()>(self, if_: F)
        requires
            self.spec_bool() ==> if_.requires(()),
    ;

    /// Calls `not_` when `self` is false.
    fn if_not<F: FnOnce()>(self, not_: F)
        requires
            !self.spec_bool() ==> not_.requires(()),
    ;

    /// Calls `if_` when `self` is true, else `else_`, and returns what it returns.
    fn if_else<R, If: FnOnce() -> R, Else: FnOnce() -> R>(self, if_: If, else_: Else) -> (r: R)
        requires
            self.spec_bool() ==> if_.requires(()),
            !self.spec_bool() ==> else_.requires(()),
        ensures
            self.spec_bool() ==> if_.ensures((), r),
            !self.spec_bool() ==> else_.ensures((), r),
    ;
}

impl BoolExtension for bool {
    open spec fn spec_bool(self) -> bool {
        self
    }

    fn select<T>(self, true_: T, false_: T) -> (r: T) {
        if self {
            true_
        } else {
            false_
        }
    }

    fn select_fn<T, TF: FnOnce() -> T, FF: FnOnce() -> T>(self, true_: TF, false_: FF) -> (r: T) {
        if self {
            true_()
        } else {
            false_()
        }
    }

    fn select_unary<T, V, TF: FnOnce(V) -> T, FF: FnOnce(V) -> T>(
        self,
        value: V,
        true_: TF,
        false_: FF,
    ) -> (r: T) {
        if self {
            true_(value)
        } else {
            false_(value)
        }
    }

    fn mark(&mut self) -> (r: bool) {
        let changed = !*self;
        *self = true;
        changed
    }

    fn mark_if(&mut self, condition: bool) -> (r: bool) {
        if condition {
            let changed = !*self;
            *self = true;
            changed
        } else {
            false
        }
    }

    fn unmark(&mut self) -> (r: bool) {
        let changed = *self;
        *self = false;
        changed
    }

    fn unmark_if(&mut self, condition: bool) -> (r: bool) {
        if condition {
            let changed = *self;
            *self = false;
            changed
        } else {
            false
        }
    }

    fn toggle(&mut self) -> (r: Self) {
        *self = !*self;
        *self
    }

    fn toggle_if(&mut self, condition: bool) -> (r: Self) {
        if condition {
            *self = !*self;
        }
        *self
    }

    fn if_<F: FnOnce()>(self, if_: F) {
        if self {
            if_()
        }
    }

    fn if_not<F: FnOnce()>(self, not_: F) {
        if !self {
            not_()
        }
    }

    fn if_else<R, If: FnOnce() -> R, Else: FnOnce() -> R>(self, if_: If, else_: Else) -> (r: R) {
        self.select_fn(if_, else_)
    }
}

/// Ranges of integers.
pub trait NumIter: Sized + Copy {
    /// The range from 0 to `self`.
    fn iter(self) -> (r: Range<Self>);

    /// The range from 0 to `self`, `self` included.
    fn iter_inclusive(self) -> (r: RangeInclusive<Self>);

    /// The range from `self` to `end`.
    fn iter_to(self, end: Self) -> (r: Range<Self>)
        ensures
            r.start == self,
            r.end == end,
    ;

    /// The range from `self` to `end`, `end` included.
    fn iter_to_inclusive(self, end: Self) -> (r: RangeInclusive<Self>);
}

/// Incrementing integers in place.
pub trait Increment: Sized {
    /// Whether incrementing does not overflow.
    spec fn can_increment(self) -> bool;

    /// `self` plus one.
    spec fn spec_next(self) -> Self;

    /// Increments and returns the result.
    fn increment(&mut self) -> (r: Self)
        requires
            old(self).can_increment(),
        ensures
            *final(self) == old(self).spec_next(),
            r == *final(self),
    ;

    /// Increments and returns the value before incrementing.
    fn post_increment(&mut self) -> (r: Self)
        requires
            old(self).can_increment(),
        ensures
            *final(self) == old(self).spec_next(),
            r == *old(self),
    ;
}

/// Decrementing integers in place.
pub trait Decrement: Sized {
    /// Whether decrementing does not overflow.
    spec fn can_decrement(self) -> bool;

    /// `self` minus one.
    spec fn spec_prev(self) -> Self;

    /// Decrements and returns the result.
    fn decrement(&mut self) -> (r: Self)
        requires
            old(self).can_decrement(),
        ensures
            *final(self) == old(self).spec_prev(),
            r == *final(self),
    ;

    /// Decrements and returns the value before decrementing.
    fn post_decrement(&mut self) -> (r: Self)
        requires
            old(self).can_decrement(),
        ensures
            *final(self) == old(self).spec_prev(),
            r == *old(self),
    ;
}

impl NumIter for u8 {
    fn iter(self) -> (r: Range<u8>)
        ensures
            r.start == 0,
            r.end == self,
    {
        0..self
    }

    fn iter_inclusive(self) -> (r: RangeInclusive<u8>) {
        0..=self
    }

    fn iter_to(self, end: u8) -> (r: Range<u8>) {
        self..end
    }

    fn iter_to_inclusive(self, end: u8) -> (r: RangeInclusive<u8>) {
        self..=end
    }
}

impl Increment for u8 {
    open spec fn can_increment(self) -> bool {
        self < u8::MAX
    }

    open spec fn spec_next(self) -> u8 {
        (self + 1) as u8
    }

    fn increment(&mut self) -> (r: u8) {
        *self += 1;
        *self
    }

    fn post_increment(&mut self) -> (r: u8) {
        let original = *self;
        *self += 1;
        original
    }
}

impl Decrement for u8 {
    open spec fn can_decrement(self) -> bool {
        self > u8::MIN
    }

    open spec fn spec_prev(self) -> u8 {
        (self - 1) as u8
    }

    fn decrement(&mut self) -> (r: u8) {
        *self -= 1;
        *self
    }

    fn post_decrement(&mut self) -> (r: u8) {
        let original = *self;
        *self -= 1;
        original
    }
}

impl NumIter for u16 {
    fn iter(self) -> (r: Range<u16>)
        ensures
            r.start == 0,
            r.end == self,
    {
        0..self
    }

    fn iter_inclusive(self) -> (r: RangeInclusive<u16>) {
        0..=self
    }

    fn iter_to(self, end: u16) -> (r: Range<u16>) {
        self..end
    }

    fn iter_to_inclusive(self, end: u16) -> (r: RangeInclusive<u16>) {
        self..=end
    }
}

impl Increment for u16 {
    open spec fn can_increment(self) -> bool {
        self < u16::MAX
    }

    open spec fn spec_next(self) -> u16 {
        (self + 1) as u16
    }

    fn increment(&mut self) -> (r: u16) {
        *self += 1;
        *self
    }

    fn post_increment(&mut self) -> (r: u16) {
        let original = *self;
        *self += 1;
        original
    }
}

impl Decrement for u16 {
    open spec fn can_decrement(self) -> bool {
        self > u16::MIN
    }

    open spec fn spec_prev(self) -> u16 {
        (self - 1) as u16
    }

    fn decrement(&mut self) -> (r: u16) {
        *self -= 1;
        *self
    }

    fn post_decrement(&mut self) -> (r: u16) {
        let original = *self;
        *self -= 1;
        original
    }
}

impl NumIter for u32 {
    fn iter(self) -> (r: Range<u32>)
        ensures
            r.start == 0,
            r.end == self,
    {
        0..self
    }

    fn iter_inclusive(self) -> (r: RangeInclusive<u32>) {
        0..=self
    }

    fn iter_to(self, end: u32) -> (r: Range<u32>) {
        self..end
    }

    fn iter_to_inclusive(self, end: u32) -> (r: RangeInclusive<u32>) {
        self..=end
    }
}

impl Increment for u32 {
    open spec fn can_increment(self) -> bool {
        self < u32::MAX
    }

    open spec fn spec_next(self) -> u32 {
        (self + 1) as u32
    }

    fn increment(&mut self) -> (r: u32) {
        *self += 1;
        *self
    }

    fn post_increment(&mut self) -> (r: u32) {
        let original = *self;
        *self += 1;
        original
    }
}

impl Decrement for u32 {
    open spec fn can_decrement(self) -> bool {
        self > u32::MIN
    }

    open spec fn spec_prev(self) -> u32 {
        (self - 1) as u32
    }

    fn decrement(&mut self) -> (r: u32) {
        *self -= 1;
        *self
    }

    fn post_decrement(&mut self) -> (r: u32) {
        let original = *self;
        *self -= 1;
        original
    }
}

impl NumIter for u64 {
    fn iter(self) -> (r: Range<u64>)
        ensures
            r.start == 0,
            r.end == self,
    {
        0..self
    }

    fn iter_inclusive(self) -> (r: RangeInclusive<u64>) {
        0..=self
    }

    fn iter_to(self, end: u64) -> (r: Range<u64>) {
        self..end
    }

    fn iter_to_inclusive(self, end: u64) -> (r: RangeInclusive<u64>) {
        self..=end
    }
}

impl Increment for u64 {
    open spec fn can_increment(self) -> bool {
        self < u64::MAX
    }

    open spec fn spec_next(self) -> u64 {
        (self + 1) as u64
    }

    fn increment(&mut self) -> (r: u64) {
        *self += 1;
        *self
    }

    fn post_increment(&mut self) -> (r: u64) {
        let original = *self;
        *self += 1;
        original
    }
}

impl Decrement for u64 {
    open spec fn can_decrement(self) -> bool {
        self > u64::MIN
    }

    open spec fn spec_prev(self) -> u64 {
        (self - 1) as u64
    }

    fn decrement(&mut self) -> (r: u64) {
        *self -= 1;
        *self
    }

    fn post_decrement(&mut self) -> (r: u64) {
        let original = *self;
        *self -= 1;
        original
    }
}

impl NumIter for usize {
    fn iter(self) -> (r: Range<usize>)
        ensures
            r.start == 0,
            r.end == self,
    {
        0..self
    }

    fn iter_inclusive(self) -> (r: RangeInclusive<usize>) {
        0..=self
    }

    fn iter_to(self, end: usize) -> (r: Range<usize>) {
        self..end
    }

    fn iter_to_inclusive(self, end: usize) -> (r: RangeInclusive<usize>) {
        self..=end
    }
}

impl Increment for usize {
    open spec fn can_increment(self) -> bool {
        self < usize::MAX
    }

    open spec fn spec_next(self) -> usize {
        (self + 1) as usize
    }

    fn increment(&mut self) -> (r: usize) {
        *self += 1;
        *self
    }

    fn post_increment(&mut self) -> (r: usize) {
        let original = *self;
        *self += 1;
        original
    }
}

impl Decrement for usize {
    open spec fn can_decrement(self) -> bool {
        self > usize::MIN
    }

    open spec fn spec_prev(self) -> usize {
        (self - 1) as usize
    }

    fn decrement(&mut self) -> (r: usize) {
        *self -= 1;
        *self
    }

    fn post_decrement(&mut self) -> (r: usize) {
        let original = *self;
        *self -= 1;
        original
    }
}

impl NumIter for i8 {
    fn iter(self) -> (r: Range<i8>)
        ensures
            r.start == 0,
            r.end == self,
    {
        0..self
    }

    fn iter_inclusive(self) -> (r: RangeInclusive<i8>) {
        0..=self
    }

    fn iter_to(self, end: i8) -> (r: Range<i8>) {
        self..end
    }

    fn iter_to_inclusive(self, end: i8) -> (r: RangeInclusive<i8>) {
        self..=end
    }
}

impl Increment for i8 {
    open spec fn can_increment(self) -> bool {
        self < i8::MAX
    }

    open spec fn spec_next(self) -> i8 {
        (self + 1) as i8
    }

    fn increment(&mut self) -> (r: i8) {
        *self += 1;
        *self
    }

    fn post_increment(&mut self) -> (r: i8) {
        let original = *self;
        *self += 1;
        original
    }
}

impl Decrement for i8 {
    open spec fn can_decrement(self) -> bool {
        self > i8::MIN
    }

    open spec fn spec_prev(self) -> i8 {
        (self - 1) as i8
    }

    fn decrement(&mut self) -> (r: i8) {
        *self -= 1;
        *self
    }

    fn post_decrement(&mut self) -> (r: i8) {
        let original = *self;
        *self -= 1;
        original
    }
}

impl NumIter for i16 {
    fn iter(self) -> (r: Range<i16>)
        ensures
            r.start == 0,
            r.end == self,
    {
        0..self
    }

    fn iter_inclusive(self) -> (r: RangeInclusive<i16>) {
        0..=self
    }

    fn iter_to(self, end: i16) -> (r: Range<i16>) {
        self..end
    }

    fn iter_to_inclusive(self, end: i16) -> (r: RangeInclusive<i16>) {
        self..=end
    }
}

impl Increment for i16 {
    open spec fn can_increment(self) -> bool {
        self < i16::MAX
    }

    open spec fn spec_next(self) -> i16 {
        (self + 1) as i16
    }

    fn increment(&mut self) -> (r: i16) {
        *self += 1;
        *self
    }

    fn post_increment(&mut self) -> (r: i16) {
        let original = *self;
        *self += 1;
        original
    }
}

impl Decrement for i16 {
    open spec fn can_decrement(self) -> bool {
        self > i16::MIN
    }

    open spec fn spec_prev(self) -> i16 {
        (self - 1) as i16
    }

    fn decrement(&mut self) -> (r: i16) {
        *self -= 1;
        *self
    }

    fn post_decrement(&mut self) -> (r: i16) {
        let original = *self;
        *self -= 1;
        original
    }
}

impl NumIter for i32 {
    fn iter(self) -> (r: Range<i32>)
        ensures
            r.start == 0,
            r.end == self,
    {
        0..self
    }

    fn iter_inclusive(self) -> (r: RangeInclusive<i32>) {
        0..=self
    }

    fn iter_to(self, end: i32) -> (r: Range<i32>) {
        self..end
    }

    fn iter_to_inclusive(self, end: i32) -> (r: RangeInclusive<i32>) {
        self..=end
    }
}

impl Increment for i32 {
    open spec fn can_increment(self) -> bool {
        self < i32::MAX
    }

    open spec fn spec_next(self) -> i32 {
        (self + 1) as i32
    }

    fn increment(&mut self) -> (r: i32) {
        *self += 1;
        *self
    }

    fn post_increment(&mut self) -> (r: i32) {
        let original = *self;
        *self += 1;
        original
    }
}

impl Decrement for i32 {
    open spec fn can_decrement(self) -> bool {
        self > i32::MIN
    }

    open spec fn spec_prev(self) -> i32 {
        (self - 1) as i32
    }

    fn decrement(&mut self) -> (r: i32) {
        *self -= 1;
        *self
    }

    fn post_decrement(&mut self) -> (r: i32) {
        let original = *self;
        *self -= 1;
        original
    }
}

impl NumIter for i64 {
    fn iter(self) -> (r: Range<i64>)
        ensures
            r.start == 0,
            r.end == self,
    {
        0..self
    }

    fn iter_inclusive(self) -> (r: RangeInclusive<i64>) {
        0..=self
    }

    fn iter_to(self, end: i64) -> (r: Range<i64>) {
        self..end
    }

    fn iter_to_inclusive(self, end: i64) -> (r: RangeInclusive<i64>) {
        self..=end
    }
}

impl Increment for i64 {
    open spec fn can_increment(self) -> bool {
        self < i64::MAX
    }

    open spec fn spec_next(self) -> i64 {
        (self + 1) as i64
    }

    fn increment(&mut self) -> (r: i64) {
        *self += 1;
        *self
    }

    fn post_increment(&mut self) -> (r: i64) {
        let original = *self;
        *self += 1;
        original
    }
}

impl Decrement for i64 {
    open spec fn can_decrement(self) -> bool {
        self > i64::MIN
    }

    open spec fn spec_prev(self) -> i64 {
        (self - 1) as i64
    }

    fn decrement(&mut self) -> (r: i64) {
        *self -= 1;
        *self
    }

    fn post_decrement(&mut self) -> (r: i64) {
        let original = *self;
        *self -= 1;
        original
    }
}

impl NumIter for isize {
    fn iter(self) -> (r: Range<isize>)
        ensures
            r.start == 0,
            r.end == self,
    {
        0..self
    }

    fn iter_inclusive(self) -> (r: RangeInclusive<isize>) {
        0..=self
    }

    fn iter_to(self, end: isize) -> (r: Range<isize>) {
        self..end
    }

    fn iter_to_inclusive(self, end: isize) -> (r: RangeInclusive<isize>) {
        self..=end
    }
}

impl Increment for isize {
    open spec fn can_increment(self) -> bool {
        self < isize::MAX
    }

    open spec fn spec_next(self) -> isize {
        (self + 1) as isize
    }

    fn increment(&mut self) -> (r: isize) {
        *self += 1;
        *self
    }

    fn post_increment(&mut self) -> (r: isize) {
        let original = *self;
        *self += 1;
        original
    }
}

impl Decrement for isize {
    open spec fn can_decrement(self) -> bool {
        self > isize::MIN
    }

    open spec fn spec_prev(self) -> isize {
        (self - 1) as isize
    }

    fn decrement(&mut self) -> (r: isize) {
        *self -= 1;
        *self
    }

    fn post_decrement(&mut self) -> (r: isize) {
        let original = *self;
        *self -= 1;
        original
    }
}

/// An extension for [`Result`].
pub trait ResultExtension: Sized {
    /// The success type.
    type Ok;
    /// The error type.
    type Error;

    /// Calls `f` with the error if there is one; the success value is dropped.
    fn handle_err<F: FnOnce(Self::Error)>(self, f: F)
        requires
            self.spec_err() matches Some(e) ==> f.requires((e,)),
    ;

    /// The error, if there is one.
    spec fn spec_err(self) -> Option<Self::Error>;

    /// Calls a fallible function and returns its result.
    fn try_fn<F: FnOnce() -> Self>(f: F) -> (r: Self)
        requires
            f.requires(()),
        ensures
            f.ensures((), r),
    ;
}

impl<T, E> ResultExtension for Result<T, E> {
    type Ok = T;
    type Error = E;

    open spec fn spec_err(self) -> Option<E> {
        match self {
            Err(e) => Some(e),
            Ok(_) => None,
        }
    }

    fn handle_err<F: FnOnce(Self::Error)>(self, f: F) {
        match self {
            Err(err) => f(err),
            Ok(_) => {},
        }
    }

    fn try_fn<F: FnOnce() -> Self>(f: F) -> (r: Self) {
        f()
    }
}

} // verus!
