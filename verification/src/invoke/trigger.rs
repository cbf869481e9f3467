//! A shared on/off switch that can gate callbacks.
use vstd::prelude::*;
use std::sync::Arc;
use std::sync::atomic::{AtomicBool, Ordering};

verus! {

/// The memory orderings of atomic operations.
#[derive(Debug, Clone, Copy, PartialEq, Eq, Structural, Hash)]
pub enum MemoryOrder {
    Relaxed,
    Release,
    Acquire,
    AcqRel,
    SeqCst,
}

/// The atomic memory ordering that `order` stands for.
fn atomic_ordering(order: MemoryOrder) -> (r: Ordering)
    ensures
        r == (match order {
            MemoryOrder::Relaxed => Ordering::Relaxed,
            MemoryOrder::Release => Ordering::Release,
            MemoryOrder::Acquire => Ordering::Acquire,
            MemoryOrder::AcqRel => Ordering::AcqRel,
            MemoryOrder::SeqCst => Ordering::SeqCst,
        }),
{
    match order {
        MemoryOrder::Relaxed => Ordering::Relaxed,
        MemoryOrder::Release => Ordering::Release,
        MemoryOrder::Acquire => Ordering::Acquire,
        MemoryOrder::AcqRel => Ordering::AcqRel,
        MemoryOrder::SeqCst => Ordering::SeqCst,
    }
}

/// A flag shared between threads, read with one ordering and written with another.
#[derive(Debug, Clone)]
pub struct Trigger {
    trigger: Arc<AtomicBool>,
    eval_ordering: MemoryOrder,
    update_ordering: MemoryOrder,
}

impl Trigger {
    /// The ordering used to read the flag.
    pub closed spec fn spec_eval_ordering(&self) -> MemoryOrder {
        self.eval_ordering
    }

    /// The ordering used to write the flag.
    pub closed spec fn spec_update_ordering(&self) -> MemoryOrder {
        self.update_ordering
    }

    /// The shared flag.
    pub closed spec fn spec_flag(&self) -> Arc<AtomicBool> {
        self.trigger
    }

    /// A new flag set to `active`, read and written with relaxed ordering.
    pub fn new(active: bool) -> (r: Self)
        ensures
            r.spec_eval_ordering() == MemoryOrder::Relaxed,
            r.spec_update_ordering() == MemoryOrder::Relaxed,
    {
        Self::with_ordering(active, MemoryOrder::Relaxed, MemoryOrder::Relaxed)
    }

    /// A new flag set to `active`, with the given orderings.
    pub fn with_ordering(active: bool, eval_ordering: MemoryOrder, update_ordering: MemoryOrder) -> (r: Self)
        ensures
            r.spec_eval_ordering() == eval_ordering,
            r.spec_update_ordering() == update_ordering,
    {
        Self::from_parts(Arc::new(AtomicBool::new(active)), eval_ordering, update_ordering)
    }

    /// A trigger over an existing flag.
    pub fn from_parts(trigger: Arc<AtomicBool>, eval_ordering: MemoryOrder, update_ordering: MemoryOrder) -> (r: Self)
        ensures
            r.spec_flag() == trigger,
            r.spec_eval_ordering() == eval_ordering,
            r.spec_update_ordering() == update_ordering,
    {
        Trigger { trigger, eval_ordering, update_ordering }
    }

    /// Sets the flag.
    pub fn activate(&self) {
        self.trigger.store(true, atomic_ordering(self.update_ordering));
    }

    /// Clears the flag.
    pub fn deactivate(&self) {
        self.trigger.store(false, atomic_ordering(self.update_ordering));
    }

    /// Sets the flag to `active` and returns what it was.
    pub fn swap(&self, active: bool) -> bool {
        self.trigger.swap(active, atomic_ordering(self.update_ordering))
    }

    /// Reads the flag.
    pub fn evaluate(&self) -> bool {
        self.trigger.load(atomic_ordering(self.eval_ordering))
    }

    /// Another handle on the same flag.
    pub fn clone_inner(&self) -> (r: Arc<AtomicBool>)
        ensures
            r == self.spec_flag(),
    {
        self.trigger.clone()
    }
}

/// A boolean shared between threads, accessed with one memory ordering.
#[derive(Debug, Clone)]
pub struct SharedBool {
    shared: Arc<AtomicBool>,
    ordering: MemoryOrder,
}

impl SharedBool {
    /// The ordering of every access.
    pub closed spec fn spec_ordering(&self) -> MemoryOrder {
        self.ordering
    }

    /// A new shared boolean holding `value`.
    pub fn new(value: bool, ordering: MemoryOrder) -> (r: Self)
        ensures
            r.spec_ordering() == ordering,
    {
        SharedBool { shared: Arc::new(AtomicBool::new(value)), ordering }
    }

    /// Reads the value.
    pub fn load(&self) -> bool {
        self.shared.load(atomic_ordering(self.ordering))
    }

    /// Writes the value.
    pub fn store(&self, value: bool) {
        self.shared.store(value, atomic_ordering(self.ordering));
    }

    /// Writes the value and returns the previous one.
    pub fn swap(&self, value: bool) -> bool {
        self.shared.swap(value, atomic_ordering(self.ordering))
    }
}

} // verus!
