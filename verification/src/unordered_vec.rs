//! A vector with stable ids, O(1) insertion and removal, and no order.
use vstd::prelude::*;

verus! {

/// The id of a value in an [`UnorderedVec`].
#[derive(Debug, Clone, Copy, PartialEq, Eq, Structural, PartialOrd, Ord, Hash)]
pub struct SlotId(u32);

impl View for SlotId {
    type V = u32;

    closed spec fn view(&self) -> u32 {
        self.0
    }
}

impl SlotId {
    /// The id with the given number.
    pub fn from_raw(raw: u32) -> (r: SlotId)
        ensures
            r@ == raw,
    {
        SlotId(raw)
    }

    /// The number of this id.
    pub fn raw(self) -> (r: u32)
        ensures
            r == self@,
    {
        self.0
    }
}

/// A stored value together with its id.
pub struct UnorderedSlot<T> {
    /// The stored value.
    pub value: T,
    /// The id of the value (its position in the vector's index table).
    pub index: u32,
}

impl<T> UnorderedSlot<T> {
    /// A slot holding `value` under the id `index`.
    pub fn new(value: T, index: u32) -> (r: Self)
        ensures
            r.value == value,
            r.index == index,
    {
        UnorderedSlot { value, index }
    }
}

/// Values stored densely, each under an id that stays valid until it is removed.
/// Removal moves the last value into the gap, so the order of values changes.
pub struct UnorderedVec<T> {
    slots: Vec<UnorderedSlot<T>>,
    unused: Vec<u32>,
    indices: Vec<u32>,
}

impl<T> UnorderedVec<T> {
    /// Whether `id` names a stored value.
    pub closed spec fn is_live(&self, id: u32) -> bool {
        &&& id < self.indices@.len()
        &&& self.indices@[id as int] < self.slots@.len()
        &&& self.slots@[self.indices@[id as int] as int].index == id
    }

    /// The stored values by id.
    pub closed spec fn view(&self) -> Map<u32, T> {
        Map::new(
            |id: u32| self.is_live(id),
            |id: u32| self.slots@[self.indices@[id as int] as int].value,
        )
    }

    /// The ids of the stored values, in storage order.
    pub closed spec fn order(&self) -> Seq<u32> {
        Seq::new(self.slots@.len(), |p: int| self.slots@[p].index)
    }

    /// The values in storage order.
    pub closed spec fn values(&self) -> Seq<T> {
        Seq::new(self.slots@.len(), |p: int| self.slots@[p].value)
    }

    /// The number of stored values.
    pub closed spec fn spec_len(&self) -> nat {
        self.slots@.len()
    }

    /// The number of ids handed out so far.
    pub closed spec fn slot_count(&self) -> nat {
        self.indices@.len()
    }

    /// The number of freed ids that wait to be reused.
    pub closed spec fn free_slots(&self) -> nat {
        self.unused@.len()
    }

    /// Whether an insertion has an id to use: a freed one, or a fresh one that fits in a `u32`.
    pub open spec fn can_insert(&self) -> bool {
        self.free_slots() > 0 || self.slot_count() < u32::MAX
    }

    /// The internal invariant.
    pub closed spec fn wf(&self) -> bool {
        &&& self.indices@.len() <= u32::MAX
        &&& forall|p: int|
            0 <= p < self.slots@.len() ==> {
                let id = #[trigger] self.slots@[p].index;
                &&& id < self.indices@.len()
                &&& self.indices@[id as int] == p
            }
        &&& forall|u: int|
            0 <= u < self.unused@.len() ==> {
                let id = #[trigger] self.unused@[u];
                &&& id < self.indices@.len()
                &&& !self.is_live(id)
            }
        &&& forall|u: int, v: int|
            0 <= u < self.unused@.len() && 0 <= v < self.unused@.len() && u != v
                ==> #[trigger] self.unused@[u] != #[trigger] self.unused@[v]
    }

    proof fn lemma_slot_live(&self, p: int)
        requires
            self.wf(),
            0 <= p < self.slots@.len(),
        ensures
            self.is_live(self.slots@[p].index),
            self.indices@[self.slots@[p].index as int] == p,
    {
    }

    /// The stored ids are exactly the ids in storage order, each once, and there are
    /// as many as stored values.
    pub proof fn lemma_order(&self)
        requires
            self.wf(),
        ensures
            self.order().len() == self.spec_len(),
            self.order().no_duplicates(),
            self.order().to_set() == self@.dom(),
            self@.dom().len() == self.spec_len(),
            forall|p: int|
                0 <= p < self.order().len() ==> self@[#[trigger] self.order()[p]]
                    == self.values()[p],
    {
        let o = self.order();
        assert forall|p: int, q: int| 0 <= p < o.len() && 0 <= q < o.len() && p != q implies o[p]
            != o[q] by {
            self.lemma_slot_live(p);
            self.lemma_slot_live(q);
        }
        assert forall|id: u32| #[trigger] o.to_set().contains(id) <==> self@.dom().contains(id) by {
            if self@.dom().contains(id) {
                let p = self.indices@[id as int] as int;
                assert(o[p] == id);
            }
            if o.to_set().contains(id) {
                let p = choose|p: int| 0 <= p < o.len() && o[p] == id;
                self.lemma_slot_live(p);
            }
        }
        assert(o.to_set() =~= self@.dom());
        o.unique_seq_to_set();
        assert forall|p: int| 0 <= p < o.len() implies self@[#[trigger] o[p]] == self.values()[p] by {
            self.lemma_slot_live(p);
        }
    }

    /// An empty vector.
    pub fn new() -> (r: Self)
        ensures
            r.wf(),
            r@ == Map::<u32, T>::empty(),
            r.spec_len() == 0,
            r.slot_count() == 0,
            r.free_slots() == 0,
    {
        let r = UnorderedVec { slots: Vec::new(), unused: Vec::new(), indices: Vec::new() };
        assert(r@ =~= Map::<u32, T>::empty());
        r
    }

    /// Stores a value and returns its new id.
    pub fn insert(&mut self, value: T) -> (r: SlotId)
        requires
            old(self).wf(),
            old(self).can_insert(),
        ensures
            final(self).wf(),
            !old(self)@.contains_key(r@),
            final(self)@ == old(self)@.insert(r@, value),
            final(self).spec_len() == old(self).spec_len() + 1,
            final(self).slot_count() <= old(self).slot_count() + 1,
            old(self).free_slots() > 0 ==> final(self).slot_count() == old(self).slot_count(),
            old(self).free_slots() == 0 ==> r@ == old(self).slot_count() && final(self).slot_count()
                == old(self).slot_count() + 1 && final(self).free_slots() == 0,
    {
        let ghost old_self = *self;
        if self.unused.len() > 0 {
            let unused_index = self.unused.pop().unwrap();
            proof {
                assert(old_self.unused@[old_self.unused@.len() - 1] == unused_index);
                assert(self.slots@.len() < self.indices@.len()) by {
                    self.lemma_slots_below_ids(unused_index);
                }
            }
            let position = self.slots.len() as u32;
            self.indices.set(unused_index as usize, position);
            self.slots.push(UnorderedSlot::new(value, unused_index));
            proof {
                assert forall|p: int| 0 <= p < self.slots@.len() implies {
                    let id = #[trigger] self.slots@[p].index;
                    &&& id < self.indices@.len()
                    &&& self.indices@[id as int] == p
                } by {
                    if p < old_self.slots@.len() {
                        old_self.lemma_slot_live(p);
                    }
                }
                assert forall|u: int| 0 <= u < self.unused@.len() implies {
                    let id = #[trigger] self.unused@[u];
                    &&& id < self.indices@.len()
                    &&& !self.is_live(id)
                } by {
                    assert(old_self.unused@[u] == self.unused@[u]);
                    assert(u != old_self.unused@.len() - 1);
                    assert(self.unused@[u] != unused_index);
                }
                assert forall|id: u32| #[trigger] self@.contains_key(id) <==> old_self@.insert(
                    unused_index,
                    value,
                ).contains_key(id) by {
                    if id != unused_index && old_self.is_live(id) {
                        let p = old_self.indices@[id as int] as int;
                        old_self.lemma_slot_live(p);
                    }
                }
                assert(self@ =~= old_self@.insert(unused_index, value));
            }
            SlotId(unused_index)
        } else {
            let index = self.indices.len() as u32;
            proof {
                assert(self.slots@.len() <= self.indices@.len()) by {
                    self.lemma_slots_at_most_ids();
                }
            }
            let slot_index = self.slots.len() as u32;
            self.slots.push(UnorderedSlot::new(value, index));
            self.indices.push(slot_index);
            proof {
                assert forall|p: int| 0 <= p < self.slots@.len() implies {
                    let id = #[trigger] self.slots@[p].index;
                    &&& id < self.indices@.len()
                    &&& self.indices@[id as int] == p
                } by {
                    if p < old_self.slots@.len() {
                        old_self.lemma_slot_live(p);
                    }
                }
                assert forall|id: u32| #[trigger] self@.contains_key(id) <==> old_self@.insert(
                    index,
                    value,
                ).contains_key(id) by {
                    if id != index && old_self.is_live(id) {
                        let p = old_self.indices@[id as int] as int;
                        old_self.lemma_slot_live(p);
                    }
                }
                assert(self@ =~= old_self@.insert(index, value));
            }
            SlotId(index)
        }
    }

    /// There are no more stored values than ids.
    proof fn lemma_slots_at_most_ids(&self)
        requires
            self.wf(),
        ensures
            self.slots@.len() <= self.indices@.len(),
    {
        self.lemma_order();
        let o = self.order();
        assert forall|p: int| 0 <= p < o.len() implies #[trigger] o[p] < self.indices@.len() by {
            self.lemma_slot_live(p);
        }
        lemma_ids_below(o, self.indices@.len());
    }

    /// With a freed id outstanding, there are fewer stored values than ids.
    proof fn lemma_slots_below_ids(&self, free: u32)
        requires
            self.wf(),
            free < self.indices@.len(),
            !self.is_live(free),
        ensures
            self.slots@.len() < self.indices@.len(),
    {
        self.lemma_order();
        let o = self.order().push(free);
        assert forall|p: int| 0 <= p < o.len() implies #[trigger] o[p] < self.indices@.len() by {
            if p < self.slots@.len() {
                self.lemma_slot_live(p);
            }
        }
        assert(o.no_duplicates()) by {
            assert forall|p: int, q: int| 0 <= p < o.len() && 0 <= q < o.len() && p != q implies o[p]
                != o[q] by {
                if p < self.slots@.len() {
                    self.lemma_slot_live(p);
                }
                if q < self.slots@.len() {
                    self.lemma_slot_live(q);
                }
            }
        }
        lemma_ids_below(o, self.indices@.len());
    }

    /// Removes the value with the given id and returns it.
    pub fn remove(&mut self, id: SlotId) -> (r: T)
        requires
            old(self).wf(),
            old(self)@.contains_key(id@),
        ensures
            final(self).wf(),
            r == old(self)@[id@],
            final(self)@ == old(self)@.remove(id@),
            final(self).spec_len() == old(self).spec_len() - 1,
            final(self).slot_count() == old(self).slot_count(),
    {
        let ghost old_self = *self;
        let slot_index = self.indices[id.0 as usize];
        let old = self.slots.swap_remove(slot_index as usize).value;
        if (slot_index as usize) != self.slots.len() {
            let index = self.slots[slot_index as usize].index;
            proof {
                old_self.lemma_slot_live(old_self.slots@.len() - 1);
            }
            self.indices.set(index as usize, slot_index);
            self.unused.push(id.0);
            proof {
                let last = old_self.slots@.len() - 1;
                assert forall|p: int| 0 <= p < self.slots@.len() implies {
                    let i = #[trigger] self.slots@[p].index;
                    &&& i < self.indices@.len()
                    &&& self.indices@[i as int] == p
                } by {
                    if p != slot_index {
                        old_self.lemma_slot_live(p);
                        assert(old_self.slots@[p].index != old_self.slots@[last].index);
                    }
                }
                assert forall|u: int| 0 <= u < self.unused@.len() implies {
                    let i = #[trigger] self.unused@[u];
                    &&& i < self.indices@.len()
                    &&& !self.is_live(i)
                } by {
                    if u < old_self.unused@.len() {
                        let i = self.unused@[u];
                        assert(old_self.unused@[u] == i);
                        assert(i != index);
                    }
                }
                assert forall|u: int, v: int|
                    0 <= u < self.unused@.len() && 0 <= v < self.unused@.len() && u != v
                        implies #[trigger] self.unused@[u] != #[trigger] self.unused@[v] by {
                    if u < old_self.unused@.len() && v < old_self.unused@.len() {
                        assert(old_self.unused@[u] != old_self.unused@[v]);
                    } else if u < old_self.unused@.len() {
                        assert(!old_self.is_live(old_self.unused@[u]));
                    } else if v < old_self.unused@.len() {
                        assert(!old_self.is_live(old_self.unused@[v]));
                    }
                }
                assert forall|i: u32| #[trigger] self@.contains_key(i) <==> old_self@.remove(
                    id@,
                ).contains_key(i) by {
                    if old_self.is_live(i) && i != id@ {
                        let p = old_self.indices@[i as int] as int;
                        old_self.lemma_slot_live(p);
                    }
                }
                assert(self@ =~= old_self@.remove(id@));
            }
        } else {
            proof {
                assert forall|p: int| 0 <= p < self.slots@.len() implies {
                    let i = #[trigger] self.slots@[p].index;
                    &&& i < self.indices@.len()
                    &&& self.indices@[i as int] == p
                } by {
                    old_self.lemma_slot_live(p);
                }
                assert forall|u: int| 0 <= u < self.unused@.len() implies {
                    let i = #[trigger] self.unused@[u];
                    &&& i < self.indices@.len()
                    &&& !self.is_live(i)
                } by {
                    assert(old_self.unused@[u] == self.unused@[u]);
                }
                assert forall|i: u32| #[trigger] self@.contains_key(i) <==> old_self@.remove(
                    id@,
                ).contains_key(i) by {
                    if old_self.is_live(i) && i != id@ {
                        let p = old_self.indices@[i as int] as int;
                        old_self.lemma_slot_live(p);
                    }
                }
                assert(self@ =~= old_self@.remove(id@));
            }
        }
        old
    }

    /// Replaces the value with the given id, returning the previous one.
    pub fn replace(&mut self, id: SlotId, value: T) -> (r: T)
        requires
            old(self).wf(),
            old(self)@.contains_key(id@),
        ensures
            final(self).wf(),
            r == old(self)@[id@],
            final(self)@ == old(self)@.insert(id@, value),
            final(self).spec_len() == old(self).spec_len(),
            final(self).slot_count() == old(self).slot_count(),
            final(self).free_slots() == old(self).free_slots(),
    {
        let ghost old_self = *self;
        let slot_index = self.indices[id.0 as usize] as usize;
        let mut v = value;
        std::mem::swap(&mut self.slots[slot_index].value, &mut v);
        proof {
            assert forall|p: int| 0 <= p < self.slots@.len() implies {
                let i = #[trigger] self.slots@[p].index;
                &&& i < self.indices@.len()
                &&& self.indices@[i as int] == p
            } by {
                old_self.lemma_slot_live(p);
            }
            assert forall|i: u32| #[trigger] self@.contains_key(i) <==> old_self@.insert(
                id@,
                value,
            ).contains_key(i) by {
            }
            assert(self@ =~= old_self@.insert(id@, value));
        }
        v
    }

    /// The value with the given id.
    pub fn get(&self, id: SlotId) -> (r: &T)
        requires
            self.wf(),
            self@.contains_key(id@),
        ensures
            *r == self@[id@],
    {
        let slot_index = self.indices[id.0 as usize];
        &self.slots[slot_index as usize].value
    }

    /// The value with the given id, to change in place.
    pub fn get_mut(&mut self, id: SlotId) -> (r: &mut T)
        requires
            old(self).wf(),
            old(self)@.contains_key(id@),
        ensures
            *r == old(self)@[id@],
            final(self).wf(),
            final(self)@ == old(self)@.insert(id@, *final(r)),
            final(self).spec_len() == old(self).spec_len(),
            final(self).slot_count() == old(self).slot_count(),
            final(self).free_slots() == old(self).free_slots(),
    {
        let slot_index = self.indices[id.0 as usize];
        &mut self.slots[slot_index as usize].value
    }

    /// The values in storage order.
    pub fn iter(&self) -> (r: Vec<&T>)
        requires
            self.wf(),
        ensures
            r@.len() == self.spec_len(),
            forall|p: int| 0 <= p < r@.len() ==> *r@[p] == self@[#[trigger] self.order()[p]],
            self.order().no_duplicates(),
            self.order().to_set() == self@.dom(),
    {
        proof {
            self.lemma_order();
        }
        let mut out: Vec<&T> = Vec::with_capacity(self.slots.len());
        let mut i: usize = 0;
        while i < self.slots.len()
            invariant
                i <= self.slots@.len(),
                self.wf(),
                out@.len() == i,
                forall|p: int| 0 <= p < i ==> *out@[p] == self.values()[p],
            decreases self.slots@.len() - i,
        {
            out.push(&self.slots[i].value);
            i = i + 1;
        }
        out
    }

    /// Whether nothing is stored.
    pub fn is_empty(&self) -> (r: bool)
        ensures
            r == (self.spec_len() == 0),
    {
        self.slots.len() == 0
    }

    /// The number of stored values.
    pub fn len(&self) -> (r: usize)
        ensures
            r == self.spec_len(),
    {
        self.slots.len()
    }
}

/// A sequence of distinct numbers below `bound` has at most `bound` elements.
proof fn lemma_ids_below(ids: Seq<u32>, bound: nat)
    requires
        ids.no_duplicates(),
        forall|p: int| 0 <= p < ids.len() ==> #[trigger] ids[p] < bound,
    ensures
        ids.len() <= bound,
{
    let s = ids.to_set();
    ids.unique_seq_to_set();
    let all = Set::new(|i: u32| i < bound);
    assert(s.subset_of(all));
    lemma_small_ids_finite(bound);
    vstd::set_lib::lemma_len_subset(s, all);
}

/// The set of `u32` below `bound` is finite and has at most `bound` elements.
proof fn lemma_small_ids_finite(bound: nat)
    ensures
        Set::new(|i: u32| i < bound).finite(),
        Set::new(|i: u32| i < bound).len() <= bound,
    decreases bound,
{
    let all = Set::new(|i: u32| i < bound);
    if bound == 0 {
        assert(all =~= Set::empty());
    } else {
        lemma_small_ids_finite((bound - 1) as nat);
        let smaller = Set::new(|i: u32| i < (bound - 1) as nat);
        if bound - 1 <= u32::MAX {
            assert(all =~= smaller.insert((bound - 1) as u32));
        } else {
            assert(all =~= smaller);
        }
    }
}

impl<T> std::ops::Index<SlotId> for UnorderedVec<T> {
    type Output = T;

    /// The value with the given id, as [`UnorderedVec::get`] finds it.
    fn index(&self, id: SlotId) -> (r: &T)
        ensures
            *r == self@[id@],
    {
        self.get(id)
    }
}

impl<T> vstd::std_specs::core::IndexSpecImpl<SlotId> for UnorderedVec<T> {
    open spec fn index_req(&self, id: &SlotId) -> bool {
        self.wf() && self@.contains_key(id@)
    }
}

} // verus!
