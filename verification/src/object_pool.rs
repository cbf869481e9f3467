use vstd::prelude::*;
use std::hash::BuildHasher;
use std::marker::PhantomData;
use crate::pool_id::{
    PoolId, raw_index_field, raw_pool_id, raw_pack, raw_generation, lemma_unpack_pack,
    next_generation, INDEX_MAX, POOL_ID_MAX, GENERATION_MAX,
};

verus! {

/// A value together with the id it was stored under.
#[derive(Debug)]
pub struct PoolEntry<T, M: Copy = &'static T> {
    id: PoolId<M>,
    value: T,
}

impl<T, M: Copy> PoolEntry<T, M> {
    fn new(id: PoolId<M>, value: T) -> (r: Self)
        ensures
            r.id@ == id@,
            r.value == value,
    {
        PoolEntry { id, value }
    }
}

/// An unordered object pool with O(1) lookup, insertion, deletion, and iteration.
/// Each pool draws its pool id at random from 2^10 values, so the ids of two
/// pools may collide; a pool holds up to 2^32 - 1 slots.
#[derive(Debug)]
pub struct ObjectPool<T, M: Copy = &'static T> {
    pool: Vec<PoolEntry<T, M>>,
    indices: Vec<usize>,
    unused: Vec<PoolId<M>>,
    id: u64,
}

/// A process-dependent number from std's randomly keyed hasher; each call
/// may give another value.
#[verifier::external_body]
fn random_seed() -> u64 {
    std::collections::hash_map::RandomState::new().hash_one(0u8)
}

/// The id and a mutable reference to the value of each entry, in order; what is
/// written through the references ends up in the entries.
fn entries_mut<'a, T, M: Copy>(entries: &'a mut [PoolEntry<T, M>]) -> (r: Vec<(PoolId<M>, &'a mut T)>)
    ensures
        r@.len() == old(entries)@.len(),
        forall|i: int|
            0 <= i < r@.len() ==> (#[trigger] r@[i]).0@ == old(entries)@[i].id@ && *r@[i].1
                == old(entries)@[i].value,
        final(entries)@.len() == old(entries)@.len(),
        forall|i: int|
            0 <= i < r@.len() ==> (#[trigger] final(entries)@[i]).id == old(entries)@[i].id
                && final(entries)@[i].value == *final(r@[i].1),
    decreases old(entries)@.len(),
{
    if entries.len() == 0 {
        return Vec::new();
    }
    let (head, tail) = entries.split_at_mut(1);
    let first = head.first_mut().unwrap();
    let id = first.id;
    let value = &mut first.value;
    let mut rest = entries_mut(tail);
    rest.insert(0, (id, value));
    rest
}

impl<T, M: Copy> ObjectPool<T, M> {
    /// The slot index that a live raw id refers to.
    pub open spec fn slot_of(raw: u64) -> int {
        raw_index_field(raw) - 1
    }

    /// The position in the pool that slot `slot` points to.
    closed spec fn position_of(&self, raw: u64) -> int {
        self.indices@[Self::slot_of(raw)] as int
    }

    /// Whether `raw` is the id of a value that is stored in this pool.
    pub closed spec fn is_live(&self, raw: u64) -> bool {
        &&& raw != 0
        &&& raw_pool_id(raw) == self.id
        &&& raw_index_field(raw) >= 1
        &&& Self::slot_of(raw) < self.indices@.len()
        &&& self.position_of(raw) < self.pool@.len()
        &&& self.pool@[self.position_of(raw)].id@ == raw
    }

    /// The values in the pool, by the raw value of their ids.
    pub closed spec fn view(&self) -> Map<u64, T> {
        Map::new(|raw: u64| self.is_live(raw), |raw: u64| self.pool@[self.position_of(raw)].value)
    }

    /// The number of values in the pool.
    pub closed spec fn spec_len(&self) -> nat {
        self.pool@.len()
    }

    /// The id of this pool.
    pub closed spec fn spec_id(&self) -> u64 {
        self.id
    }

    /// The number of slots handed out so far.
    pub closed spec fn slot_count(&self) -> nat {
        self.indices@.len()
    }

    /// The number of freed slots that wait to be reused.
    pub closed spec fn free_slots(&self) -> nat {
        self.unused@.len()
    }

    /// The id whose slot was freed last, which the next insertion reuses.
    pub closed spec fn last_freed(&self) -> u64 {
        self.unused@.last()@
    }

    /// The id that the next insertion hands out: the last freed slot in its next
    /// generation, or else a fresh slot behind every slot handed out so far, in
    /// generation 0.
    pub open spec fn next_insert_id(&self) -> u64 {
        if self.free_slots() > 0 {
            raw_pack(
                self.spec_id(),
                (raw_index_field(self.last_freed()) - 1) as u64,
                next_generation(raw_generation(self.last_freed())),
            )
        } else {
            raw_pack(self.spec_id(), self.slot_count() as u64, 0)
        }
    }

    /// The pool's internal invariant.
    pub closed spec fn wf(&self) -> bool {
        &&& self.id < POOL_ID_MAX
        &&& self.indices@.len() <= INDEX_MAX
        &&& forall|p: int|
            0 <= p < self.pool@.len() ==> {
                let raw = #[trigger] self.pool@[p].id@;
                &&& raw != 0
                &&& raw_pool_id(raw) == self.id
                &&& raw_index_field(raw) >= 1
                &&& Self::slot_of(raw) < self.indices@.len()
                &&& self.indices@[Self::slot_of(raw)] == p
            }
        &&& forall|u: int|
            0 <= u < self.unused@.len() ==> {
                let raw = #[trigger] self.unused@[u]@;
                &&& raw_pool_id(raw) == self.id
                &&& raw_index_field(raw) >= 1
                &&& Self::slot_of(raw) < self.indices@.len()
            }
        &&& forall|u: int, p: int|
            0 <= u < self.unused@.len() && 0 <= p < self.pool@.len() ==> raw_index_field(
                #[trigger] self.unused@[u]@,
            ) != raw_index_field(#[trigger] self.pool@[p].id@)
        &&& forall|u: int, v: int|
            0 <= u < self.unused@.len() && 0 <= v < self.unused@.len() && u != v
                ==> raw_index_field(#[trigger] self.unused@[u]@) != raw_index_field(
                #[trigger] self.unused@[v]@,
            )
    }

    /// Whether an insertion has a slot to use: a freed one, or a fresh one
    /// whose index still fits in an id.
    pub open spec fn can_insert(&self) -> bool {
        self.free_slots() > 0 || self.slot_count() < INDEX_MAX
    }

    /// Whether `id` may be handed to [`ObjectPool::replace`]: it belongs to
    /// this pool and its slot points at a stored value.
    pub closed spec fn replace_ok(&self, raw: u64) -> bool {
        &&& raw != 0
        &&& raw_pool_id(raw) == self.id
        &&& raw_index_field(raw) >= 1
        &&& Self::slot_of(raw) < self.indices@.len()
        &&& self.position_of(raw) < self.pool@.len()
    }

    /// The id of the value that [`ObjectPool::replace`] with `raw` overwrites.
    pub closed spec fn replaced_id(&self, raw: u64) -> u64 {
        self.pool@[self.position_of(raw)].id@
    }

    /// Every live id may be handed to [`ObjectPool::replace`], and it
    /// overwrites the value of that very id.
    pub proof fn lemma_live_replace_ok(&self, raw: u64)
        requires
            self@.contains_key(raw),
        ensures
            self.replace_ok(raw),
            self.replaced_id(raw) == raw,
    {
    }

    /// Every id stored in a pool is non-null, carries the pool's id and names a
    /// slot that the pool handed out; it is the id that
    /// [`ObjectPool::reconstruct_id`] builds from its slot and generation. So the
    /// null id and the ids of other pools are never keys of a pool.
    pub proof fn lemma_key_fields(&self, raw: u64)
        requires
            self.wf(),
            self@.contains_key(raw),
        ensures
            raw != 0,
            raw_pool_id(raw) == self.spec_id(),
            raw_index_field(raw) >= 1,
            Self::slot_of(raw) < self.slot_count(),
            raw_pack(self.spec_id(), Self::slot_of(raw) as u64, raw_generation(raw)) == raw,
    {
        lemma_unpack_pack(raw);
    }

    proof fn lemma_live_from_entry(&self, p: int)
        requires
            self.wf(),
            0 <= p < self.pool@.len(),
        ensures
            self.is_live(self.pool@[p].id@),
            self.position_of(self.pool@[p].id@) == p,
    {
    }

    /// The next pool id: a number below [`POOL_ID_MAX`].
    fn next_id() -> (r: u64)
        ensures
            r < POOL_ID_MAX,
    {
        random_seed() % POOL_ID_MAX
    }

    /// Creates an empty pool.
    pub fn new() -> (r: Self)
        ensures
            r.wf(),
            r@ == Map::<u64, T>::empty(),
            r.spec_len() == 0,
            r.slot_count() == 0,
            r.free_slots() == 0,
    {
        let r = ObjectPool { pool: Vec::new(), indices: Vec::new(), unused: Vec::new(), id: Self::next_id() };
        assert(r@ =~= Map::<u64, T>::empty());
        r
    }

    /// Creates an empty pool with room for `capacity` values.
    pub fn with_capacity(capacity: usize) -> (r: Self)
        ensures
            r.wf(),
            r@ == Map::<u64, T>::empty(),
            r.spec_len() == 0,
            r.slot_count() == 0,
            r.free_slots() == 0,
    {
        let r = ObjectPool {
            pool: Vec::with_capacity(capacity),
            indices: Vec::with_capacity(capacity),
            unused: Vec::new(),
            id: Self::next_id(),
        };
        assert(r@ =~= Map::<u64, T>::empty());
        r
    }

    /// Inserts a value and returns its new id. Insertion order is not maintained.
    pub fn insert(&mut self, value: T) -> (r: PoolId<M>)
        requires
            old(self).wf(),
            old(self).can_insert(),
        ensures
            final(self).wf(),
            !old(self)@.contains_key(r@),
            final(self)@ == old(self)@.insert(r@, value),
            final(self).spec_len() == old(self).spec_len() + 1,
            final(self).spec_id() == old(self).spec_id(),
            r@ != 0,
            raw_pool_id(r@) == old(self).spec_id(),
            r@ == old(self).next_insert_id(),
            old(self).free_slots() > 0 ==> final(self).free_slots() + 1 == old(self).free_slots()
                && final(self).slot_count() == old(self).slot_count(),
            old(self).free_slots() == 0 ==> final(self).free_slots() == 0 && final(self).slot_count()
                == old(self).slot_count() + 1,
    {
        let ghost old_self = *self;
        if self.unused.len() > 0 {
            let unused_index = self.unused.pop().unwrap();
            proof {
                assert(old_self.unused@[old_self.unused@.len() - 1] == unused_index);
            }
            let new_id = unused_index.increment_generation();
            let slot = new_id.index();
            let position = self.pool.len();
            self.indices.set(slot, position);
            self.pool.push(PoolEntry::new(new_id, value));
            proof {
                let u_last = old_self.unused@.len() - 1;
                assert forall|p: int| 0 <= p < self.pool@.len() implies {
                    let raw = #[trigger] self.pool@[p].id@;
                    &&& raw != 0
                    &&& raw_pool_id(raw) == self.id
                    &&& raw_index_field(raw) >= 1
                    &&& Self::slot_of(raw) < self.indices@.len()
                    &&& self.indices@[Self::slot_of(raw)] == p
                } by {
                    if p < position {
                        assert(old_self.pool@[p] == self.pool@[p]);
                        assert(raw_index_field(old_self.unused@[u_last]@) != raw_index_field(
                            old_self.pool@[p].id@,
                        ));
                    }
                }
                assert forall|u: int, p: int|
                    0 <= u < self.unused@.len() && 0 <= p < self.pool@.len() implies raw_index_field(
                    #[trigger] self.unused@[u]@,
                ) != raw_index_field(#[trigger] self.pool@[p].id@) by {
                    assert(self.unused@[u] == old_self.unused@[u]);
                    if p < position {
                        assert(old_self.pool@[p] == self.pool@[p]);
                    } else {
                        assert(raw_index_field(old_self.unused@[u]@) != raw_index_field(
                            old_self.unused@[u_last]@,
                        ));
                    }
                }
                assert forall|u: int, v: int|
                    0 <= u < self.unused@.len() && 0 <= v < self.unused@.len() && u != v
                        implies raw_index_field(#[trigger] self.unused@[u]@) != raw_index_field(
                    #[trigger] self.unused@[v]@,
                ) by {
                    assert(self.unused@[u] == old_self.unused@[u]);
                    assert(self.unused@[v] == old_self.unused@[v]);
                }
                assert forall|u: int| 0 <= u < self.unused@.len() implies {
                    let raw = #[trigger] self.unused@[u]@;
                    &&& raw_pool_id(raw) == self.id
                    &&& raw_index_field(raw) >= 1
                    &&& Self::slot_of(raw) < self.indices@.len()
                } by {
                    assert(self.unused@[u] == old_self.unused@[u]);
                }
                self.lemma_view_after_insert(old_self, new_id@, value, position as int);
            }
            new_id
        } else {
            let index = self.indices.len();
            let position = self.pool.len();
            let id = PoolId::new(self.id, index, 0);
            self.pool.push(PoolEntry::new(id, value));
            self.indices.push(position);
            proof {
                assert forall|p: int| 0 <= p < self.pool@.len() implies {
                    let raw = #[trigger] self.pool@[p].id@;
                    &&& raw != 0
                    &&& raw_pool_id(raw) == self.id
                    &&& raw_index_field(raw) >= 1
                    &&& Self::slot_of(raw) < self.indices@.len()
                    &&& self.indices@[Self::slot_of(raw)] == p
                } by {
                    if p < position {
                        assert(old_self.pool@[p] == self.pool@[p]);
                    }
                }
                self.lemma_view_after_insert(old_self, id@, value, position as int);
            }
            id
        }
    }

    proof fn lemma_view_after_insert(&self, old_self: Self, raw: u64, value: T, position: int)
        requires
            old_self.wf(),
            self.wf(),
            self.id == old_self.id,
            position == old_self.pool@.len(),
            self.pool@.len() == position + 1,
            forall|p: int| 0 <= p < position ==> self.pool@[p] == old_self.pool@[p],
            self.pool@[position].id@ == raw,
            self.pool@[position].value == value,
            raw_index_field(raw) >= 1,
            forall|p: int|
                0 <= p < position ==> raw_index_field(#[trigger] old_self.pool@[p].id@)
                    != raw_index_field(raw),
            self.indices@.len() >= old_self.indices@.len(),
            forall|s: int|
                0 <= s < old_self.indices@.len() && s != Self::slot_of(raw) ==> self.indices@[s]
                    == old_self.indices@[s],
        ensures
            !old_self@.contains_key(raw),
            self@ == old_self@.insert(raw, value),
    {
        assert(self.is_live(raw));
        assert forall|k: u64| #[trigger] old_self.is_live(k) implies self.is_live(k) && self@[k]
            == old_self@[k] by {
            let p = old_self.position_of(k);
            assert(old_self.pool@[p].id@ == k);
            assert(old_self.indices@[Self::slot_of(k)] == p);
            if Self::slot_of(k) == Self::slot_of(raw) {
                assert(raw_index_field(old_self.pool@[p].id@) != raw_index_field(raw));
            }
            assert(self.indices@[Self::slot_of(k)] == p);
            assert(self.pool@[p] == old_self.pool@[p]);
        }
        assert forall|k: u64| #[trigger] self.is_live(k) && k != raw implies old_self.is_live(k) by {
            let p = self.position_of(k);
            assert(self.pool@[p].id@ == k);
            if p == position {
                assert(false);
            }
            assert(self.indices@[Self::slot_of(k)] == p);
            if Self::slot_of(k) < old_self.indices@.len() {
                if Self::slot_of(k) == Self::slot_of(raw) {
                    assert(self.indices@[Self::slot_of(raw)] == position);
                    assert(false);
                }
                assert(old_self.indices@[Self::slot_of(k)] == p);
            } else {
                assert(old_self.wf());
                assert(old_self.pool@[p] == self.pool@[p]);
                assert(Self::slot_of(old_self.pool@[p].id@) < old_self.indices@.len());
            }
            assert(old_self.pool@[p] == self.pool@[p]);
        }
        if old_self.is_live(raw) {
            let p = old_self.position_of(raw);
            assert(old_self.pool@[p].id@ == raw);
            assert(raw_index_field(old_self.pool@[p].id@) != raw_index_field(raw));
        }
        assert(self@ =~= old_self@.insert(raw, value));
    }

    /// Removes the value with the given id and returns it.
    pub fn remove(&mut self, id: PoolId<M>) -> (r: T)
        requires
            old(self).wf(),
            old(self)@.contains_key(id@),
        ensures
            final(self).wf(),
            r == old(self)@[id@],
            final(self)@ == old(self)@.remove(id@),
            final(self).spec_len() + 1 == old(self).spec_len(),
            final(self).spec_id() == old(self).spec_id(),
            final(self).slot_count() == old(self).slot_count(),
            old(self).stored_ids().last() == id@ ==> final(self).free_slots() == old(self).free_slots(),
            old(self).stored_ids().last() != id@ ==> final(self).free_slots() == old(self).free_slots()
                + 1 && final(self).last_freed() == id@,
    {
        let ghost old_self = *self;
        let slot = id.index();
        let position = self.indices[slot];
        let entry = self.pool.swap_remove(position);
        let old = entry.value;
        proof {
            assert(entry == old_self.pool@[position as int]);
        }
        if position != self.pool.len() {
            let moved = self.pool[position].id;
            proof {
                let last = old_self.pool@.len() - 1;
                assert(self.pool@[position as int] == old_self.pool@[last]);
                old_self.lemma_live_from_entry(last);
            }
            let moved_slot = moved.index();
            self.indices.set(moved_slot, position);
            self.unused.push(id);
            proof {
                self.lemma_remove_moved(old_self, id@, position as int);
                assert(old_self.stored_ids().last() == old_self.pool@.last().id@);
            }
        } else {
            proof {
                assert(self.pool@ =~= old_self.pool@.drop_last());
                self.lemma_remove_last(old_self, id@);
                assert(old_self.stored_ids().last() == id@);
            }
        }
        old
    }

    proof fn lemma_remove_moved(&self, old_self: Self, raw: u64, position: int)
        requires
            old_self.wf(),
            old_self.is_live(raw),
            position == old_self.position_of(raw),
            position < old_self.pool@.len() - 1,
            self.id == old_self.id,
            self.pool@ == old_self.pool@.update(position, old_self.pool@.last()).drop_last(),
            self.indices@ == old_self.indices@.update(
                Self::slot_of(old_self.pool@.last().id@),
                position as usize,
            ),
            self.unused@.len() == old_self.unused@.len() + 1,
            forall|u: int| 0 <= u < old_self.unused@.len() ==> self.unused@[u] == old_self.unused@[u],
            self.unused@.last()@ == raw,
        ensures
            self.wf(),
            self@ == old_self@.remove(raw),
    {
        let last = old_self.pool@.len() - 1;
        let moved = old_self.pool@[last].id@;
        old_self.lemma_live_from_entry(last);
        assert(Self::slot_of(moved) != Self::slot_of(raw));
        assert forall|p: int| 0 <= p < self.pool@.len() implies {
            let k = #[trigger] self.pool@[p].id@;
            &&& k != 0
            &&& raw_pool_id(k) == self.id
            &&& raw_index_field(k) >= 1
            &&& Self::slot_of(k) < self.indices@.len()
            &&& self.indices@[Self::slot_of(k)] == p
        } by {
            if p != position {
                assert(self.pool@[p] == old_self.pool@[p]);
                old_self.lemma_live_from_entry(p);
                assert(Self::slot_of(self.pool@[p].id@) != Self::slot_of(moved));
            }
        }
        let n = self.unused@.len() - 1;
        assert(self.unused@[n]@ == raw);
        assert forall|u: int| 0 <= u < self.unused@.len() implies {
            let k = #[trigger] self.unused@[u]@;
            &&& raw_pool_id(k) == self.id
            &&& raw_index_field(k) >= 1
            &&& Self::slot_of(k) < self.indices@.len()
        } by {
            if u < n {
                assert(self.unused@[u] == old_self.unused@[u]);
            }
        }
        assert forall|u: int, p: int|
            0 <= u < self.unused@.len() && 0 <= p < self.pool@.len() implies raw_index_field(
            #[trigger] self.unused@[u]@,
        ) != raw_index_field(#[trigger] self.pool@[p].id@) by {
            let q = if p == position {
                last
            } else {
                p
            };
            assert(self.pool@[p] == old_self.pool@[q]);
            old_self.lemma_live_from_entry(q);
            if u < n {
                assert(self.unused@[u] == old_self.unused@[u]);
            } else {
                assert(q != position);
            }
        }
        assert forall|u: int, v: int|
            0 <= u < self.unused@.len() && 0 <= v < self.unused@.len() && u != v
                implies raw_index_field(#[trigger] self.unused@[u]@) != raw_index_field(
            #[trigger] self.unused@[v]@,
        ) by {
            if u < n {
                assert(self.unused@[u] == old_self.unused@[u]);
            }
            if v < n {
                assert(self.unused@[v] == old_self.unused@[v]);
            }
            if u == n {
                assert(raw_index_field(old_self.unused@[v]@) != raw_index_field(
                    old_self.pool@[position].id@,
                ));
            }
            if v == n {
                assert(raw_index_field(old_self.unused@[u]@) != raw_index_field(
                    old_self.pool@[position].id@,
                ));
            }
        }
        self.lemma_view_after_remove(old_self, raw);
    }

    proof fn lemma_remove_last(&self, old_self: Self, raw: u64)
        requires
            old_self.wf(),
            old_self.is_live(raw),
            old_self.position_of(raw) == old_self.pool@.len() - 1,
            self.id == old_self.id,
            self.pool@ == old_self.pool@.drop_last(),
            self.indices@ == old_self.indices@,
            self.unused@ == old_self.unused@,
        ensures
            self.wf(),
            self@ == old_self@.remove(raw),
    {
        assert forall|p: int| 0 <= p < self.pool@.len() implies {
            let k = #[trigger] self.pool@[p].id@;
            &&& k != 0
            &&& raw_pool_id(k) == self.id
            &&& raw_index_field(k) >= 1
            &&& Self::slot_of(k) < self.indices@.len()
            &&& self.indices@[Self::slot_of(k)] == p
        } by {
            assert(self.pool@[p] == old_self.pool@[p]);
        }
        assert forall|u: int, p: int|
            0 <= u < self.unused@.len() && 0 <= p < self.pool@.len() implies raw_index_field(
            #[trigger] self.unused@[u]@,
        ) != raw_index_field(#[trigger] self.pool@[p].id@) by {
            assert(self.pool@[p] == old_self.pool@[p]);
        }
        self.lemma_view_after_remove(old_self, raw);
    }

    proof fn lemma_view_after_remove(&self, old_self: Self, raw: u64)
        requires
            old_self.wf(),
            self.wf(),
            old_self.is_live(raw),
            self.id == old_self.id,
            self.pool@.len() + 1 == old_self.pool@.len(),
            forall|p: int|
                0 <= p < self.pool@.len() && p != old_self.position_of(raw) ==> #[trigger] self.pool@[p]
                    == old_self.pool@[p],
            old_self.position_of(raw) < self.pool@.len() ==> self.pool@[old_self.position_of(raw)]
                == old_self.pool@.last(),
        ensures
            self@ == old_self@.remove(raw),
    {
        let last = old_self.pool@.len() - 1;
        assert forall|k: u64| #[trigger] self.is_live(k) implies old_self.is_live(k) && k != raw
            && self@[k] == old_self@[k] by {
            let p = self.position_of(k);
            let q = if p == old_self.position_of(raw) {
                last
            } else {
                p
            };
            assert(self.pool@[p] == old_self.pool@[q]);
            old_self.lemma_live_from_entry(q);
            if k == raw {
                assert(q == old_self.position_of(raw));
                if q == last {
                    assert(p == old_self.position_of(raw));
                    assert(false);
                }
            }
        }
        assert forall|k: u64| #[trigger] old_self.is_live(k) && k != raw implies self.is_live(k) by {
            let q = old_self.position_of(k);
            let p = if q == last {
                old_self.position_of(raw)
            } else {
                q
            };
            assert(q != old_self.position_of(raw));
            assert(self.pool@[p].id@ == k);
            self.lemma_live_from_entry(p);
        }
        assert(self@ =~= old_self@.remove(raw));
    }

    /// Replaces the value that `id` points at with `value` and returns the old value.
    pub fn replace(&mut self, id: PoolId<M>, value: T) -> (r: T)
        requires
            old(self).wf(),
            old(self).replace_ok(id@),
        ensures
            final(self).wf(),
            r == old(self)@[old(self).replaced_id(id@)],
            old(self)@.contains_key(old(self).replaced_id(id@)),
            final(self)@ == old(self)@.insert(old(self).replaced_id(id@), value),
            final(self).spec_len() == old(self).spec_len(),
            final(self).spec_id() == old(self).spec_id(),
    {
        let ghost old_self = *self;
        let slot = id.index();
        let position = self.indices[slot];
        let target = self.pool[position].id;
        proof {
            old_self.lemma_live_from_entry(position as int);
        }
        let mut old = value;
        std::mem::swap(&mut self.pool[position].value, &mut old);
        proof {
            assert forall|p: int| 0 <= p < self.pool@.len() implies {
                let k = #[trigger] self.pool@[p].id@;
                &&& k != 0
                &&& raw_pool_id(k) == self.id
                &&& raw_index_field(k) >= 1
                &&& Self::slot_of(k) < self.indices@.len()
                &&& self.indices@[Self::slot_of(k)] == p
            } by {
                assert(self.pool@[p].id == old_self.pool@[p].id);
            }
            assert forall|u: int, p: int|
                0 <= u < self.unused@.len() && 0 <= p < self.pool@.len() implies raw_index_field(
                #[trigger] self.unused@[u]@,
            ) != raw_index_field(#[trigger] self.pool@[p].id@) by {
                assert(self.pool@[p].id == old_self.pool@[p].id);
            }
            let raw = target@;
            assert forall|k: u64| #[trigger] self.is_live(k) == old_self.is_live(k) by {
                if self.is_live(k) {
                    assert(self.pool@[self.position_of(k)].id == old_self.pool@[self.position_of(
                        k,
                    )].id);
                }
                if old_self.is_live(k) {
                    assert(self.pool@[old_self.position_of(k)].id == old_self.pool@[old_self.position_of(
                        k,
                    )].id);
                }
            }
            assert forall|k: u64| #[trigger] self.is_live(k) && k != raw implies self@[k]
                == old_self@[k] by {
                let p = self.position_of(k);
                if p == position {
                    assert(self.pool@[p].id@ == raw);
                }
            }
            assert(self@ =~= old_self@.insert(raw, value));
        }
        old
    }

    /// Removes some value from the pool and returns it, or returns `None`
    /// when the pool is empty.
    pub fn pop(&mut self) -> (r: Option<T>)
        requires
            old(self).wf(),
        ensures
            final(self).wf(),
            final(self).spec_id() == old(self).spec_id(),
            old(self).spec_len() == 0 ==> r is None && final(self)@ == old(self)@
                && final(self).spec_len() == 0,
            old(self).spec_len() > 0 ==> r is Some && exists|k: u64|
                {
                    &&& #[trigger] old(self)@.contains_key(k)
                    &&& r == Some(old(self)@[k])
                    &&& final(self)@ == old(self)@.remove(k)
                },
            old(self).spec_len() > 0 ==> final(self).spec_len() + 1 == old(self).spec_len(),
            old(self).spec_len() > 0 ==> r == Some(old(self)@[old(self).stored_ids().last()])
                && final(self)@ == old(self)@.remove(old(self).stored_ids().last()),
            old(self).spec_len() > 0 ==> final(self).free_slots() == old(self).free_slots() + 1
                && final(self).last_freed() == old(self).stored_ids().last(),
            old(self).spec_len() == 0 ==> final(self).free_slots() == old(self).free_slots(),
            final(self).slot_count() == old(self).slot_count(),
    {
        let ghost old_self = *self;
        match self.pool.pop() {
            None => {
                proof {
                    assert(self@ =~= old_self@);
                }
                None
            },
            Some(entry) => {
                let ghost last = old_self.pool@.len() - 1;
                proof {
                    assert(entry == old_self.pool@[last]);
                    old_self.lemma_live_from_entry(last);
                }
                let PoolEntry { id, value } = entry;
                self.unused.push(id);
                proof {
                    let n = self.unused@.len() - 1;
                    assert forall|p: int| 0 <= p < self.pool@.len() implies {
                        let k = #[trigger] self.pool@[p].id@;
                        &&& k != 0
                        &&& raw_pool_id(k) == self.id
                        &&& raw_index_field(k) >= 1
                        &&& Self::slot_of(k) < self.indices@.len()
                        &&& self.indices@[Self::slot_of(k)] == p
                    } by {
                        assert(self.pool@[p] == old_self.pool@[p]);
                    }
                    assert forall|u: int| 0 <= u < self.unused@.len() implies {
                        let k = #[trigger] self.unused@[u]@;
                        &&& raw_pool_id(k) == self.id
                        &&& raw_index_field(k) >= 1
                        &&& Self::slot_of(k) < self.indices@.len()
                    } by {
                        if u < n {
                            assert(self.unused@[u] == old_self.unused@[u]);
                        }
                    }
                    assert forall|u: int, p: int|
                        0 <= u < self.unused@.len() && 0 <= p < self.pool@.len()
                            implies raw_index_field(#[trigger] self.unused@[u]@) != raw_index_field(
                        #[trigger] self.pool@[p].id@,
                    ) by {
                        assert(self.pool@[p] == old_self.pool@[p]);
                        old_self.lemma_live_from_entry(p);
                        if u < n {
                            assert(self.unused@[u] == old_self.unused@[u]);
                        }
                    }
                    assert forall|u: int, v: int|
                        0 <= u < self.unused@.len() && 0 <= v < self.unused@.len() && u != v
                            implies raw_index_field(#[trigger] self.unused@[u]@) != raw_index_field(
                        #[trigger] self.unused@[v]@,
                    ) by {
                        if u < n {
                            assert(self.unused@[u] == old_self.unused@[u]);
                        }
                        if v < n {
                            assert(self.unused@[v] == old_self.unused@[v]);
                        }
                        if u == n {
                            assert(raw_index_field(old_self.unused@[v]@) != raw_index_field(
                                old_self.pool@[last].id@,
                            ));
                        }
                        if v == n {
                            assert(raw_index_field(old_self.unused@[u]@) != raw_index_field(
                                old_self.pool@[last].id@,
                            ));
                        }
                    }
                    self.lemma_view_after_remove(old_self, id@);
                    assert(old_self@.contains_key(id@));
                    assert(old_self.stored_ids().last() == id@);
                }
                Some(value)
            },
        }
    }

    /// Whether the pool holds no value.
    pub fn is_empty(&self) -> (r: bool)
        ensures
            r == (self.spec_len() == 0),
    {
        self.pool.len() == 0
    }

    /// The number of values in the pool.
    pub fn len(&self) -> (r: usize)
        ensures
            r == self.spec_len(),
    {
        self.pool.len()
    }

    /// The id of this pool, which every id it hands out carries.
    pub fn id(&self) -> (r: u64)
        ensures
            r == self.spec_id(),
    {
        self.id
    }

    /// The value stored under `id`, or `None` when `id` is null or belongs to
    /// another pool. An id of this pool must be live.
    pub fn get(&self, id: PoolId<M>) -> (r: Option<&T>)
        requires
            self.wf(),
            id@ == 0 || raw_pool_id(id@) != self.spec_id() || self@.contains_key(id@),
        ensures
            r == (if self@.contains_key(id@) {
                Some(&self@[id@])
            } else {
                None
            }),
            id@ == 0 || raw_pool_id(id@) != self.spec_id() ==> r is None,
    {
        if id.is_null() || id.pool_id() != self.id {
            return None;
        }
        let position = self.indices[id.index()];
        Some(&self.pool[position].value)
    }

    /// The value stored under `id`, to change in place, or `None` when `id` is null
    /// or belongs to another pool. An id of this pool must be live.
    pub fn get_mut(&mut self, id: PoolId<M>) -> (r: Option<&mut T>)
        requires
            old(self).wf(),
            id@ == 0 || raw_pool_id(id@) != old(self).spec_id() || old(self)@.contains_key(id@),
        ensures
            r is Some <==> old(self)@.contains_key(id@),
            id@ == 0 || raw_pool_id(id@) != old(self).spec_id() ==> r is None,
            r is None ==> *final(self) == *old(self),
            r is Some ==> *(r->0) == old(self)@[id@],
            r matches Some(v) ==> final(self)@ == old(self)@.insert(id@, *final(v)),
            final(self).wf(),
            final(self).spec_id() == old(self).spec_id(),
            final(self).spec_len() == old(self).spec_len(),
            final(self)@.dom() == old(self)@.dom(),
            forall|k: u64| #[trigger] old(self)@.contains_key(k) && k != id@ ==> final(self)@[k] == old(self)@[k],
    {
        if id.is_null() || id.pool_id() != self.id {
            return None;
        }
        let position = self.indices[id.index()];
        Some(&mut self.pool[position].value)
    }

    /// The ids stored in the pool, in storage order.
    pub closed spec fn stored_ids(&self) -> Seq<u64> {
        Seq::new(self.pool@.len(), |p: int| self.pool@[p].id@)
    }

    /// The pool holds as many values as it has live ids, and finitely many.
    pub proof fn lemma_len(&self)
        requires
            self.wf(),
        ensures
            self@.dom().finite(),
            self@.dom().len() == self.spec_len(),
    {
        let ids = self.stored_ids();
        assert forall|a: int, b: int| 0 <= a < ids.len() && 0 <= b < ids.len() && a != b implies ids[a]
            != ids[b] by {
            self.lemma_live_from_entry(a);
            self.lemma_live_from_entry(b);
        }
        assert(ids.no_duplicates());
        assert forall|k: u64| #[trigger] ids.to_set().contains(k) <==> self@.dom().contains(k) by {
            if self@.dom().contains(k) {
                let p = self.position_of(k);
                assert(ids[p] == k);
            }
            if ids.to_set().contains(k) {
                let p = choose|p: int| 0 <= p < ids.len() && ids[p] == k;
                self.lemma_live_from_entry(p);
            }
        }
        assert(ids.to_set() =~= self@.dom());
        ids.unique_seq_to_set();
    }

    /// Builds the id of this pool for a slot index and a generation.
    pub fn reconstruct_id(&self, index: usize, generation: u64) -> (r: PoolId<M>)
        requires
            self.wf(),
            index < INDEX_MAX,
            generation <= GENERATION_MAX,
        ensures
            r@ == raw_pack(self.spec_id(), index as u64, generation),
            raw_pool_id(r@) == self.spec_id(),
            raw_index_field(r@) == index + 1,
            raw_generation(r@) == generation,
    {
        PoolId::new(self.id, index, generation)
    }

    /// The ids and values in the pool, each once, in storage order.
    pub fn iter(&self) -> (r: Vec<(PoolId<M>, &T)>)
        requires
            self.wf(),
        ensures
            r@.len() == self.spec_len(),
            forall|i: int|
                0 <= i < r@.len() ==> #[trigger] self@.contains_key(r@[i].0@) && *r@[i].1
                    == self@[r@[i].0@],
            forall|k: u64|
                #[trigger] self@.contains_key(k) ==> exists|i: int|
                    0 <= i < r@.len() && #[trigger] r@[i].0@ == k,
            forall|i: int, j: int|
                0 <= i < r@.len() && 0 <= j < r@.len() && i != j ==> r@[i].0@ != r@[j].0@,
    {
        let mut r: Vec<(PoolId<M>, &T)> = Vec::new();
        let mut i: usize = 0;
        while i < self.pool.len()
            invariant
                self.wf(),
                i <= self.pool@.len(),
                r@.len() == i,
                forall|j: int|
                    0 <= j < i ==> #[trigger] r@[j].0@ == self.pool@[j].id@ && *r@[j].1
                        == self.pool@[j].value,
            decreases self.pool@.len() - i,
        {
            let entry = &self.pool[i];
            r.push((entry.id, &entry.value));
            i = i + 1;
        }
        proof {
            assert forall|j: int| 0 <= j < r@.len() implies #[trigger] self@.contains_key(
                r@[j].0@,
            ) && *r@[j].1 == self@[r@[j].0@] by {
                self.lemma_live_from_entry(j);
            }
            assert forall|k: u64| #[trigger] self@.contains_key(k) implies exists|j: int|
                0 <= j < r@.len() && #[trigger] r@[j].0@ == k by {
                let p = self.position_of(k);
                assert(r@[p].0@ == k);
            }
            assert forall|a: int, b: int|
                0 <= a < r@.len() && 0 <= b < r@.len() && a != b implies r@[a].0@ != r@[b].0@ by {
                self.lemma_live_from_entry(a);
                self.lemma_live_from_entry(b);
            }
        }
        r
    }

    /// The ids and values in the pool, each once, in storage order, with each value
    /// to change in place; what is written through the references ends up in the
    /// pool under the same ids.
    pub fn iter_mut(&mut self) -> (r: Vec<(PoolId<M>, &mut T)>)
        requires
            old(self).wf(),
        ensures
            r@.len() == old(self).spec_len(),
            forall|i: int|
                0 <= i < r@.len() ==> #[trigger] old(self)@.contains_key(r@[i].0@) && *r@[i].1
                    == old(self)@[r@[i].0@],
            forall|k: u64|
                #[trigger] old(self)@.contains_key(k) ==> exists|i: int|
                    0 <= i < r@.len() && #[trigger] r@[i].0@ == k,
            forall|i: int, j: int|
                0 <= i < r@.len() && 0 <= j < r@.len() && i != j ==> r@[i].0@ != r@[j].0@,
            final(self).wf(),
            final(self)@.dom() == old(self)@.dom(),
            forall|i: int| 0 <= i < r@.len() ==> final(self)@[(#[trigger] r@[i]).0@] == *final(r@[i].1),
            final(self).spec_id() == old(self).spec_id(),
            final(self).spec_len() == old(self).spec_len(),
            final(self).slot_count() == old(self).slot_count(),
            final(self).free_slots() == old(self).free_slots(),
            final(self).stored_ids() == old(self).stored_ids(),
    {
        let ghost old_self = *self;
        let r = entries_mut(self.pool.as_mut_slice());
        proof {
            assert forall|j: int| 0 <= j < r@.len() implies #[trigger] old_self@.contains_key(
                r@[j].0@,
            ) && *r@[j].1 == old_self@[r@[j].0@] by {
                old_self.lemma_live_from_entry(j);
            }
            assert forall|k: u64| #[trigger] old_self@.contains_key(k) implies exists|j: int|
                0 <= j < r@.len() && #[trigger] r@[j].0@ == k by {
                let p = old_self.position_of(k);
                assert(r@[p].0@ == k);
            }
            assert forall|a: int, b: int|
                0 <= a < r@.len() && 0 <= b < r@.len() && a != b implies r@[a].0@ != r@[b].0@ by {
                old_self.lemma_live_from_entry(a);
                old_self.lemma_live_from_entry(b);
            }
        }
        r
    }

    /// The stored ids are exactly the live ids, each once, and hold the values of the map.
    pub proof fn lemma_stored_ids(&self)
        requires
            self.wf(),
        ensures
            self.stored_ids().len() == self.spec_len(),
            self.stored_ids().no_duplicates(),
            self.stored_ids().to_set() == self@.dom(),
    {
        self.lemma_len();
        let ids = self.stored_ids();
        assert forall|a: int, b: int| 0 <= a < ids.len() && 0 <= b < ids.len() && a != b implies ids[a]
            != ids[b] by {
            self.lemma_live_from_entry(a);
            self.lemma_live_from_entry(b);
        }
        assert forall|k: u64| #[trigger] ids.to_set().contains(k) <==> self@.dom().contains(k) by {
            if self@.dom().contains(k) {
                let p = self.position_of(k);
                assert(ids[p] == k);
            }
            if ids.to_set().contains(k) {
                let p = choose|p: int| 0 <= p < ids.len() && ids[p] == k;
                self.lemma_live_from_entry(p);
            }
        }
        assert(ids.to_set() =~= self@.dom());
    }

    /// Takes every value out of the pool, in storage order (the order of
    /// [`ObjectPool::stored_ids`]); the pool is left empty.
    pub fn drain(&mut self) -> (r: Vec<T>)
        requires
            old(self).wf(),
        ensures
            final(self).wf(),
            final(self)@ == Map::<u64, T>::empty(),
            final(self).spec_len() == 0,
            final(self).spec_id() == old(self).spec_id(),
            r@.len() == old(self).spec_len(),
            forall|i: int| 0 <= i < r@.len() ==> r@[i] == old(self)@[#[trigger] old(self).stored_ids()[i]],
    {
        let ghost old_self = *self;
        self.unused.clear();
        self.indices.clear();
        let mut entries: Vec<PoolEntry<T, M>> = Vec::new();
        std::mem::swap(&mut entries, &mut self.pool);
        let ghost all = entries@;
        let mut reversed: Vec<T> = Vec::with_capacity(entries.len());
        while entries.len() > 0
            invariant
                entries@.len() + reversed@.len() == all.len(),
                entries@ == all.take(entries@.len() as int),
                forall|i: int| 0 <= i < reversed@.len() ==> reversed@[i] == all[all.len() - 1 - i].value,
            decreases entries@.len(),
        {
            let entry = entries.pop().unwrap();
            reversed.push(entry.value);
            proof {
                assert(entries@ =~= all.take(entries@.len() as int));
            }
        }
        let mut out: Vec<T> = Vec::with_capacity(reversed.len());
        while reversed.len() > 0
            invariant
                reversed@.len() + out@.len() == all.len(),
                forall|i: int| 0 <= i < reversed@.len() ==> reversed@[i] == all[all.len() - 1 - i].value,
                forall|i: int| 0 <= i < out@.len() ==> out@[i] == all[i].value,
            decreases reversed@.len(),
        {
            let v = reversed.pop().unwrap();
            out.push(v);
        }
        proof {
            assert(self@ =~= Map::<u64, T>::empty());
            assert forall|i: int| 0 <= i < out@.len() implies out@[i] == old_self@[#[trigger] old_self.stored_ids()[i]] by {
                old_self.lemma_live_from_entry(i);
            }
        }
        out
    }

    /// Turns the pool into an iterator over its values, in storage order (the order
    /// of [`ObjectPool::stored_ids`]).
    pub fn into_iter(self) -> (r: ObjectPoolIterator<T, M>)
        requires
            self.wf(),
        ensures
            r.remaining().len() == self.spec_len(),
            forall|i: int|
                0 <= i < r.remaining().len() ==> r.remaining()[i] == self@[#[trigger] self.stored_ids()[i]],
    {
        let mut pool = self;
        let mut values = pool.drain();
        let ghost all = values@;
        let mut rest: Vec<T> = Vec::with_capacity(values.len());
        while values.len() > 0
            invariant
                values@.len() + rest@.len() == all.len(),
                values@ == all.take(values@.len() as int),
                forall|i: int| 0 <= i < rest@.len() ==> rest@[i] == all[all.len() - 1 - i],
            decreases values@.len(),
        {
            let v = values.pop().unwrap();
            rest.push(v);
            proof {
                assert(values@ =~= all.take(values@.len() as int));
            }
        }
        let r = ObjectPoolIterator { rest, marker: PhantomData };
        assert(r.remaining() =~= all);
        r
    }

    /// Removes every value from the pool.
    pub fn clear(&mut self)
        requires
            old(self).wf(),
        ensures
            final(self).wf(),
            final(self)@ == Map::<u64, T>::empty(),
            final(self).spec_len() == 0,
            final(self).spec_id() == old(self).spec_id(),
            final(self).slot_count() == 0,
            final(self).free_slots() == 0,
    {
        self.indices.clear();
        self.unused.clear();
        self.pool.clear();
        assert(self@ =~= Map::<u64, T>::empty());
    }
}

/// The values of a pool, handed out one by one in storage order.
pub struct ObjectPoolIterator<T, M: Copy> {
    rest: Vec<T>,
    marker: PhantomData<M>,
}

impl<T, M: Copy> ObjectPoolIterator<T, M> {
    /// The values still to come, in order.
    pub closed spec fn remaining(&self) -> Seq<T> {
        self.rest@.reverse()
    }

    /// The next value, if any is left.
    pub fn next(&mut self) -> (r: Option<T>)
        ensures
            old(self).remaining().len() == 0 ==> r is None && final(self).remaining() == old(self).remaining(),
            old(self).remaining().len() > 0 ==> r == Some(old(self).remaining()[0])
                && final(self).remaining() == old(self).remaining().drop_first(),
    {
        let r = self.rest.pop();
        proof {
            if old(self).rest@.len() > 0 {
                assert(self.remaining() =~= old(self).remaining().drop_first());
            }
        }
        r
    }

    /// How many values are left, as a lower and an upper bound.
    pub fn size_hint(&self) -> (r: (usize, Option<usize>))
        ensures
            r.0 == self.remaining().len(),
            r.1 == Some(r.0),
    {
        (self.rest.len(), Some(self.rest.len()))
    }
}

impl<T, M: Copy> std::ops::Index<PoolId<M>> for ObjectPool<T, M> {
    type Output = T;

    /// The value stored under a live id.
    fn index(&self, id: PoolId<M>) -> (r: &T)
        ensures
            *r == self@[id@],
    {
        match self.get(id) {
            Some(v) => v,
            None => vstd::pervasive::unreached(),
        }
    }
}

impl<T, M: Copy> vstd::std_specs::core::IndexSpecImpl<PoolId<M>> for ObjectPool<T, M> {
    open spec fn index_req(&self, id: &PoolId<M>) -> bool {
        self.wf() && self@.contains_key(id@)
    }
}

} // verus!
