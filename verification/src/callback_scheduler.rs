//! A scheduler that groups callbacks by the instant they are due, in a map
//! ordered by time.
use vstd::prelude::*;
use std::collections::BTreeMap;
use crate::time::{now, Duration, Instant, MAX_NANOS};
use vstd::std_specs::iter::IteratorSpec;
use vstd::std_specs::cmp::OrdSpec;

verus! {

broadcast use vstd::std_specs::btree::group_btree_axioms, vstd::laws_cmp::group_laws_cmp;

/// The callbacks due at one instant, in the order they were added.
pub enum SchedulerNode<C> {
    Emtpy,
    Single(C),
    Multi(Vec<C>),
}

impl<C> SchedulerNode<C> {
    /// The callbacks, in order.
    pub open spec fn callbacks(&self) -> Seq<C> {
        match self {
            SchedulerNode::Emtpy => Seq::empty(),
            SchedulerNode::Single(c) => seq![*c],
            SchedulerNode::Multi(v) => v@,
        }
    }

    /// Adds a callback after the others.
    pub fn push(&mut self, callback: C)
        ensures
            final(self).callbacks() == old(self).callbacks().push(callback),
    {
        let mut old_node = SchedulerNode::Emtpy;
        std::mem::swap(self, &mut old_node);
        let new_node = match old_node {
            SchedulerNode::Emtpy => SchedulerNode::Single(callback),
            SchedulerNode::Single(single) => SchedulerNode::Multi(vec![single, callback]),
            SchedulerNode::Multi(mut v) => {
                v.push(callback);
                SchedulerNode::Multi(v)
            },
        };
        *self = new_node;
        proof {
            assert(self.callbacks() =~= old(self).callbacks().push(callback));
        }
    }

    /// The callbacks in the order they are to be invoked.
    pub fn callbacks_in_order(&self) -> (r: Vec<&C>)
        ensures
            r@.len() == self.callbacks().len(),
            forall|i: int| 0 <= i < r@.len() ==> *r@[i] == self.callbacks()[i],
    {
        let mut out: Vec<&C> = Vec::new();
        match self {
            SchedulerNode::Emtpy => {},
            SchedulerNode::Single(single) => {
                out.push(single);
            },
            SchedulerNode::Multi(v) => {
                let mut i: usize = 0;
                while i < v.len()
                    invariant
                        i <= v@.len(),
                        out@.len() == i,
                        forall|j: int| 0 <= j < i ==> *out@[j] == v@[j],
                    decreases v@.len() - i,
                {
                    out.push(&v[i]);
                    i = i + 1;
                }
            },
        }
        out
    }
}

/// The keys of a map come out of its key iterator in increasing order.
proof fn lemma_keys_increasing<V>(m: &BTreeMap<u128, V>, i: int, j: int)
    requires
        0 <= i < j < vstd::std_specs::btree::spec_keys_iter(m).remaining().len(),
    ensures
        *vstd::std_specs::btree::spec_keys_iter(m).remaining()[i]
            < *vstd::std_specs::btree::spec_keys_iter(m).remaining()[j],
{
    let s = vstd::std_specs::btree::spec_keys_iter(m).remaining();
    vstd::std_specs::btree::axiom_spec_keys_iter(m);
    broadcast use vstd::laws_cmp::lemma_ref_obeys_cmp_spec;
    assert(vstd::std_specs::btree::increasing_seq(s));
    assert(vstd::laws_cmp::obeys_cmp::<u128>());
    assert(vstd::laws_cmp::obeys_cmp::<&u128>());
    vstd::std_specs::btree::axiom_increasing_seq_meaning::<&u128>(s);
    assert(OrdSpec::cmp_spec(&s[i], &s[j]) is Less);
}

/// Callbacks grouped by the instant (in nanoseconds) they are due.
pub struct Scheduler<C> {
    schedule: BTreeMap<u128, Option<SchedulerNode<C>>>,
}

impl<C> Scheduler<C> {
    /// The callbacks due at each instant, by nanoseconds since the epoch.
    pub closed spec fn view(&self) -> Map<u128, Seq<C>> {
        Map::new(
            |t: u128| self.schedule@.contains_key(t),
            |t: u128| self.schedule@[t]->Some_0.callbacks(),
        )
    }

    /// Every instant in the map holds a group and is in the range of [`Instant`]:
    /// every scheduler keeps it so.
    pub closed spec fn wf(&self) -> bool {
        forall|t: u128| #[trigger] self.schedule@.contains_key(t) ==> self.schedule@[t] is Some && t
            <= MAX_NANOS
    }

    /// The internal invariant: every instant in the map holds a group.
    #[verifier::type_invariant]
    closed spec fn groups_present(self) -> bool {
        self.wf()
    }

    /// An empty scheduler.
    pub fn new() -> (r: Self)
        ensures
            r.wf(),
            r@ == Map::<u128, Seq<C>>::empty(),
    {
        let r = Scheduler { schedule: BTreeMap::new() };
        assert(r@ =~= Map::<u128, Seq<C>>::empty());
        r
    }

    /// Adds `callback` at `time`, after the callbacks already due then.
    pub fn schedule(&mut self, time: Instant, callback: C)
        ensures
            final(self).wf(),
            final(self)@ == old(self)@.insert(
                time@ as u128,
                (if old(self)@.contains_key(time@ as u128) {
                    old(self)@[time@ as u128]
                } else {
                    Seq::empty()
                }).push(callback),
            ),
    {
        proof {
            use_type_invariant(&*self);
        }
        let key = time.as_nanos();
        let mut map: BTreeMap<u128, Option<SchedulerNode<C>>> = BTreeMap::new();
        std::mem::swap(&mut map, &mut self.schedule);
        let mut node = match map.remove(&key) {
            Some(Some(node)) => node,
            _ => SchedulerNode::Emtpy,
        };
        node.push(callback);
        map.insert(key, Some(node));
        proof {
            let expected = old(self)@.insert(
                key,
                (if old(self)@.contains_key(key) {
                    old(self)@[key]
                } else {
                    Seq::empty()
                }).push(callback),
            );
            assert forall|t: u128| #[trigger] map@.contains_key(t) implies map@[t] is Some by {
                if t != key {
                    assert(old(self).schedule@.contains_key(t));
                }
            }
        }
        self.schedule = map;
        proof {
            assert(self@ =~= old(self)@.insert(
                key,
                (if old(self)@.contains_key(key) {
                    old(self)@[key]
                } else {
                    Seq::empty()
                }).push(callback),
            ));
        }
    }

    /// Adds `callback` at `duration` after the current time of the clock (at the last
    /// representable instant when that is out of range).
    pub fn schedule_after(&mut self, duration: Duration, callback: C)
        ensures
            final(self).wf(),
            exists|t: u128|
                #[trigger] final(self)@.contains_key(t) && t >= duration@ && final(self)@ == old(
                    self,
                )@.insert(
                    t,
                    (if old(self)@.contains_key(t) {
                        old(self)@[t]
                    } else {
                        Seq::empty()
                    }).push(callback),
                ),
    {
        let t = now().saturating_add(duration);
        self.schedule(t, callback);
        assert(self@.contains_key(t@ as u128));
    }

    /// Adds `callback` at `duration` after `now`.
    pub fn schedule_after_from(&mut self, now: Instant, duration: Duration, callback: C)
        requires
            now@ + duration@ <= MAX_NANOS,
        ensures
            final(self).wf(),
            final(self)@ == old(self)@.insert(
                (now@ + duration@) as u128,
                (if old(self)@.contains_key((now@ + duration@) as u128) {
                    old(self)@[(now@ + duration@) as u128]
                } else {
                    Seq::empty()
                }).push(callback),
            ),
    {
        self.schedule(now.add(duration), callback)
    }

    /// The earliest instant at which callbacks are due, in nanoseconds.
    fn first_key(&self) -> (r: Option<u128>)
        ensures
            r is None ==> self@.dom() == Set::<u128>::empty(),
            r is Some ==> self@.contains_key(r->0) && r->0 <= MAX_NANOS && forall|t: u128| #[trigger]
                self@.contains_key(t) ==> r->0 <= t,
    {
        proof {
            use_type_invariant(self);
        }
        let mut first: Option<u128> = None;
        for k in it: self.schedule.keys()
            invariant
                it.seq() == vstd::std_specs::btree::spec_keys_iter(&self.schedule).remaining(),
                it.index() == 0 ==> first is None,
                it.index() > 0 ==> first == Some(*it.seq()[0]),
        {
            if first.is_none() {
                first = Some(*k);
            }
        }
        proof {
            let keys = vstd::std_specs::btree::spec_keys_iter(&self.schedule).remaining();
            assert(keys.unref().to_set() == self.schedule@.dom());
            if first is None {
                assert(keys.len() == 0);
                assert(self.schedule@.dom() =~= Set::empty());
            } else {
                let k = first->0;
                assert(keys.len() > 0);
                assert(*keys[0] == k);
                assert(keys.unref()[0] == k);
                assert(keys.unref().contains(k));
                assert forall|t: u128| #[trigger] self.schedule@.contains_key(t) implies k <= t by {
                    assert(keys.unref().to_set().contains(t));
                    let j = choose|j: int| 0 <= j < keys.len() && *keys[j] == t;
                    if j > 0 {
                        lemma_keys_increasing(&self.schedule, 0, j);
                    }
                }
            }
        }
        proof {
            assert(self@.dom() =~= self.schedule@.dom());
        }
        first
    }

    /// When the earliest group of callbacks is due, if any is scheduled.
    pub fn next_time(&self) -> (r: Option<Instant>)
        ensures
            r is None ==> self@.dom() == Set::<u128>::empty(),
            r is Some ==> self@.contains_key(r->0@ as u128) && forall|t: u128| #[trigger]
                self@.contains_key(t) ==> r->0@ <= t,
    {
        match self.first_key() {
            Some(key) => Some(Instant::from_nanos(key)),
            None => None,
        }
    }

    /// Takes the earliest group of callbacks if it is due at `now`.
    pub fn pop_due(&mut self, now: Instant) -> (r: Option<(Instant, SchedulerNode<C>)>)
        ensures
            final(self).wf(),
            r is None ==> final(self)@ == old(self)@ && forall|t: u128| #[trigger]
                old(self)@.contains_key(t) ==> t > now@,
            r is Some ==> {
                let (time, node) = r->0;
                &&& old(self)@.contains_key(time@ as u128)
                &&& time@ <= now@
                &&& forall|t: u128| #[trigger] old(self)@.contains_key(t) ==> time@ <= t
                &&& node.callbacks() == old(self)@[time@ as u128]
                &&& final(self)@ == old(self)@.remove(time@ as u128)
            },
    {
        proof {
            use_type_invariant(&*self);
        }
        let first = self.first_key();
        match first {
            None => {
                proof {
                    assert(old(self)@ =~= self@);
                }
                None
            },
            Some(key) => {
                if key > now.as_nanos() {
                    return None;
                }
                let mut map: BTreeMap<u128, Option<SchedulerNode<C>>> = BTreeMap::new();
                std::mem::swap(&mut map, &mut self.schedule);
                let entry = map.remove(&key);
                proof {
                    assert forall|t: u128| #[trigger] map@.contains_key(t) implies map@[t] is Some by {
                        assert(old(self).schedule@.contains_key(t));
                    }
                }
                self.schedule = map;
                match entry {
                    Some(Some(node)) => {
                        let time = Instant::from_nanos(key);
                        proof {
                            assert(self@ =~= old(self)@.remove(key));
                        }
                        Some((time, node))
                    },
                    _ => {
                        proof {
                            assert(false);
                        }
                        None
                    },
                }
            },
        }
    }

    /// Whether nothing is scheduled.
    pub fn is_empty(&self) -> (r: bool)
        ensures
            r == (self@.dom().len() == 0),
    {
        assert(self@.dom() =~= self.schedule@.dom());
        self.schedule.is_empty()
    }

    /// The number of instants at which callbacks are due.
    pub fn len(&self) -> (r: usize)
        ensures
            r == self@.dom().len(),
    {
        assert(self@.dom() =~= self.schedule@.dom());
        self.schedule.len()
    }
}

} // verus!
