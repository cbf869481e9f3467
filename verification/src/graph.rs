//! A directed graph whose nodes keep both their outgoing and incoming edges.
use vstd::prelude::*;
use crate::unordered_vec::{SlotId, UnorderedVec};

verus! {

/// The id of a node in a [`Graph`].
#[derive(Debug, Clone, Copy, PartialEq, Eq, Structural, PartialOrd, Ord, Hash)]
pub struct NodeId(u32);

impl View for NodeId {
    type V = u32;

    closed spec fn view(&self) -> u32 {
        self.0
    }
}

impl NodeId {
    /// The id with the given number.
    pub fn from_raw(raw: u32) -> (r: NodeId)
        ensures
            r@ == raw,
    {
        NodeId(raw)
    }

    /// The id of the node's slot.
    fn slot_id(self) -> (r: SlotId)
        ensures
            r@ == self@,
    {
        SlotId::from_raw(self.0)
    }
}

/// One end of an edge: a node and a slot (port) in one of its edge lists.
#[derive(Debug, Clone, Copy, PartialEq, Eq, Structural, PartialOrd, Ord, Hash)]
pub struct Connection {
    /// The node at this end.
    pub node: SlotId,
    /// The slot of the edge in that node's list.
    pub port: SlotId,
}

impl Connection {
    fn new(node: SlotId, port: SlotId) -> (r: Self)
        ensures
            r.node == node,
            r.port == port,
    {
        Connection { node, port }
    }
}

/// The number of a connection's node and of its port.
pub open spec fn link(c: Connection) -> (u32, u32) {
    (c.node@, c.port@)
}

/// A node: its value, its outgoing edges and its incoming edges.
pub struct Node<T> {
    pub value: T,
    outputs: UnorderedVec<Connection>,
    inputs: UnorderedVec<Connection>,
}

impl<T> Node<T> {
    /// A node holding `value` with no edges.
    pub fn new(value: T) -> (r: Self)
        ensures
            r.spec_value() == value,
            r.outputs_view() == Map::<u32, Connection>::empty(),
            r.inputs_view() == Map::<u32, Connection>::empty(),
            r.wf(),
            r.slots_below(1),
    {
        Node { value, outputs: UnorderedVec::new(), inputs: UnorderedVec::new() }
    }

    /// The value of the node.
    pub closed spec fn spec_value(&self) -> T {
        self.value
    }

    /// The outgoing edges by slot: each names the target node and the slot of the
    /// edge among the target's incoming edges.
    pub closed spec fn outputs_view(&self) -> Map<u32, Connection> {
        self.outputs@
    }

    /// The incoming edges by slot: each names the source node and the slot of the
    /// edge among the source's outgoing edges.
    pub closed spec fn inputs_view(&self) -> Map<u32, Connection> {
        self.inputs@
    }

    /// The invariant of both edge lists.
    pub closed spec fn wf(&self) -> bool {
        self.outputs.wf() && self.inputs.wf()
    }

    /// Both edge lists have handed out fewer than `bound` slots.
    pub closed spec fn slots_below(&self, bound: nat) -> bool {
        self.outputs.slot_count() < bound && self.inputs.slot_count() < bound
    }
}

/// An edge of a graph, named by its source node and its output slot.
#[derive(Debug, Clone, Copy, PartialEq, Eq, Structural, PartialOrd, Ord, Hash)]
pub struct ConnectionId(u32);

/// A node together with one of its edges.
#[derive(Debug, Clone, Copy, PartialEq, Eq, Structural, PartialOrd, Ord, Hash)]
pub struct NodeConnection(NodeId, ConnectionId);

/// A directed graph. Nodes are never removed; edges can be.
pub struct Graph<T> {
    nodes: UnorderedVec<Node<T>>,
}

impl<T> Graph<T> {
    /// The nodes by id.
    pub closed spec fn view(&self) -> Map<u32, Node<T>> {
        self.nodes@
    }

    /// Whether `id` names a node.
    pub open spec fn has_node(&self, id: u32) -> bool {
        self@.contains_key(id)
    }

    /// The outgoing edges of node `a`.
    pub open spec fn outputs(&self, a: u32) -> Map<u32, Connection> {
        self@[a].outputs_view()
    }

    /// The incoming edges of node `a`.
    pub open spec fn inputs(&self, a: u32) -> Map<u32, Connection> {
        self@[a].inputs_view()
    }

    /// The value of node `a`.
    pub open spec fn value(&self, a: u32) -> T {
        self@[a].spec_value()
    }

    /// Whether node `a` has an outgoing edge to `target`.
    pub open spec fn has_output_to(&self, a: u32, target: u32) -> bool {
        exists|o: u32| #[trigger]
            self.outputs(a).contains_key(o) && self.outputs(a)[o].node@ == target
    }

    /// Whether node `a` has an incoming edge from `source`.
    pub open spec fn has_input_from(&self, a: u32, source: u32) -> bool {
        exists|i: u32| #[trigger]
            self.inputs(a).contains_key(i) && self.inputs(a)[i].node@ == source
    }

    /// Every edge is recorded at both ends: an output of `a` in slot `o` toward
    /// `(b, p)` is the input of `b` in slot `p` from `(a, o)`, and the other way round.
    pub open spec fn links_agree(&self) -> bool {
        &&& forall|a: u32, o: u32|
            #![trigger self.outputs(a).contains_key(o)]
            self.has_node(a) && self.outputs(a).contains_key(o) ==> {
                let c = self.outputs(a)[o];
                &&& self.has_node(c.node@)
                &&& self.inputs(c.node@).contains_key(c.port@)
                &&& link(self.inputs(c.node@)[c.port@]) == (a, o)
            }
        &&& forall|b: u32, i: u32|
            #![trigger self.inputs(b).contains_key(i)]
            self.has_node(b) && self.inputs(b).contains_key(i) ==> {
                let c = self.inputs(b)[i];
                &&& self.has_node(c.node@)
                &&& self.outputs(c.node@).contains_key(c.port@)
                &&& link(self.outputs(c.node@)[c.port@]) == (b, i)
            }
    }

    /// The number of nodes ever added: node ids are handed out from 0 up, and
    /// nodes are never removed.
    pub closed spec fn node_count(&self) -> nat {
        self.nodes.slot_count()
    }

    /// The internal invariant.
    pub closed spec fn wf(&self) -> bool {
        &&& self.nodes.wf()
        &&& self.nodes.free_slots() == 0
        &&& forall|a: u32| #[trigger] self.nodes@.contains_key(a) ==> self.nodes@[a].wf()
        &&& self.links_agree()
    }

    /// The graph and every edge list have handed out fewer than `bound` slots.
    pub closed spec fn slots_below(&self, bound: nat) -> bool {
        &&& self.nodes.slot_count() < bound
        &&& forall|a: u32| #[trigger] self.nodes@.contains_key(a) ==> self.nodes@[a].slots_below(
            bound,
        )
    }

    /// An empty graph.
    pub fn new() -> (r: Self)
        ensures
            r.wf(),
            r@ == Map::<u32, Node<T>>::empty(),
            r.slots_below(1),
            r.node_count() == 0,
    {
        Graph { nodes: UnorderedVec::new() }
    }

    /// In a graph every edge is recorded at both of its ends.
    pub proof fn lemma_links_agree(&self)
        requires
            self.wf(),
        ensures
            self.links_agree(),
    {
    }

    /// Removing an edge that was just added gives both of its ends back the edge
    /// lists they had: `after` is `before` as [`Graph::connect`] from `a` to `b`
    /// leaves it, returning `c`, and `undone` is `after` as [`Graph::disconnect`]
    /// with `c` leaves it.
    pub proof fn lemma_disconnect_undoes_connect(
        before: Graph<T>,
        after: Graph<T>,
        undone: Graph<T>,
        a: u32,
        b: u32,
        c: Connection,
    )
        requires
            c.node@ == a,
            !before.outputs(a).contains_key(c.port@),
            after.outputs(a).contains_key(c.port@),
            after.outputs(a)[c.port@].node@ == b,
            !before.inputs(b).contains_key(after.outputs(a)[c.port@].port@),
            after.outputs(a) == before.outputs(a).insert(c.port@, after.outputs(a)[c.port@]),
            after.inputs(b) == before.inputs(b).insert(after.outputs(a)[c.port@].port@, c),
            undone.outputs(a) == after.outputs(a).remove(c.port@),
            undone.inputs(b) == after.inputs(b).remove(after.outputs(a)[c.port@].port@),
        ensures
            undone.outputs(a) == before.outputs(a),
            undone.inputs(b) == before.inputs(b),
    {
        assert(undone.outputs(a) =~= before.outputs(a));
        assert(undone.inputs(b) =~= before.inputs(b));
    }

    /// A graph that has handed out fewer than `low` slots has handed out fewer
    /// than any larger number.
    pub proof fn lemma_slots_below_mono(&self, low: nat, high: nat)
        requires
            self.slots_below(low),
            low <= high,
        ensures
            self.slots_below(high),
    {
        assert forall|a: u32| #[trigger] self.nodes@.contains_key(a) implies self.nodes@[a].slots_below(high) by {
            assert(self.nodes@[a].slots_below(low));
        }
    }

    /// Adds a node without edges and returns its id.
    pub fn insert(&mut self, value: T) -> (r: NodeId)
        requires
            old(self).wf(),
            old(self).slots_below(u32::MAX as nat),
        ensures
            final(self).wf(),
            !old(self).has_node(r@),
            final(self).has_node(r@),
            final(self).value(r@) == value,
            final(self).outputs(r@) == Map::<u32, Connection>::empty(),
            final(self).inputs(r@) == Map::<u32, Connection>::empty(),
            forall|a: u32| old(self).has_node(a) ==> #[trigger] final(self)@[a] == old(self)@[a],
            final(self)@.dom() == old(self)@.dom().insert(r@),
            forall|bound: nat| #[trigger] old(self).slots_below(bound) ==> final(self).slots_below(
                bound + 1,
            ),
            r@ == old(self).node_count(),
            final(self).node_count() == old(self).node_count() + 1,
    {
        let ghost old_self = *self;
        let r = self.insert_with(value, &[]);
        proof {
            assert forall|bound: nat| old_self.slots_below(bound) implies #[trigger] self.slots_below(
                bound + 1,
            ) by {
                assert(self.slots_below(bound + 0 + 1));
            }
        }
        r
    }

    /// Adds a node with an edge from it to each of `connections`, in order, and
    /// returns its id.
    pub fn insert_with(&mut self, value: T, connections: &[NodeId]) -> (r: NodeId)
        requires
            old(self).wf(),
            old(self).slots_below((u32::MAX - connections@.len()) as nat),
            connections@.len() < u32::MAX,
            forall|i: int| 0 <= i < connections@.len() ==> old(self).has_node(#[trigger] connections@[i]@),
        ensures
            final(self).wf(),
            !old(self).has_node(r@),
            final(self).has_node(r@),
            final(self).value(r@) == value,
            final(self)@.dom() == old(self)@.dom().insert(r@),
            forall|a: u32| #[trigger] old(self).has_node(a) ==> final(self).value(a) == old(self).value(a),
            forall|bound: nat| #[trigger] old(self).slots_below(bound) ==> final(self).slots_below(
                bound + connections@.len() + 1,
            ),
            connections@.len() == 0 ==> final(self).outputs(r@) == Map::<u32, Connection>::empty()
                && final(self).inputs(r@) == Map::<u32, Connection>::empty() && forall|a: u32|
                old(self).has_node(a) ==> #[trigger] final(self)@[a] == old(self)@[a],
            final(self).outputs(r@).len() == connections@.len(),
            final(self).inputs(r@) == Map::<u32, Connection>::empty(),
            forall|i: int|
                0 <= i < connections@.len() ==> final(self).has_input_from(#[trigger] connections@[i]@, r@),
            forall|o: u32|
                #[trigger] final(self).outputs(r@).contains_key(o) ==> exists|i: int|
                    0 <= i < connections@.len() && final(self).outputs(r@)[o].node@
                        == #[trigger] connections@[i]@,
            forall|x: u32|
                #![trigger final(self).outputs(x)]
                old(self).has_node(x) ==> final(self).outputs(x) == old(self).outputs(x),
            forall|x: u32, p: u32|
                #![trigger old(self).inputs(x).contains_key(p)]
                old(self).has_node(x) && old(self).inputs(x).contains_key(p) ==> final(self).inputs(
                    x,
                ).contains_key(p) && final(self).inputs(x)[p] == old(self).inputs(x)[p],
            forall|x: u32, p: u32|
                #![trigger final(self).inputs(x).contains_key(p)]
                old(self).has_node(x) && final(self).inputs(x).contains_key(p) && !old(
                    self,
                ).inputs(x).contains_key(p) ==> final(self).inputs(x)[p].node@ == r@,
            forall|i: int|
                0 <= i < connections@.len() ==> final(self).has_output_to(r@, #[trigger] connections@[i]@),
            r@ == old(self).node_count(),
            final(self).node_count() == old(self).node_count() + 1,
    {
        let ghost old_self = *self;
        let id = self.nodes.insert(Node::new(value));
        proof {
            assert(self.links_agree()) by {
                assert forall|a: u32, o: u32|
                    self.has_node(a) && self.outputs(a).contains_key(o) implies {
                        let c = self.outputs(a)[o];
                        &&& self.has_node(c.node@)
                        &&& self.inputs(c.node@).contains_key(c.port@)
                        &&& link(self.inputs(c.node@)[c.port@]) == (a, o)
                    } by {
                    assert(old_self.outputs(a).contains_key(o));
                }
                assert forall|b: u32, i: u32|
                    self.has_node(b) && self.inputs(b).contains_key(i) implies {
                        let c = self.inputs(b)[i];
                        &&& self.has_node(c.node@)
                        &&& self.outputs(c.node@).contains_key(c.port@)
                        &&& link(self.outputs(c.node@)[c.port@]) == (b, i)
                    } by {
                    assert(old_self.inputs(b).contains_key(i));
                }
            }
            assert(self@.dom() =~= old_self@.dom().insert(id@));
            assert forall|bound: nat| old_self.slots_below(bound) implies #[trigger] self.slots_below(
                (bound + 0 + 1) as nat,
            ) by {
                assert forall|x: u32| #[trigger] self.nodes@.contains_key(x) implies self.nodes@[x].slots_below(bound + 1) by {
                    if x != id@ {
                        assert(old_self.nodes@.contains_key(x));
                        assert(old_self.nodes@[x].slots_below(bound));
                    }
                }
            }
            assert(self.outputs(id@).dom() =~= Set::<u32>::empty());
            assert(self.inputs(id@).dom() =~= Set::<u32>::empty());
            assert(self.inputs(id@) =~= Map::<u32, Connection>::empty());
        }
        let node = NodeId(id.raw());
        let mut k: usize = 0;
        let ghost mid = *self;
        while k < connections.len()
            invariant
                k <= connections@.len(),
                connections@.len() < u32::MAX,
                self.wf(),
                self.has_node(node@),
                !old_self.has_node(node@),
                self.value(node@) == value,
                self@.dom() == old_self@.dom().insert(node@),
                forall|a: u32| #[trigger] old_self.has_node(a) ==> self.value(a) == old_self.value(a),
                forall|bound: nat| old_self.slots_below(bound) ==> #[trigger] self.slots_below(
                    (bound + k + 1) as nat,
                ),
                old_self.slots_below((u32::MAX - connections@.len()) as nat),
                forall|i: int| 0 <= i < connections@.len() ==> old_self.has_node(#[trigger] connections@[i]@),
                self.outputs(node@).dom().finite(),
                self.outputs(node@).len() == k,
                forall|i: int| 0 <= i < k ==> self.has_output_to(node@, #[trigger] connections@[i]@),
                k == 0 ==> *self == mid,
                node@ == old_self.node_count(),
                self.node_count() == old_self.node_count() + 1,
                self.inputs(node@) == Map::<u32, Connection>::empty(),
                forall|i: int| 0 <= i < k ==> self.has_input_from(#[trigger] connections@[i]@, node@),
                forall|o: u32|
                    #[trigger] self.outputs(node@).contains_key(o) ==> exists|i: int|
                        0 <= i < k && self.outputs(node@)[o].node@ == #[trigger] connections@[i]@,
                forall|x: u32|
                    #![trigger self.outputs(x)]
                    old_self.has_node(x) ==> self.outputs(x) == old_self.outputs(x),
                forall|x: u32, p: u32|
                    #![trigger old_self.inputs(x).contains_key(p)]
                    old_self.has_node(x) && old_self.inputs(x).contains_key(p) ==> self.inputs(
                        x,
                    ).contains_key(p) && self.inputs(x)[p] == old_self.inputs(x)[p],
                forall|x: u32, p: u32|
                    #![trigger self.inputs(x).contains_key(p)]
                    old_self.has_node(x) && self.inputs(x).contains_key(p) && !old_self.inputs(
                        x,
                    ).contains_key(p) ==> self.inputs(x)[p].node@ == node@,
            decreases connections@.len() - k,
        {
            let ghost before = *self;
            proof {
                assert(self.slots_below(((u32::MAX - connections@.len()) + k + 1) as nat));
                assert(self.slots_below(u32::MAX as nat)) by {
                    assert forall|a: u32| #[trigger] self.nodes@.contains_key(a) implies self.nodes@[a].slots_below(u32::MAX as nat) by {
                        assert(self.nodes@[a].slots_below(((u32::MAX - connections@.len()) + k + 1) as nat));
                    }
                }
            }
            let c = self.connect(node, connections[k]);
            proof {
                let o = c.port@;
                assert(self.outputs(node@).contains_key(o));
                assert forall|i: int| 0 <= i < k + 1 implies self.has_output_to(node@, #[trigger] connections@[i]@) by {
                    if i < k {
                        let o2 = choose|o2: u32| #[trigger]
                            before.outputs(node@).contains_key(o2) && before.outputs(node@)[o2].node@
                            == connections@[i]@;
                        assert(self.outputs(node@).contains_key(o2));
                    } else {
                        assert(self.outputs(node@).contains_key(o));
                    }
                }
                assert forall|bound: nat| old_self.slots_below(bound) implies #[trigger] self.slots_below(
                    (bound + (k + 1) + 1) as nat,
                ) by {
                    assert(before.slots_below((bound + k + 1) as nat));
                }
                let b = connections@[k as int]@;
                assert(node@ != b);
                let q = self.outputs(node@)[o].port@;
                assert(self.inputs(b).contains_key(q) && self.inputs(b)[q] == c);
                assert forall|i: int| 0 <= i < k + 1 implies self.has_input_from(#[trigger] connections@[i]@, node@) by {
                    let x = connections@[i]@;
                    if i < k {
                        let p2 = choose|p2: u32| #[trigger] before.inputs(x).contains_key(p2) && before.inputs(x)[p2].node@ == node@;
                        if x != b {
                            assert(self@[x] == before@[x]);
                        }
                        assert(self.inputs(x).contains_key(p2));
                    } else {
                        assert(self.inputs(x).contains_key(q));
                    }
                }
                assert forall|o2: u32| #[trigger] self.outputs(node@).contains_key(o2) implies exists|i: int|
                    0 <= i < k + 1 && self.outputs(node@)[o2].node@ == #[trigger] connections@[i]@ by {
                    if o2 == o {
                        assert(self.outputs(node@)[o2].node@ == connections@[k as int]@);
                    } else {
                        assert(before.outputs(node@).contains_key(o2));
                        let i = choose|i: int| 0 <= i < k && before.outputs(node@)[o2].node@ == #[trigger] connections@[i]@;
                        assert(self.outputs(node@)[o2].node@ == connections@[i]@);
                    }
                }
                assert(self.inputs(node@) == before.inputs(node@));
                assert forall|x: u32| old_self.has_node(x) implies #[trigger] self.outputs(x)
                    == old_self.outputs(x) by {
                    assert(x != node@);
                    if x != b {
                        assert(self@[x] == before@[x]);
                    }
                    assert(before.outputs(x) == old_self.outputs(x));
                }
                assert forall|x: u32, p: u32|
                    old_self.has_node(x) && #[trigger] old_self.inputs(x).contains_key(p) implies self.inputs(
                    x,
                ).contains_key(p) && self.inputs(x)[p] == old_self.inputs(x)[p] by {
                    assert(x != node@);
                    assert(before.inputs(x).contains_key(p));
                    if x != b {
                        assert(self@[x] == before@[x]);
                    }
                }
                assert forall|x: u32, p: u32|
                    old_self.has_node(x) && #[trigger] self.inputs(x).contains_key(p) && !old_self.inputs(
                        x,
                    ).contains_key(p) implies self.inputs(x)[p].node@ == node@ by {
                    assert(x != node@);
                    if x != b {
                        assert(self@[x] == before@[x]);
                        assert(before.inputs(x).contains_key(p));
                    } else {
                        if before.inputs(x).contains_key(p) {
                        } else {
                            assert(self.inputs(b)[p] == c);
                        }
                    }
                }
            }
            k = k + 1;
        }
        node
    }

    /// Adds an edge from `a` to `b` and returns its output end: `a` and the edge's
    /// slot among the outputs of `a`. The new output names `b` and the edge's slot
    /// among the inputs of `b`, whose new input is the returned connection.
    pub fn connect(&mut self, a: NodeId, b: NodeId) -> (r: Connection)
        requires
            old(self).wf(),
            old(self).slots_below(u32::MAX as nat),
            old(self).has_node(a@),
            old(self).has_node(b@),
        ensures
            final(self).wf(),
            r.node@ == a@,
            !old(self).outputs(a@).contains_key(r.port@),
            final(self).outputs(a@).contains_key(r.port@),
            final(self).outputs(a@)[r.port@].node@ == b@,
            !old(self).inputs(b@).contains_key(final(self).outputs(a@)[r.port@].port@),
            final(self).outputs(a@) == old(self).outputs(a@).insert(
                r.port@,
                final(self).outputs(a@)[r.port@],
            ),
            final(self).inputs(b@) == old(self).inputs(b@).insert(
                final(self).outputs(a@)[r.port@].port@,
                r,
            ),
            a@ != b@ ==> final(self).inputs(a@) == old(self).inputs(a@),
            a@ != b@ ==> final(self).outputs(b@) == old(self).outputs(b@),
            final(self)@.dom() == old(self)@.dom(),
            forall|x: u32| #[trigger] old(self).has_node(x) ==> final(self).value(x) == old(self).value(x),
            forall|x: u32|
                #![trigger final(self)@[x]]
                old(self).has_node(x) && x != a@ && x != b@ ==> final(self)@[x] == old(self)@[x],
            forall|bound: nat| #[trigger] old(self).slots_below(bound) ==> final(self).slots_below(
                bound + 1,
            ),
            final(self).node_count() == old(self).node_count(),
    {
        let ghost old_self = *self;
        let sa = a.slot_id();
        let sb = b.slot_id();
        let node_a = self.nodes.get_mut(sa);
        let a_connection_slot = node_a.outputs.insert(Connection::new(sb, SlotId::from_raw(0)));
        let a_connection = Connection::new(sa, a_connection_slot);
        let ghost after_a = *self;
        proof {
            assert(self.nodes@.contains_key(b@));
            assert(self.nodes@[b@].wf());
            assert(old_self.nodes@[b@].slots_below(u32::MAX as nat));
        }
        let node_b = self.nodes.get_mut(sb);
        let b_connection_slot = node_b.inputs.insert(a_connection);
        let ghost after_b = *self;
        let node_a = self.nodes.get_mut(sa);
        let out = node_a.outputs.get_mut(a_connection_slot);
        out.port = b_connection_slot;
        proof {
            let o = a_connection_slot@;
            let p = b_connection_slot@;
            let c2 = Connection { node: sb, port: b_connection_slot };
            assert(self.outputs(a@) =~= old_self.outputs(a@).insert(o, c2));
            assert(self.inputs(b@) =~= old_self.inputs(b@).insert(p, a_connection));
            assert(self@.dom() =~= old_self@.dom());
            assert forall|x: u32| #[trigger] self.nodes@.contains_key(x) implies self.nodes@[x].wf() by {
                assert(old_self.nodes@.contains_key(x));
            }
            assert forall|x: u32, k: u32| #[trigger] old_self.outputs(x).contains_key(k) && old_self.has_node(x) implies
                self.outputs(x).contains_key(k) && self.outputs(x)[k] == old_self.outputs(x)[k] by {
                if x == a@ {
                    assert(k != o);
                }
            }
            assert forall|x: u32, k: u32| #[trigger] old_self.inputs(x).contains_key(k) && old_self.has_node(x) implies
                self.inputs(x).contains_key(k) && self.inputs(x)[k] == old_self.inputs(x)[k] by {
                if x == b@ {
                    assert(k != p);
                }
            }
            assert(self.links_agree()) by {
                assert forall|x: u32, k: u32|
                    #![trigger self.outputs(x).contains_key(k)]
                    self.has_node(x) && self.outputs(x).contains_key(k) implies {
                        let c = self.outputs(x)[k];
                        &&& self.has_node(c.node@)
                        &&& self.inputs(c.node@).contains_key(c.port@)
                        &&& link(self.inputs(c.node@)[c.port@]) == (x, k)
                    } by {
                    if x == a@ && k == o {
                    } else {
                        assert(old_self.outputs(x).contains_key(k));
                        let c = old_self.outputs(x)[k];
                        assert(old_self.inputs(c.node@).contains_key(c.port@));
                    }
                }
                assert forall|x: u32, k: u32|
                    #![trigger self.inputs(x).contains_key(k)]
                    self.has_node(x) && self.inputs(x).contains_key(k) implies {
                        let c = self.inputs(x)[k];
                        &&& self.has_node(c.node@)
                        &&& self.outputs(c.node@).contains_key(c.port@)
                        &&& link(self.outputs(c.node@)[c.port@]) == (x, k)
                    } by {
                    if x == b@ && k == p {
                    } else {
                        assert(old_self.inputs(x).contains_key(k));
                        let c = old_self.inputs(x)[k];
                        assert(old_self.outputs(c.node@).contains_key(c.port@));
                    }
                }
            }
            assert forall|bound: nat| old_self.slots_below(bound) implies #[trigger] self.slots_below(
                bound + 1,
            ) by {
                assert forall|x: u32| #[trigger] self.nodes@.contains_key(x) implies self.nodes@[x].slots_below(bound + 1) by {
                    assert(old_self.nodes@.contains_key(x));
                    assert(old_self.nodes@[x].slots_below(bound));
                }
            }
        }
        a_connection
    }

    /// Removes the edge whose output end is `connection`, at both of its ends.
    pub fn disconnect(&mut self, connection: Connection)
        requires
            old(self).wf(),
            old(self).has_node(connection.node@),
            old(self).outputs(connection.node@).contains_key(connection.port@),
        ensures
            final(self).wf(),
            final(self).outputs(connection.node@) == old(self).outputs(connection.node@).remove(
                connection.port@,
            ),
            final(self).inputs(old(self).outputs(connection.node@)[connection.port@].node@) == old(
                self,
            ).inputs(old(self).outputs(connection.node@)[connection.port@].node@).remove(
                old(self).outputs(connection.node@)[connection.port@].port@,
            ),
            connection.node@ != old(self).outputs(connection.node@)[connection.port@].node@
                ==> final(self).inputs(connection.node@) == old(self).inputs(connection.node@)
                && final(self).outputs(old(self).outputs(connection.node@)[connection.port@].node@)
                == old(self).outputs(old(self).outputs(connection.node@)[connection.port@].node@),
            final(self)@.dom() == old(self)@.dom(),
            forall|x: u32| #[trigger] old(self).has_node(x) ==> final(self).value(x) == old(self).value(x),
            forall|x: u32|
                #![trigger final(self)@[x]]
                old(self).has_node(x) && x != connection.node@ && x != old(self).outputs(
                    connection.node@,
                )[connection.port@].node@ ==> final(self)@[x] == old(self)@[x],
            forall|bound: nat| #[trigger] old(self).slots_below(bound) ==> final(self).slots_below(
                bound,
            ),
            final(self).node_count() == old(self).node_count(),
    {
        let ghost old_self = *self;
        let a = connection.node;
        let b_port = connection.port;
        let b_connection = *self.nodes.get(a).outputs.get(b_port);
        proof {
            assert(old_self.inputs(b_connection.node@).contains_key(b_connection.port@));
            assert(self.nodes@[b_connection.node@].wf());
        }
        let node_b = self.nodes.get_mut(b_connection.node);
        node_b.inputs.remove(b_connection.port);
        let node_a = self.nodes.get_mut(a);
        node_a.outputs.remove(b_port);
        proof {
            let x0 = a@;
            let o = b_port@;
            let y0 = b_connection.node@;
            let p = b_connection.port@;
            assert(self.outputs(x0) =~= old_self.outputs(x0).remove(o));
            assert(self.inputs(y0) =~= old_self.inputs(y0).remove(p));
            assert(self@.dom() =~= old_self@.dom());
            assert forall|x: u32| #[trigger] self.nodes@.contains_key(x) implies self.nodes@[x].wf() by {
                assert(old_self.nodes@.contains_key(x));
            }
            assert(self.links_agree()) by {
                assert forall|x: u32, k: u32|
                    #![trigger self.outputs(x).contains_key(k)]
                    self.has_node(x) && self.outputs(x).contains_key(k) implies {
                        let c = self.outputs(x)[k];
                        &&& self.has_node(c.node@)
                        &&& self.inputs(c.node@).contains_key(c.port@)
                        &&& link(self.inputs(c.node@)[c.port@]) == (x, k)
                    } by {
                    assert(old_self.outputs(x).contains_key(k));
                    assert(self.outputs(x)[k] == old_self.outputs(x)[k]);
                    let c = old_self.outputs(x)[k];
                    assert(old_self.inputs(c.node@).contains_key(c.port@));
                    if c.node@ == y0 && c.port@ == p {
                        assert(link(old_self.inputs(y0)[p]) == (x0, o));
                    }
                }
                assert forall|x: u32, k: u32|
                    #![trigger self.inputs(x).contains_key(k)]
                    self.has_node(x) && self.inputs(x).contains_key(k) implies {
                        let c = self.inputs(x)[k];
                        &&& self.has_node(c.node@)
                        &&& self.outputs(c.node@).contains_key(c.port@)
                        &&& link(self.outputs(c.node@)[c.port@]) == (x, k)
                    } by {
                    assert(old_self.inputs(x).contains_key(k));
                    assert(self.inputs(x)[k] == old_self.inputs(x)[k]);
                    let c = old_self.inputs(x)[k];
                    assert(old_self.outputs(c.node@).contains_key(c.port@));
                    if c.node@ == x0 && c.port@ == o {
                        assert(link(old_self.outputs(x0)[o]) == (x, k));
                    }
                }
            }
            assert forall|bound: nat| old_self.slots_below(bound) implies #[trigger] self.slots_below(
                bound,
            ) by {
                assert forall|x: u32| #[trigger] self.nodes@.contains_key(x) implies self.nodes@[x].slots_below(bound) by {
                    assert(old_self.nodes@.contains_key(x));
                    assert(old_self.nodes@[x].slots_below(bound));
                }
            }
        }
    }

    /// Connects `a` to `b` and `b` to `a`; returns the output ends of both edges.
    pub fn two_way_connect(&mut self, a: NodeId, b: NodeId) -> (r: (Connection, Connection))
        requires
            old(self).wf(),
            old(self).slots_below((u32::MAX - 1) as nat),
            old(self).has_node(a@),
            old(self).has_node(b@),
        ensures
            final(self).wf(),
            r.0.node@ == a@,
            r.1.node@ == b@,
            final(self).outputs(a@).contains_key(r.0.port@),
            final(self).outputs(a@)[r.0.port@].node@ == b@,
            final(self).outputs(b@).contains_key(r.1.port@),
            final(self).outputs(b@)[r.1.port@].node@ == a@,
            final(self)@.dom() == old(self)@.dom(),
            forall|x: u32| #[trigger] old(self).has_node(x) ==> final(self).value(x) == old(self).value(x),
            forall|bound: nat| #[trigger] old(self).slots_below(bound) ==> final(self).slots_below(
                bound + 2,
            ),
            final(self).node_count() == old(self).node_count(),
    {
        let ghost old_self = *self;
        let first = self.connect(a, b);
        let ghost mid = *self;
        proof {
            assert(self.slots_below((u32::MAX - 1) as nat + 1));
        }
        let second = self.connect(b, a);
        proof {
            if a@ == b@ {
                assert(self.outputs(a@).contains_key(first.port@));
            }
            assert forall|bound: nat| old_self.slots_below(bound) implies #[trigger] self.slots_below(
                bound + 2,
            ) by {
                assert(mid.slots_below(bound + 1));
                assert(self.slots_below(bound + 1 + 1));
            }
        }
        (first, second)
    }

    /// Whether `a` has an edge to `b`, or, when `check_inputs` is set, an edge from `b`.
    pub fn check_connected(&mut self, a: NodeId, b: NodeId, check_inputs: bool) -> (r: bool)
        requires
            old(self).wf(),
            old(self).has_node(a@),
        ensures
            *final(self) == *old(self),
            r == (old(self).has_output_to(a@, b@) || (check_inputs && old(self).has_input_from(a@, b@))),
    {
        let node = self.nodes.get(a.slot_id());
        let outputs = node.outputs.iter();
        proof {
            node.outputs.lemma_order();
        }
        let target = b.0;
        let mut i: usize = 0;
        while i < outputs.len()
            invariant
                i <= outputs@.len(),
                node.outputs.wf(),
                node.outputs.order().no_duplicates(),
                node.outputs.order().to_set() == node.outputs@.dom(),
                outputs@.len() == node.outputs.spec_len(),
                node.outputs.order().len() == node.outputs.spec_len(),
                forall|p: int| 0 <= p < outputs@.len() ==> *outputs@[p] == node.outputs@[#[trigger] node.outputs.order()[p]],
                forall|p: int| 0 <= p < i ==> outputs@[p].node@ != target,
                self.nodes@.contains_key(a@),
                *node == self.nodes@[a@],
                target == b@,
            decreases outputs@.len() - i,
        {
            if outputs[i].node.raw() == target {
                proof {
                    let o = node.outputs.order()[i as int];
                    assert(node.outputs.order().to_set().contains(o));
                    assert(self.outputs(a@).contains_key(o));
                    assert(self.outputs(a@)[o].node@ == b@);
                }
                return true;
            }
            i = i + 1;
        }
        proof {
            assert forall|o: u32| #[trigger] node.outputs@.contains_key(o) implies node.outputs@[o].node@ != b@ by {
                assert(node.outputs.order().to_set().contains(o));
                let p = choose|p: int| 0 <= p < node.outputs.order().len() && node.outputs.order()[p] == o;
                assert(*outputs@[p] == node.outputs@[o]);
            }
        }
        if !check_inputs {
            return false;
        }
        let inputs = node.inputs.iter();
        proof {
            node.inputs.lemma_order();
        }
        let mut j: usize = 0;
        while j < inputs.len()
            invariant
                j <= inputs@.len(),
                node.inputs.wf(),
                node.inputs.order().no_duplicates(),
                node.inputs.order().to_set() == node.inputs@.dom(),
                inputs@.len() == node.inputs.spec_len(),
                node.inputs.order().len() == node.inputs.spec_len(),
                forall|p: int| 0 <= p < inputs@.len() ==> *inputs@[p] == node.inputs@[#[trigger] node.inputs.order()[p]],
                forall|p: int| 0 <= p < j ==> inputs@[p].node@ != target,
                check_inputs,
                self.nodes@.contains_key(a@),
                *node == self.nodes@[a@],
                target == b@,
            decreases inputs@.len() - j,
        {
            if inputs[j].node.raw() == target {
                proof {
                    let k = node.inputs.order()[j as int];
                    assert(node.inputs.order().to_set().contains(k));
                    assert(self.inputs(a@).contains_key(k));
                    assert(self.inputs(a@)[k].node@ == b@);
                }
                return true;
            }
            j = j + 1;
        }
        proof {
            assert forall|k: u32| #[trigger] node.inputs@.contains_key(k) implies node.inputs@[k].node@ != b@ by {
                assert(node.inputs.order().to_set().contains(k));
                let p = choose|p: int| 0 <= p < node.inputs.order().len() && node.inputs.order()[p] == k;
                assert(*inputs@[p] == node.inputs@[k]);
            }
        }
        false
    }
}

impl<T> std::ops::Deref for Node<T> {
    type Target = T;

    /// The value of the node.
    fn deref(&self) -> (r: &T)
        ensures
            *r == self.spec_value(),
    {
        &self.value
    }
}

impl<T> std::ops::DerefMut for Node<T> {
    /// The value of the node, to change in place; the edges stay as they are.
    fn deref_mut(&mut self) -> (r: &mut T)
        ensures
            *r == old(self).spec_value(),
            final(self).spec_value() == *final(r),
            final(self).outputs_view() == old(self).outputs_view(),
            final(self).inputs_view() == old(self).inputs_view(),
    {
        &mut self.value
    }
}

} // verus!
