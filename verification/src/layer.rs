//! Render layers: drawn by level, opaque before transparent on the same level.
use vstd::prelude::*;
use vstd::std_specs::cmp::PartialOrdSpecImpl;
use std::cmp::Ordering;

verus! {

/// A render layer with its level.
#[derive(Debug, Clone, Copy, PartialEq, Eq, Structural, Hash)]
pub enum Layer {
    Opaque(u16),
    Transparent(u16),
}

impl Layer {
    /// The level of the layer.
    pub open spec fn spec_level(self) -> u16 {
        match self {
            Layer::Opaque(level) => level,
            Layer::Transparent(level) => level,
        }
    }

    /// The level of the layer.
    pub fn level(self) -> (r: u16)
        ensures
            r == self.spec_level(),
    {
        match self {
            Layer::Opaque(level) => level,
            Layer::Transparent(level) => level,
        }
    }
}

/// Whether `a` is drawn no later than `b`: a lower level first, and on the same
/// level opaque before transparent.
pub open spec fn layer_le(a: Layer, b: Layer) -> bool {
    a.spec_level() < b.spec_level() || (a.spec_level() == b.spec_level() && (a is Opaque
        || b is Transparent))
}

/// The order of two layers.
pub open spec fn layer_order(a: Layer, b: Layer) -> Ordering {
    if a == b {
        Ordering::Equal
    } else if layer_le(a, b) {
        Ordering::Less
    } else {
        Ordering::Greater
    }
}

/// Whether `a` is drawn no later than `b`.
pub fn precedes(a: Layer, b: Layer) -> (r: bool)
    ensures
        r == layer_le(a, b),
{
    let la = a.level();
    let lb = b.level();
    if la < lb {
        true
    } else if la == lb {
        match (a, b) {
            (Layer::Opaque(_), _) => true,
            (_, Layer::Transparent(_)) => true,
            _ => false,
        }
    } else {
        false
    }
}

impl PartialOrd for Layer {
    fn partial_cmp(&self, other: &Layer) -> (r: Option<Ordering>) {
        if *self == *other {
            Some(Ordering::Equal)
        } else if precedes(*self, *other) {
            Some(Ordering::Less)
        } else {
            Some(Ordering::Greater)
        }
    }
}

impl PartialOrdSpecImpl for Layer {
    open spec fn obeys_partial_cmp_spec() -> bool {
        true
    }

    open spec fn partial_cmp_spec(&self, other: &Layer) -> Option<Ordering> {
        Some(layer_order(*self, *other))
    }
}

/// The drawing order is a total order.
pub proof fn lemma_layer_order_total(a: Layer, b: Layer, c: Layer)
    ensures
        layer_le(a, a),
        layer_le(a, b) || layer_le(b, a),
        layer_le(a, b) && layer_le(b, a) ==> a == b,
        layer_le(a, b) && layer_le(b, c) ==> layer_le(a, c),
{
}

/// Whether the layers are in drawing order.
pub open spec fn layers_sorted(layers: Seq<Layer>) -> bool {
    forall|i: int, j: int| 0 <= i < j < layers.len() ==> layer_le(layers[i], layers[j])
}

proof fn lemma_insert_to_multiset(s: Seq<Layer>, i: int, x: Layer)
    requires
        0 <= i <= s.len(),
    ensures
        s.insert(i, x).to_multiset() =~= s.to_multiset().insert(x),
{
    broadcast use vstd::seq_lib::group_to_multiset_ensures;

    let t = s.insert(i, x);
    assert(t.remove(i) =~= s);
    assert(t[i] == x);
    assert(t.contains(x));
    assert(t.to_multiset().count(x) > 0);
    assert(s.to_multiset() =~= t.to_multiset().remove(x));
}

/// Sorts layers into drawing order.
pub fn sort_layers(layers: &mut Vec<Layer>)
    ensures
        layers_sorted(final(layers)@),
        final(layers)@.to_multiset() == old(layers)@.to_multiset(),
{
    let mut out: Vec<Layer> = Vec::with_capacity(layers.len());
    let mut k: usize = 0;
    proof {
        assert(layers@.take(0) =~= out@);
    }
    while k < layers.len()
        invariant
            k <= layers@.len(),
            layers@ == old(layers)@,
            layers_sorted(out@),
            out@.to_multiset() == layers@.take(k as int).to_multiset(),
        decreases layers@.len() - k,
    {
        let x = layers[k];
        let mut p: usize = 0;
        while p < out.len() && precedes(out[p], x)
            invariant
                p <= out@.len(),
                forall|q: int| 0 <= q < p ==> layer_le(#[trigger] out@[q], x),
            decreases out@.len() - p,
        {
            p = p + 1;
        }
        proof {
            let s = out@;
            let t = s.insert(p as int, x);
            if p < s.len() {
                lemma_layer_order_total(s[p as int], x, x);
                assert(layer_le(x, s[p as int]));
            }
            assert forall|i: int, j: int| 0 <= i < j < t.len() implies layer_le(t[i], t[j]) by {
                if j < p {
                    assert(t[i] == s[i] && t[j] == s[j]);
                } else if j == p {
                    assert(t[i] == s[i] && t[j] == x);
                } else if i < p {
                    assert(t[i] == s[i] && t[j] == s[j - 1]);
                } else if i == p {
                    assert(t[i] == x && t[j] == s[j - 1]);
                    if p < j - 1 {
                        assert(layer_le(s[p as int], s[j - 1]));
                    }
                    lemma_layer_order_total(x, s[p as int], s[j - 1]);
                } else {
                    assert(t[i] == s[i - 1] && t[j] == s[j - 1]);
                }
            }
            lemma_insert_to_multiset(s, p as int, x);
            assert(layers@.take(k as int + 1) =~= layers@.take(k as int).push(x));
            broadcast use vstd::seq_lib::group_to_multiset_ensures;
        }
        out.insert(p, x);
        k = k + 1;
    }
    proof {
        assert(layers@.take(layers@.len() as int) =~= layers@);
    }
    *layers = out;
}

} // verus!
