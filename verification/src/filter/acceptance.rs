//! Which wirings the graph builder accepts, stated without the order in
//! which it looks for mistakes.

use vstd::prelude::*;

use crate::filter::endpoint_media;
use crate::filter::valid_label;
use crate::filter::graph::{
    consumed, declared_before, first_fault, in_label, input_fault, input_labels, input_use_fault, label_fault,
    labels_of, node_fault, node_label_use_fault, node_media, node_own_fault, node_use_fault,
    occurrences, out_label, output_fault, producer_media, wire_fault, wire_label_fault, wire_media,
    wire_own_fault, wires_of, FilterGraphBuilder, PadCounts,
};

verus! {

/// Position `r` of `s` holds a well-formed label that does not occur before it.
pub open spec fn fresh_at(s: Seq<Seq<char>>, r: int) -> bool {
    valid_label(s[r]) && !s.subrange(0, r).contains(s[r])
}

/// Position `r` of `t` holds a well-formed label occurring neither in `s`
/// nor before it in `t`.
pub open spec fn fresh_after(s: Seq<Seq<char>>, t: Seq<Seq<char>>, r: int) -> bool {
    valid_label(t[r]) && !(s + t.subrange(0, r)).contains(t[r])
}

/// Every position `r < n` of `s` holds a well-formed label that does not
/// occur before it.
pub open spec fn fresh_upto(s: Seq<Seq<char>>, n: int) -> bool {
    forall|r: int| 0 <= r < n ==> #[trigger] fresh_at(s, r)
}

/// All labels the graph declares: its inputs, then every node's outputs.
pub open spec fn all_labels(b: FilterGraphBuilder) -> Seq<Seq<char>> {
    declared_before(b, b.nodes@.len() as int)
}

/// The pad counts of a filter agree with a node wired with `wired` input
/// labels and given `labels` output labels.
pub open spec fn pads_fit(p: PadCounts, wired: nat, labels: nat) -> bool {
    &&& (p.dynamic_outputs || p.outputs == labels)
    &&& (p.dynamic_inputs || p.inputs == wired)
}

/// Node `i`'s filter is present and its pad counts agree with the node's wiring.
pub open spec fn node_pads_ok(b: FilterGraphBuilder, pads: Seq<Option<PadCounts>>, i: int) -> bool {
    match pads[i] {
        Some(p) => pads_fit(p, wires_of(b, i).len(), labels_of(b, i).len()),
        None => false,
    }
}

/// A sound wiring:
/// - at least one graph input, one node and one graph output;
/// - every label (graph inputs and node outputs together) well formed and
///   declared once;
/// - every node's filter present in the build, with as many input pads as
///   labels wired into it and as many output pads as output labels, unless
///   the filter takes as many as it is given;
/// - every node fed only from labels declared before it (graph inputs or
///   outputs of earlier nodes) that carry the node's media kind;
/// - every graph output taken from a node output of its media kind;
/// - every label consumed exactly once, by a node input or a graph output.
pub open spec fn well_wired(b: FilterGraphBuilder, pads: Seq<Option<PadCounts>>) -> bool {
    &&& b.inputs@.len() > 0
    &&& b.nodes@.len() > 0
    &&& b.outputs@.len() > 0
    &&& forall|x: int| 0 <= x < all_labels(b).len() ==> #[trigger] valid_label(all_labels(b)[x])
    &&& all_labels(b).no_duplicates()
    &&& forall|i: int| 0 <= i < b.nodes@.len() ==> #[trigger] node_pads_ok(b, pads, i)
    &&& forall|i: int, m: int| 0 <= i < b.nodes@.len() && 0 <= m < wires_of(b, i).len() ==>
        wire_media(b, i, #[trigger] wires_of(b, i)[m]) == Some(node_media(b, i))
    &&& forall|k: int| 0 <= k < b.outputs@.len() ==>
        producer_media(b, #[trigger] out_label(b, k)) == Some(endpoint_media(b.outputs@[k].1))
    &&& forall|x: int| 0 <= x < all_labels(b).len() ==> occurrences(consumed(b), #[trigger] all_labels(b)[x]) == 1
}

pub proof fn lemma_input_fault_none(b: FilterGraphBuilder, j: int)
    requires
        0 <= j <= b.inputs@.len(),
    ensures
        input_fault(b, j) is None <==> forall|q: int| j <= q < b.inputs@.len() ==> #[trigger] fresh_at(input_labels(b), q),
    decreases b.inputs@.len() - j,
{
    if j < b.inputs@.len() {
        lemma_input_fault_none(b, j + 1);
        assert(input_labels(b)[j] == in_label(b, j));
        assert(fresh_at(input_labels(b), j) == (valid_label(in_label(b, j))
            && !input_labels(b).subrange(0, j).contains(in_label(b, j))));
    }
}

pub proof fn lemma_label_fault_none(b: FilterGraphBuilder, i: int, m: int)
    requires
        0 <= i < b.nodes@.len(),
        0 <= m <= labels_of(b, i).len(),
    ensures
        label_fault(b, i, m) is None <==> forall|r: int| m <= r < labels_of(b, i).len() ==>
            #[trigger] fresh_after(declared_before(b, i), labels_of(b, i), r),
    decreases labels_of(b, i).len() - m,
{
    if m < labels_of(b, i).len() {
        lemma_label_fault_none(b, i, m + 1);
        assert(fresh_after(declared_before(b, i), labels_of(b, i), m) == (valid_label(labels_of(b, i)[m])
            && !(declared_before(b, i) + labels_of(b, i).subrange(0, m)).contains(labels_of(b, i)[m])));
    }
}

pub proof fn lemma_node_fault_none(b: FilterGraphBuilder, pads: Seq<Option<PadCounts>>, i: int)
    requires
        0 <= i <= b.nodes@.len(),
    ensures
        node_fault(b, pads, i) is None <==> forall|q: int| i <= q < b.nodes@.len() ==> #[trigger] node_own_fault(b, pads, q) is None,
    decreases b.nodes@.len() - i,
{
    if i < b.nodes@.len() {
        lemma_node_fault_none(b, pads, i + 1);
    }
}

pub proof fn lemma_wire_label_fault_none(b: FilterGraphBuilder, i: int, m: int)
    requires
        0 <= i < b.nodes@.len(),
        0 <= m <= wires_of(b, i).len(),
    ensures
        wire_label_fault(b, i, m) is None <==> forall|r: int| m <= r < wires_of(b, i).len() ==>
            wire_media(b, i, #[trigger] wires_of(b, i)[r]) == Some(node_media(b, i)),
    decreases wires_of(b, i).len() - m,
{
    if m < wires_of(b, i).len() {
        lemma_wire_label_fault_none(b, i, m + 1);
    }
}

pub proof fn lemma_wire_fault_none(b: FilterGraphBuilder, pads: Seq<Option<PadCounts>>, i: int)
    requires
        0 <= i <= b.nodes@.len(),
    ensures
        wire_fault(b, pads, i) is None <==> forall|q: int| i <= q < b.nodes@.len() ==> #[trigger] wire_own_fault(b, pads, q) is None,
    decreases b.nodes@.len() - i,
{
    if i < b.nodes@.len() {
        lemma_wire_fault_none(b, pads, i + 1);
    }
}

pub proof fn lemma_output_fault_none(b: FilterGraphBuilder, k: int)
    requires
        0 <= k <= b.outputs@.len(),
    ensures
        output_fault(b, k) is None <==> forall|q: int| k <= q < b.outputs@.len() ==>
            producer_media(b, #[trigger] out_label(b, q)) == Some(endpoint_media(b.outputs@[q].1)),
    decreases b.outputs@.len() - k,
{
    if k < b.outputs@.len() {
        lemma_output_fault_none(b, k + 1);
    }
}

pub proof fn lemma_input_use_fault_none(b: FilterGraphBuilder, j: int)
    requires
        0 <= j <= b.inputs@.len(),
    ensures
        input_use_fault(b, j) is None <==> forall|q: int| j <= q < b.inputs@.len() ==>
            occurrences(consumed(b), #[trigger] input_labels(b)[q]) == 1,
    decreases b.inputs@.len() - j,
{
    if j < b.inputs@.len() {
        lemma_input_use_fault_none(b, j + 1);
        assert(input_labels(b)[j] == in_label(b, j));
    }
}

pub proof fn lemma_node_label_use_fault_none(b: FilterGraphBuilder, i: int, m: int)
    requires
        0 <= i < b.nodes@.len(),
        0 <= m <= labels_of(b, i).len(),
    ensures
        node_label_use_fault(b, i, m) is None <==> forall|r: int| m <= r < labels_of(b, i).len() ==>
            occurrences(consumed(b), #[trigger] labels_of(b, i)[r]) == 1,
    decreases labels_of(b, i).len() - m,
{
    if m < labels_of(b, i).len() {
        lemma_node_label_use_fault_none(b, i, m + 1);
    }
}

pub proof fn lemma_node_use_fault_none(b: FilterGraphBuilder, i: int)
    requires
        0 <= i <= b.nodes@.len(),
    ensures
        node_use_fault(b, i) is None <==> forall|q: int| i <= q < b.nodes@.len() ==> #[trigger] node_label_use_fault(b, q, 0) is None,
    decreases b.nodes@.len() - i,
{
    if i < b.nodes@.len() {
        lemma_node_use_fault_none(b, i + 1);
    }
}

/// Freshness of a concatenation: the first part, then each element of the
/// second part against everything before it.
proof fn lemma_fresh_append(s: Seq<Seq<char>>, t: Seq<Seq<char>>)
    ensures
        fresh_upto(s + t, (s + t).len() as int) <==> fresh_upto(s, s.len() as int)
            && forall|r: int| 0 <= r < t.len() ==> #[trigger] fresh_after(s, t, r),
{
    let st = s + t;
    if fresh_upto(st, st.len() as int) {
        assert forall|r: int| 0 <= r < s.len() implies #[trigger] fresh_at(s, r) by {
            assert(fresh_at(st, r));
            assert(st[r] == s[r]);
            assert(st.subrange(0, r) =~= s.subrange(0, r));
        }
        assert forall|r: int| 0 <= r < t.len() implies #[trigger] fresh_after(s, t, r) by {
            let x = s.len() + r;
            assert(fresh_at(st, x));
            assert(st[x] == t[r]);
            assert(st.subrange(0, x) =~= s + t.subrange(0, r));
        }
    }
    if fresh_upto(s, s.len() as int) && forall|r: int| 0 <= r < t.len() ==> #[trigger] fresh_after(s, t, r) {
        assert forall|x: int| 0 <= x < st.len() implies #[trigger] fresh_at(st, x) by {
            if x < s.len() {
                assert(fresh_at(s, x));
                assert(st[x] == s[x]);
                assert(st.subrange(0, x) =~= s.subrange(0, x));
            } else {
                let r = x - s.len();
                assert(fresh_after(s, t, r));
                assert(st[x] == t[r]);
                assert(st.subrange(0, x) =~= s + t.subrange(0, r));
            }
        }
    }
}

/// A sequence whose every element is fresh has no repeated element, and back.
pub proof fn lemma_fresh_no_duplicates(s: Seq<Seq<char>>)
    ensures
        fresh_upto(s, s.len() as int) <==> (forall|x: int| 0 <= x < s.len() ==> #[trigger] valid_label(s[x])) && s.no_duplicates(),
{
    if fresh_upto(s, s.len() as int) {
        assert forall|x: int| 0 <= x < s.len() implies #[trigger] valid_label(s[x]) by {
            assert(fresh_at(s, x));
        }
        assert forall|x: int, y: int| 0 <= x < s.len() && 0 <= y < s.len() && x != y implies s[x] != s[y] by {
            if x < y {
                assert(fresh_at(s, y));
                assert(s.subrange(0, y)[x] == s[x]);
            } else {
                assert(fresh_at(s, x));
                assert(s.subrange(0, x)[y] == s[y]);
            }
        }
    }
    if (forall|x: int| 0 <= x < s.len() ==> #[trigger] valid_label(s[x])) && s.no_duplicates() {
        assert forall|r: int| 0 <= r < s.len() implies #[trigger] fresh_at(s, r) by {
            assert(valid_label(s[r]));
            if s.subrange(0, r).contains(s[r]) {
                let x = choose|x: int| 0 <= x < s.subrange(0, r).len() && s.subrange(0, r)[x] == s[r];
                assert(s[x] == s[r]);
            }
        }
    }
}

/// The label checks of the inputs and of nodes `0..i` together say that
/// the labels declared before node `i` are well formed and fresh.
proof fn lemma_declared_fresh(b: FilterGraphBuilder, i: int)
    requires
        0 <= i <= b.nodes@.len(),
    ensures
        fresh_upto(declared_before(b, i), declared_before(b, i).len() as int) <==>
            fresh_upto(input_labels(b), input_labels(b).len() as int)
            && forall|q: int| 0 <= q < i ==> #[trigger] label_fault(b, q, 0) is None,
    decreases i,
{
    if i == 0 {
        assert(declared_before(b, 0) =~= input_labels(b));
    } else {
        lemma_declared_fresh(b, i - 1);
        let s = declared_before(b, i - 1);
        let t = labels_of(b, i - 1);
        assert(declared_before(b, i) =~= s + t);
        lemma_fresh_append(s, t);
        lemma_label_fault_none(b, i - 1, 0);
        if fresh_upto(declared_before(b, i), declared_before(b, i).len() as int) {
            assert forall|q: int| 0 <= q < i implies #[trigger] label_fault(b, q, 0) is None by {
                if q == i - 1 {
                    assert forall|r: int| 0 <= r < t.len() implies #[trigger] fresh_after(declared_before(b, q), t, r) by {
                        assert(fresh_after(s, t, r));
                    }
                }
            }
        }
        if fresh_upto(input_labels(b), input_labels(b).len() as int) && forall|q: int| 0 <= q < i ==> #[trigger] label_fault(b, q, 0) is None {
            assert(label_fault(b, i - 1, 0) is None);
            assert forall|r: int| 0 <= r < t.len() implies #[trigger] fresh_after(s, t, r) by {
                assert(fresh_after(declared_before(b, i - 1), t, r));
            }
        }
    }
}

/// "Every element satisfies `p`" over a concatenation splits over the parts.
proof fn lemma_all_append(s: Seq<Seq<char>>, t: Seq<Seq<char>>, p: spec_fn(Seq<char>) -> bool)
    ensures
        (forall|x: int| 0 <= x < (s + t).len() ==> p(#[trigger] (s + t)[x])) <==>
            (forall|x: int| 0 <= x < s.len() ==> p(#[trigger] s[x])) && (forall|x: int| 0 <= x < t.len() ==> p(#[trigger] t[x])),
{
    let st = s + t;
    if forall|x: int| 0 <= x < st.len() ==> p(#[trigger] st[x]) {
        assert forall|x: int| 0 <= x < s.len() implies p(#[trigger] s[x]) by {
            assert(st[x] == s[x]);
        }
        assert forall|x: int| 0 <= x < t.len() implies p(#[trigger] t[x]) by {
            assert(st[s.len() + x] == t[x]);
        }
    }
    if (forall|x: int| 0 <= x < s.len() ==> p(#[trigger] s[x])) && (forall|x: int| 0 <= x < t.len() ==> p(#[trigger] t[x])) {
        assert forall|x: int| 0 <= x < st.len() implies p(#[trigger] st[x]) by {
            if x < s.len() {
                assert(st[x] == s[x]);
            } else {
                assert(st[x] == t[x - s.len()]);
            }
        }
    }
}

/// Labels declared before node `i` are each consumed once exactly when the
/// inputs are and the outputs of every node before `i` are.
proof fn lemma_declared_used_once(b: FilterGraphBuilder, i: int)
    requires
        0 <= i <= b.nodes@.len(),
    ensures
        (forall|x: int| 0 <= x < declared_before(b, i).len() ==> #[trigger] occurrences(consumed(b), declared_before(b, i)[x]) == 1) <==>
            (forall|x: int| 0 <= x < input_labels(b).len() ==> #[trigger] occurrences(consumed(b), input_labels(b)[x]) == 1)
            && forall|q: int| 0 <= q < i ==> #[trigger] node_label_use_fault(b, q, 0) is None,
    decreases i,
{
    let once = |l: Seq<char>| occurrences(consumed(b), l) == 1;
    if i == 0 {
        assert(declared_before(b, 0) =~= input_labels(b));
    } else {
        lemma_declared_used_once(b, i - 1);
        let s = declared_before(b, i - 1);
        let t = labels_of(b, i - 1);
        assert(declared_before(b, i) =~= s + t);
        lemma_all_append(s, t, once);
        lemma_node_label_use_fault_none(b, i - 1, 0);
        assert((forall|x: int| 0 <= x < s.len() ==> once(#[trigger] s[x])) <==>
            (forall|x: int| 0 <= x < s.len() ==> #[trigger] occurrences(consumed(b), s[x]) == 1));
        assert((forall|x: int| 0 <= x < t.len() ==> once(#[trigger] t[x])) <==>
            (forall|x: int| 0 <= x < t.len() ==> #[trigger] occurrences(consumed(b), t[x]) == 1));
        assert((forall|x: int| 0 <= x < (s + t).len() ==> once(#[trigger] (s + t)[x])) <==>
            (forall|x: int| 0 <= x < (s + t).len() ==> #[trigger] occurrences(consumed(b), (s + t)[x]) == 1));
        if forall|x: int| 0 <= x < t.len() ==> #[trigger] occurrences(consumed(b), t[x]) == 1 {
            assert(node_label_use_fault(b, i - 1, 0) is None);
        }
    }
}

/// What the builder accepts: given a pad count per node, planning the graph
/// succeeds exactly for a sound wiring.
pub proof fn law_accepts_exactly_well_wired(b: FilterGraphBuilder, pads: Seq<Option<PadCounts>>)
    requires
        pads.len() == b.nodes@.len(),
    ensures
        first_fault(b, pads) is None <==> well_wired(b, pads),
{
    let n = b.nodes@.len() as int;
    lemma_input_fault_none(b, 0);
    lemma_node_fault_none(b, pads, 0);
    lemma_wire_fault_none(b, pads, 0);
    lemma_output_fault_none(b, 0);
    lemma_input_use_fault_none(b, 0);
    lemma_node_use_fault_none(b, 0);
    lemma_declared_fresh(b, n);
    lemma_fresh_no_duplicates(all_labels(b));
    lemma_declared_used_once(b, n);
    if b.inputs@.len() > 0 && b.nodes@.len() > 0 && b.outputs@.len() > 0 {
        if first_fault(b, pads) is None {
            assert forall|i: int| 0 <= i < n implies #[trigger] node_pads_ok(b, pads, i) by {
                assert(node_own_fault(b, pads, i) is None);
                assert(wire_own_fault(b, pads, i) is None);
            }
            assert forall|i: int, m: int| 0 <= i < n && 0 <= m < wires_of(b, i).len() implies
                wire_media(b, i, #[trigger] wires_of(b, i)[m]) == Some(node_media(b, i)) by {
                assert(wire_own_fault(b, pads, i) is None);
                lemma_wire_label_fault_none(b, i, 0);
            }
            assert forall|q: int| 0 <= q < n implies #[trigger] label_fault(b, q, 0) is None by {
                assert(node_own_fault(b, pads, q) is None);
            }
            assert(fresh_upto(input_labels(b), input_labels(b).len() as int));
        }
        if well_wired(b, pads) {
            assert forall|q: int| 0 <= q < n implies #[trigger] node_own_fault(b, pads, q) is None by {
                assert(label_fault(b, q, 0) is None);
                assert(node_pads_ok(b, pads, q));
            }
            assert forall|q: int| 0 <= q < n implies #[trigger] wire_own_fault(b, pads, q) is None by {
                lemma_wire_label_fault_none(b, q, 0);
                assert(forall|r: int| 0 <= r < wires_of(b, q).len() ==>
                    wire_media(b, q, #[trigger] wires_of(b, q)[r]) == Some(node_media(b, q)));
                assert(node_pads_ok(b, pads, q));
            }
            assert forall|q: int| 0 <= q < b.inputs@.len() implies #[trigger] fresh_at(input_labels(b), q) by {
            }
            assert forall|q: int| 0 <= q < n implies #[trigger] node_label_use_fault(b, q, 0) is None by {}
        }
    }
}

} // verus!
