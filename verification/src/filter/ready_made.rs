//! The ready-made graphs (overlay, stacks, concatenation, mix) always pass
//! the wiring check, given the pad counts FFmpeg reports for their filters.

use vstd::prelude::*;

use crate::filter::acceptance::{
    lemma_input_fault_none, lemma_input_use_fault_none, lemma_label_fault_none, lemma_node_fault_none,
    lemma_node_label_use_fault_none, lemma_node_use_fault_none, lemma_output_fault_none, lemma_wire_fault_none,
    lemma_wire_label_fault_none, pads_fit, fresh_at,
};
use crate::filter::graph::{
    auto_video_inputs, concatenated, mixed, node_is, stacked, video_tail, auto_labels, consumed, declared_before, first_fault, in_label, in_media, input_labels, input_media_of,
    label_fault, labels_of, node_labels_upto, node_media, node_media_of, occurrences, out_label, out_labels,
    wire_media, wires_of, wires_upto, FilterGraphBuilder, PadCounts,
};
use crate::filter::{endpoint_media, label_char, label_seqs, valid_label, AudioEndpoint, VideoEndpoint};
use crate::flags::MediaType;
use crate::text::{digit_char, nat_digits};

verus! {

proof fn lemma_occurrences_append(s: Seq<Seq<char>>, t: Seq<Seq<char>>, l: Seq<char>)
    ensures
        occurrences(s + t, l) == occurrences(s, l) + occurrences(t, l),
    decreases t.len(),
{
    if t.len() == 0 {
        assert(s + t =~= s);
    } else {
        lemma_occurrences_append(s, t.drop_last(), l);
        assert((s + t).drop_last() =~= s + t.drop_last());
        assert((s + t).last() == t.last());
    }
}

proof fn lemma_occurrences_distinct(s: Seq<Seq<char>>, l: Seq<char>)
    requires
        s.no_duplicates(),
    ensures
        occurrences(s, l) == if s.contains(l) { 1nat } else { 0nat },
    decreases s.len(),
{
    if s.len() > 0 {
        let p = s.drop_last();
        assert(p.no_duplicates()) by {
            assert forall|x: int, y: int| 0 <= x < p.len() && 0 <= y < p.len() && x != y implies p[x] != p[y] by {
                assert(p[x] == s[x] && p[y] == s[y]);
            }
        }
        lemma_occurrences_distinct(p, l);
        if s.last() == l {
            if p.contains(l) {
                let x = choose|x: int| 0 <= x < p.len() && p[x] == l;
                assert(s[x] == s[s.len() - 1]);
            }
            assert(s[s.len() - 1] == l);
        } else {
            if s.contains(l) {
                let x = choose|x: int| 0 <= x < s.len() && s[x] == l;
                assert(p[x] == l);
            }
            if p.contains(l) {
                let x = choose|x: int| 0 <= x < p.len() && p[x] == l;
                assert(s[x] == l);
            }
        }
    } else {
        assert(!s.contains(l));
    }
}

proof fn lemma_occurrences_one(x: Seq<char>, l: Seq<char>)
    ensures
        occurrences(seq![x], l) == if x == l { 1nat } else { 0nat },
{
    assert(seq![x].drop_last() =~= Seq::<Seq<char>>::empty());
    assert(occurrences(Seq::<Seq<char>>::empty(), l) == 0);
    assert(seq![x].last() == x);
}

/// With every graph input of kind `m`, a label is looked up among the
/// inputs as `m` when an input has it.
proof fn lemma_input_media_uniform(b: FilterGraphBuilder, w: Seq<char>, j: int, m: crate::flags::MediaType)
    requires
        0 <= j <= b.inputs@.len(),
        forall|k: int| 0 <= k < b.inputs@.len() ==> #[trigger] in_media(b, k) == m,
    ensures
        input_media_of(b, w, j) == if input_labels(b).subrange(j, b.inputs@.len() as int).contains(w) {
            Some(m)
        } else {
            None
        },
    decreases b.inputs@.len() - j,
{
    let n = b.inputs@.len() as int;
    let rest = input_labels(b).subrange(j, n);
    if j < n {
        lemma_input_media_uniform(b, w, j + 1, m);
        let next = input_labels(b).subrange(j + 1, n);
        assert(rest[0] == in_label(b, j));
        assert(in_media(b, j) == m);
        if in_label(b, j) != w {
            if rest.contains(w) {
                let x = choose|x: int| 0 <= x < rest.len() && rest[x] == w;
                assert(next[x - 1] == w);
            }
            if next.contains(w) {
                let x = choose|x: int| 0 <= x < next.len() && next[x] == w;
                assert(rest[x + 1] == w);
            }
        }
    } else {
        assert(rest.len() == 0);
    }
}

/// The shape of every ready-made graph: graph inputs with distinct valid
/// labels, all of the first node's media kind; a first node fed from all of
/// them in order and labelled `x`; possibly a second node continuing the
/// chain, labelled `y`; one graph output at the end of the chain.
pub open spec fn chain_shape(b: FilterGraphBuilder, x: Seq<char>, y: Seq<char>) -> bool {
    let n = b.inputs@.len();
    &&& n >= 1
    &&& b.nodes@.len() == 1 || b.nodes@.len() == 2
    &&& label_seqs(b.nodes@[0].outputs@) == seq![x]
    &&& label_seqs(b.nodes@[0].inputs@) == input_labels(b)
    &&& forall|j: int| 0 <= j < n ==> #[trigger] in_media(b, j) == node_media(b, 0)
    &&& input_labels(b).no_duplicates()
    &&& forall|j: int| 0 <= j < n ==> #[trigger] valid_label(input_labels(b)[j])
    &&& valid_label(x)
    &&& !input_labels(b).contains(x)
    &&& b.nodes@.len() == 2 ==> {
        &&& b.nodes@[1].inputs@.len() == 0
        &&& label_seqs(b.nodes@[1].outputs@) == seq![y]
        &&& valid_label(y)
        &&& y != x
        &&& !input_labels(b).contains(y)
        &&& node_media(b, 1) == node_media(b, 0)
    }
    &&& b.outputs@.len() == 1
    &&& b.outputs@[0].0 is None
    &&& endpoint_media(b.outputs@[0].1) == node_media(b, 0)
}

/// FFmpeg reports pads for the nodes of a ready-made graph that fit their
/// wiring: as many inputs as graph inputs (or as many as wired) and one
/// output for the first node, one input and one output for the second.
pub open spec fn chain_pads(b: FilterGraphBuilder, pads: Seq<Option<PadCounts>>) -> bool {
    &&& pads.len() == b.nodes@.len()
    &&& pads[0] matches Some(p) && pads_fit(p, b.inputs@.len(), 1)
    &&& b.nodes@.len() == 2 ==> (pads[1] matches Some(p) && pads_fit(p, 1, 1))
}

proof fn lemma_chain_sound(b: FilterGraphBuilder, pads: Seq<Option<PadCounts>>, x: Seq<char>, y: Seq<char>)
    requires
        chain_shape(b, x, y),
        chain_pads(b, pads),
    ensures
        first_fault(b, pads) is None,
{
    let n = b.inputs@.len() as int;
    let nn = b.nodes@.len() as int;
    let ins = input_labels(b);
    let m = node_media(b, 0);
    assert(b.nodes@[0].outputs@.len() > 0) by {
        assert(label_seqs(b.nodes@[0].outputs@).len() == 1);
    }
    assert(labels_of(b, 0) == seq![x]);
    assert(b.nodes@[0].inputs@.len() > 0) by {
        assert(label_seqs(b.nodes@[0].inputs@).len() == n);
    }
    assert(wires_of(b, 0) == ins);
    if nn == 2 {
        assert(b.nodes@[1].outputs@.len() > 0) by {
            assert(label_seqs(b.nodes@[1].outputs@).len() == 1);
        }
        assert(labels_of(b, 1) == seq![y]);
        assert(wires_of(b, 1) == seq![x]);
    }
    // Graph inputs.
    lemma_input_fault_none(b, 0);
    assert forall|q: int| 0 <= q < n implies #[trigger] fresh_at(ins, q) by {
        assert(valid_label(ins[q]));
        if ins.subrange(0, q).contains(ins[q]) {
            let k = choose|k: int| 0 <= k < ins.subrange(0, q).len() && ins.subrange(0, q)[k] == ins[q];
            assert(ins[k] == ins[q]);
        }
    }
    // Node outputs.
    assert(declared_before(b, 0) =~= ins);
    assert(node_labels_upto(b, 1) =~= seq![x]) by {
        assert(node_labels_upto(b, 0) =~= Seq::<Seq<char>>::empty());
    }
    assert(declared_before(b, 1) =~= ins.push(x));
    lemma_label_fault_none(b, 0, 0);
    assert(label_fault(b, 0, 0) is None) by {
        assert(seq![x].subrange(0, 0) =~= Seq::<Seq<char>>::empty());
        assert(ins + seq![x].subrange(0, 0) =~= ins);
    }
    if nn == 2 {
        lemma_label_fault_none(b, 1, 0);
        assert(label_fault(b, 1, 0) is None) by {
            assert(seq![y].subrange(0, 0) =~= Seq::<Seq<char>>::empty());
            assert(ins.push(x) + seq![y].subrange(0, 0) =~= ins.push(x));
            if ins.push(x).contains(y) {
                let k = choose|k: int| 0 <= k < ins.push(x).len() && ins.push(x)[k] == y;
                if k < n {
                    assert(ins[k] == y);
                }
            }
        }
    }
    lemma_node_fault_none(b, pads, 0);
    // Node inputs.
    lemma_input_media_uniform(b, x, 0, m);
    lemma_input_media_uniform(b, y, 0, m);
    assert(ins.subrange(0, n) =~= ins);
    lemma_wire_label_fault_none(b, 0, 0);
    assert forall|r: int| 0 <= r < n implies wire_media(b, 0, #[trigger] wires_of(b, 0)[r]) == Some(node_media(b, 0)) by {
        lemma_input_media_uniform(b, ins[r], 0, m);
        assert(ins.contains(ins[r]));
    }
    if nn == 2 {
        lemma_wire_label_fault_none(b, 1, 0);
        assert(node_media_of(b, x, 0, 1) == Some(m)) by {
            assert(labels_of(b, 0).contains(x)) by {
                assert(labels_of(b, 0)[0] == x);
            }
        }
        assert(wire_media(b, 1, wires_of(b, 1)[0]) == Some(node_media(b, 1)));
    }
    lemma_wire_fault_none(b, pads, 0);
    // The graph output.
    let tail = if nn == 1 { x } else { y };
    assert(out_label(b, 0) == tail);
    assert(node_media_of(b, tail, 0, nn) == Some(m)) by {
        if nn == 1 {
            assert(labels_of(b, 0)[0] == x);
        } else {
            assert(!labels_of(b, 0).contains(y)) by {
                if labels_of(b, 0).contains(y) {
                    let k = choose|k: int| 0 <= k < labels_of(b, 0).len() && labels_of(b, 0)[k] == y;
                    assert(k == 0);
                }
            }
            assert(labels_of(b, 1)[0] == y);
            assert(node_media_of(b, y, 1, 2) == Some(node_media(b, 1)));
        }
    }
    lemma_output_fault_none(b, 0);
    // Every label is consumed exactly once.
    assert(wires_upto(b, 1) =~= ins) by {
        assert(wires_upto(b, 0) =~= Seq::<Seq<char>>::empty());
    }
    assert(out_labels(b) =~= seq![tail]);
    let used = consumed(b);
    if nn == 1 {
        assert(used =~= ins + seq![x]);
    } else {
        assert(wires_upto(b, 2) =~= ins + seq![x]);
        assert(used =~= ins + seq![x] + seq![y]);
    }
    lemma_occurrences_distinct(ins, x);
    lemma_occurrences_distinct(ins, y);
    lemma_occurrences_one(x, x);
    lemma_occurrences_one(y, y);
    lemma_occurrences_one(x, y);
    lemma_occurrences_one(y, x);
    lemma_occurrences_append(ins, seq![x], x);
    lemma_occurrences_append(ins, seq![x], y);
    lemma_occurrences_append(ins + seq![x], seq![y], x);
    lemma_occurrences_append(ins + seq![x], seq![y], y);
    lemma_input_use_fault_none(b, 0);
    assert forall|q: int| 0 <= q < n implies occurrences(consumed(b), #[trigger] input_labels(b)[q]) == 1 by {
        let l = ins[q];
        assert(ins.contains(l));
        lemma_occurrences_distinct(ins, l);
        lemma_occurrences_one(x, l);
        lemma_occurrences_one(y, l);
        lemma_occurrences_append(ins, seq![x], l);
        lemma_occurrences_append(ins + seq![x], seq![y], l);
    }
    lemma_node_label_use_fault_none(b, 0, 0);
    if nn == 2 {
        lemma_node_label_use_fault_none(b, 1, 0);
    }
    lemma_node_use_fault_none(b, 0);
}

proof fn lemma_digits_shape(n: nat)
    ensures
        nat_digits(n).len() >= 1,
        n >= 10 ==> nat_digits(n).len() >= 2,
        forall|k: int| 0 <= k < nat_digits(n).len() ==> '0' <= #[trigger] nat_digits(n)[k] <= '9',
    decreases n,
{
    if n >= 10 {
        lemma_digits_shape(n / 10);
        let p = nat_digits(n / 10);
        assert forall|k: int| 0 <= k < nat_digits(n).len() implies '0' <= #[trigger] nat_digits(n)[k] <= '9' by {
            if k < p.len() {
                assert(nat_digits(n)[k] == p[k]);
            }
        }
    }
}

proof fn lemma_digit_char_injective(a: nat, b: nat)
    requires
        a < 10,
        b < 10,
        digit_char(a) == digit_char(b),
    ensures
        a == b,
{
}

proof fn lemma_digits_injective(a: nat, b: nat)
    requires
        nat_digits(a) == nat_digits(b),
    ensures
        a == b,
    decreases a,
{
    lemma_digits_shape(a);
    lemma_digits_shape(b);
    let da = nat_digits(a);
    let db = nat_digits(b);
    if a >= 10 && b >= 10 {
        assert(da.drop_last() =~= nat_digits(a / 10));
        assert(db.drop_last() =~= nat_digits(b / 10));
        assert(da.last() == digit_char(a % 10));
        assert(db.last() == digit_char(b % 10));
        lemma_digit_char_injective(a % 10, b % 10);
        lemma_digits_injective(a / 10, b / 10);
    } else if a < 10 && b < 10 {
        assert(da[0] == digit_char(a));
        assert(db[0] == digit_char(b));
        lemma_digit_char_injective(a, b);
    } else {
        assert(da.len() != db.len());
    }
}

/// The labels `in0`, `in1`, ... are well formed, all different, and none
/// of them is a label that does not start with `i`.
proof fn lemma_auto_labels(n: nat)
    ensures
        auto_labels(n).no_duplicates(),
        forall|j: int| 0 <= j < n ==> #[trigger] valid_label(auto_labels(n)[j]),
        forall|l: Seq<char>| #![trigger auto_labels(n).contains(l)] l.len() > 0 && l[0] != 'i' ==> !auto_labels(n).contains(l),
{
    let a = auto_labels(n);
    assert forall|x: int, y: int| 0 <= x < n && 0 <= y < n && x != y implies a[x] != a[y] by {
        if a[x] == a[y] {
            assert(nat_digits(x as nat) =~= a[x].subrange(2, a[x].len() as int));
            assert(nat_digits(y as nat) =~= a[y].subrange(2, a[y].len() as int));
            lemma_digits_injective(x as nat, y as nat);
        }
    }
    assert forall|j: int| 0 <= j < n implies #[trigger] valid_label(auto_labels(n)[j]) by {
        lemma_digits_shape(j as nat);
        let l = a[j];
        assert forall|k: int| 0 <= k < l.len() implies #[trigger] label_char(l[k]) by {
            if k >= 2 {
                assert(l[k] == nat_digits(j as nat)[k - 2]);
            }
        }
    }
    assert forall|l: Seq<char>| l.len() > 0 && l[0] != 'i' implies !#[trigger] auto_labels(n).contains(l) by {
        if a.contains(l) {
            let k = choose|k: int| 0 <= k < a.len() && a[k] == l;
            assert(a[k][0] == 'i');
        }
    }
}

proof fn lemma_video_inputs_labels(b: FilterGraphBuilder, v: Seq<VideoEndpoint>)
    requires
        auto_video_inputs(b, v),
    ensures
        input_labels(b) == auto_labels(v.len()),
        forall|j: int| 0 <= j < v.len() ==> #[trigger] in_media(b, j) == MediaType::VIDEO,
{
    assert(input_labels(b) =~= auto_labels(v.len()));
    assert forall|j: int| 0 <= j < v.len() implies #[trigger] in_media(b, j) == MediaType::VIDEO by {
        assert(b.inputs@[j].1 == crate::filter::Endpoint::Video(v[j]));
    }
}

proof fn lemma_tail_shape(b: FilterGraphBuilder, natural: (i32, i32), output: VideoEndpoint, first: Seq<char>)
    requires
        video_tail(b, natural, output),
    ensures
        b.nodes@.len() == 1 || b.nodes@.len() == 2,
        b.nodes@.len() == 2 ==> b.nodes@[1].inputs@.len() == 0 && label_seqs(b.nodes@[1].outputs@) == seq!["scale"@]
            && node_media(b, 1) == MediaType::VIDEO,
        b.outputs@.len() == 1,
        b.outputs@[0].0 is None,
        endpoint_media(b.outputs@[0].1) == MediaType::VIDEO,
{
    if b.nodes@.len() == 2 {
        assert(label_seqs(b.nodes@[1].inputs@).len() == 0);
    }
}

/// "stack", "scale", "concat", "amix", "overlay", "base", "over" are
/// well-formed labels, none starting with `i`, and the tail labels differ.
proof fn lemma_fixed_labels()
    ensures
        valid_label("stack"@) && "stack"@[0] != 'i',
        valid_label("scale"@) && "scale"@[0] != 'i',
        valid_label("concat"@) && "concat"@[0] != 'i',
        valid_label("amix"@),
        valid_label("overlay"@),
        valid_label("base"@),
        valid_label("over"@),
        "stack"@ != "scale"@,
        "concat"@ != "scale"@,
        "overlay"@ != "scale"@,
        "base"@ != "over"@,
        "overlay"@ != "base"@,
        "overlay"@ != "over"@,
        "scale"@ != "base"@,
        "scale"@ != "over"@,
        "amix"@[0] != 'i' && "amix"@.len() > 0,
{
    reveal_strlit("stack");
    reveal_strlit("scale");
    reveal_strlit("concat");
    reveal_strlit("amix");
    reveal_strlit("overlay");
    reveal_strlit("base");
    reveal_strlit("over");
    assert("stack"@[1] != "scale"@[1]);
    assert("concat"@[0] != "scale"@[0]);
    assert("overlay"@[0] != "scale"@[0]);
    assert("base"@[0] != "over"@[0]);
    assert("overlay"@.len() != "base"@.len());
    assert("overlay"@.len() != "over"@.len());
    assert("scale"@[0] != "base"@[0]);
    assert("scale"@[0] != "over"@[0]);
    assert forall|k: int| 0 <= k < "stack"@.len() implies #[trigger] label_char("stack"@[k]) by {}
    assert forall|k: int| 0 <= k < "scale"@.len() implies #[trigger] label_char("scale"@[k]) by {}
    assert forall|k: int| 0 <= k < "concat"@.len() implies #[trigger] label_char("concat"@[k]) by {}
    assert forall|k: int| 0 <= k < "amix"@.len() implies #[trigger] label_char("amix"@[k]) by {}
    assert forall|k: int| 0 <= k < "overlay"@.len() implies #[trigger] label_char("overlay"@[k]) by {}
    assert forall|k: int| 0 <= k < "base"@.len() implies #[trigger] label_char("base"@[k]) by {}
    assert forall|k: int| 0 <= k < "over"@.len() implies #[trigger] label_char("over"@[k]) by {}
}

/// What FFmpeg reports for the filters of a ready-made graph: the combining
/// filter takes as many inputs as it is wired with and has one output (or
/// as many as it is labelled with); `scale` has one input and one output.
pub open spec fn usual_pads(b: FilterGraphBuilder, pads: Seq<Option<PadCounts>>) -> bool {
    &&& pads.len() == b.nodes@.len()
    &&& pads[0] matches Some(p) && p.dynamic_inputs && (p.dynamic_outputs || p.outputs == 1)
    &&& b.nodes@.len() == 2 ==> (pads[1] matches Some(q) && pads_fit(q, 1, 1))
}

/// A horizontal or vertical stack graph passes the wiring check.
pub proof fn law_stack_graph_is_sound(b: FilterGraphBuilder, inputs: Seq<VideoEndpoint>, output: VideoEndpoint,
    horizontal: bool, pads: Seq<Option<PadCounts>>)
    requires
        inputs.len() >= 1,
        stacked(b, inputs, output, horizontal),
        usual_pads(b, pads),
    ensures
        first_fault(b, pads) is None,
{
    lemma_video_inputs_labels(b, inputs);
    lemma_auto_labels(inputs.len());
    lemma_fixed_labels();
    lemma_tail_shape(b, crate::filter::graph::stack_size(inputs, horizontal), output, "stack"@);
    assert(!input_labels(b).contains("stack"@));
    assert(!input_labels(b).contains("scale"@));
    lemma_chain_sound(b, pads, "stack"@, "scale"@);
}

/// A concatenation graph passes the wiring check.
pub proof fn law_concat_graph_is_sound(b: FilterGraphBuilder, inputs: Seq<VideoEndpoint>, output: VideoEndpoint,
    pads: Seq<Option<PadCounts>>)
    requires
        inputs.len() >= 1,
        concatenated(b, inputs, output),
        usual_pads(b, pads),
    ensures
        first_fault(b, pads) is None,
{
    lemma_video_inputs_labels(b, inputs);
    lemma_auto_labels(inputs.len());
    lemma_fixed_labels();
    lemma_tail_shape(b, (inputs[0].width, inputs[0].height), output, "concat"@);
    assert(!input_labels(b).contains("concat"@));
    assert(!input_labels(b).contains("scale"@));
    lemma_chain_sound(b, pads, "concat"@, "scale"@);
}

/// A mix graph passes the wiring check.
pub proof fn law_amix_graph_is_sound(b: FilterGraphBuilder, inputs: Seq<AudioEndpoint>, duration: Seq<char>,
    output: AudioEndpoint, pads: Seq<Option<PadCounts>>)
    requires
        inputs.len() >= 1,
        mixed(b, inputs, duration, output),
        usual_pads(b, pads),
    ensures
        first_fault(b, pads) is None,
{
    assert(input_labels(b) =~= auto_labels(inputs.len()));
    assert forall|j: int| 0 <= j < inputs.len() implies #[trigger] in_media(b, j) == MediaType::AUDIO by {
        assert(b.inputs@[j].1 == crate::filter::Endpoint::Audio(inputs[j]));
    }
    lemma_auto_labels(inputs.len());
    lemma_fixed_labels();
    assert(!input_labels(b).contains("amix"@));
    lemma_chain_sound(b, pads, "amix"@, "scale"@);
}

/// An overlay graph passes the wiring check.
pub proof fn law_overlay_graph_is_sound(b: FilterGraphBuilder, base: VideoEndpoint, over: VideoEndpoint, x: Seq<char>,
    y: Seq<char>, output: VideoEndpoint, pads: Seq<Option<PadCounts>>)
    requires
        b.inputs@.len() == 2,
        in_label(b, 0) == "base"@ && b.inputs@[0].1 == crate::filter::Endpoint::Video(base),
        in_label(b, 1) == "over"@ && b.inputs@[1].1 == crate::filter::Endpoint::Video(over),
        node_is(b, 0, MediaType::VIDEO, "overlay"@, "overlay=x="@ + x + ":y="@ + y, seq!["base"@, "over"@], "overlay"@),
        video_tail(b, (base.width, base.height), output),
        pads.len() == b.nodes@.len(),
        pads[0] matches Some(p) && pads_fit(p, 2, 1),
        b.nodes@.len() == 2 ==> (pads[1] matches Some(q) && pads_fit(q, 1, 1)),
    ensures
        first_fault(b, pads) is None,
{
    lemma_fixed_labels();
    lemma_tail_shape(b, (base.width, base.height), output, "overlay"@);
    let ins = input_labels(b);
    assert(ins =~= seq!["base"@, "over"@]);
    assert(ins.no_duplicates());
    assert(!ins.contains("overlay"@)) by {
        if ins.contains("overlay"@) {
            let k = choose|k: int| 0 <= k < ins.len() && ins[k] == "overlay"@;
        }
    }
    assert(!ins.contains("scale"@)) by {
        if ins.contains("scale"@) {
            let k = choose|k: int| 0 <= k < ins.len() && ins[k] == "scale"@;
        }
    }
    assert(in_media(b, 0) == MediaType::VIDEO);
    assert(in_media(b, 1) == MediaType::VIDEO);
    lemma_chain_sound(b, pads, "overlay"@, "scale"@);
}

} // verus!
