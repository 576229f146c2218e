//! Wiring several filters into one graph: graph inputs, filter nodes and
//! graph outputs joined by labels, checked before FFmpeg ever sees them,
//! and the labelled graph description FFmpeg is then given.

use vstd::prelude::*;

use crate::error::RsmediaError;
use crate::filter::audio::amix;
use crate::filter::video::{concat, hstack, overlay, scale, vstack, DEFAULT_SCALE_FLAGS};
use crate::filter::{
    endpoint_media, label_seqs, option_escaped, valid_label, AudioEndpoint, Endpoint, FilterNode, VideoEndpoint,
};
use crate::flags::{media_type_debug, MediaType};
use crate::text::{int_text, nat_digits, push_char, push_i64, push_str, push_u64};

verus! {

/// Input and output pad counts FFmpeg reports for one filter, and whether
/// the filter takes as many pads as it is wired with instead (`hstack`,
/// `amix`, `split`, ...).
#[derive(Debug, Copy, Clone, PartialEq, Eq, Structural)]
pub struct PadCounts {
    pub inputs: usize,
    pub dynamic_inputs: bool,
    pub outputs: usize,
    pub dynamic_outputs: bool,
}

/// Builds a graph with any number of inputs and outputs.
///
/// Graph inputs are declared with [`add_input`](Self::add_input) (labelled
/// `in0`, `in1`, ...) or [`add_input_with`](Self::add_input_with); nodes are
/// appended with [`add_node`](Self::add_node); graph outputs are taken from
/// a node label with [`add_output`](Self::add_output) or from the end of the
/// chain with [`add_output_tail`](Self::add_output_tail). Inputs and node
/// outputs share one label namespace, and every label must be consumed by
/// exactly one node input or graph output.
#[derive(Debug, Clone)]
pub struct FilterGraphBuilder {
    pub inputs: Vec<(String, Endpoint)>,
    pub outputs: Vec<(Option<String>, Endpoint)>,
    pub nodes: Vec<FilterNode>,
}

impl Default for FilterGraphBuilder {
    /// An empty builder.
    fn default() -> (b: Self)
        ensures
            b.inputs@.len() == 0,
            b.outputs@.len() == 0,
            b.nodes@.len() == 0,
    {
        FilterGraphBuilder { inputs: Vec::new(), outputs: Vec::new(), nodes: Vec::new() }
    }
}

// ---------------------------------------------------------------------------
// The builder as the contracts see it.

/// Label of graph input `j`.
pub open spec fn in_label(b: FilterGraphBuilder, j: int) -> Seq<char> {
    b.inputs@[j].0@
}

/// Media kind of graph input `j`.
pub open spec fn in_media(b: FilterGraphBuilder, j: int) -> MediaType {
    endpoint_media(b.inputs@[j].1)
}

/// Labels of all graph inputs, in order.
pub open spec fn input_labels(b: FilterGraphBuilder) -> Seq<Seq<char>> {
    Seq::new(b.inputs@.len(), |j: int| in_label(b, j))
}

/// Name of the filter of node `i`.
pub open spec fn node_name(b: FilterGraphBuilder, i: int) -> Seq<char> {
    b.nodes@[i].filter.name@
}

/// Media kind of the filter of node `i`.
pub open spec fn node_media(b: FilterGraphBuilder, i: int) -> MediaType {
    b.nodes@[i].filter.media_type
}

/// The label a node without explicit output labels gets: `n` and its index.
pub open spec fn auto_label(i: int) -> Seq<char> {
    seq!['n'] + nat_digits(i as nat)
}

/// Output labels of node `i`: the ones it was given, or its automatic label.
pub open spec fn labels_of(b: FilterGraphBuilder, i: int) -> Seq<Seq<char>> {
    if b.nodes@[i].outputs@.len() == 0 {
        seq![auto_label(i)]
    } else {
        label_seqs(b.nodes@[i].outputs@)
    }
}

/// The labels node `i` is fed from: the ones it was given, or else the
/// first graph input for the first node and the last output label of the
/// previous node for any other.
pub open spec fn wires_of(b: FilterGraphBuilder, i: int) -> Seq<Seq<char>> {
    if b.nodes@[i].inputs@.len() == 0 {
        seq![if i == 0 { in_label(b, 0) } else { labels_of(b, i - 1).last() }]
    } else {
        label_seqs(b.nodes@[i].inputs@)
    }
}

/// The label graph output `k` takes: the one it was given, or the last
/// output label of the last node.
pub open spec fn out_label(b: FilterGraphBuilder, k: int) -> Seq<char> {
    match b.outputs@[k].0 {
        Some(l) => l@,
        None => labels_of(b, b.nodes@.len() - 1).last(),
    }
}

/// Output labels of nodes `0..i`, in order.
pub open spec fn node_labels_upto(b: FilterGraphBuilder, i: int) -> Seq<Seq<char>>
    decreases i,
{
    if i <= 0 {
        Seq::empty()
    } else {
        node_labels_upto(b, i - 1) + labels_of(b, i - 1)
    }
}

/// Labels declared before node `i`: all graph inputs, then the outputs of nodes `0..i`.
pub open spec fn declared_before(b: FilterGraphBuilder, i: int) -> Seq<Seq<char>> {
    input_labels(b) + node_labels_upto(b, i)
}

/// Media kind of the first graph input at or after `j` labelled `w`.
pub open spec fn input_media_of(b: FilterGraphBuilder, w: Seq<char>, j: int) -> Option<MediaType>
    decreases b.inputs@.len() - j,
{
    if j < 0 || j >= b.inputs@.len() {
        None
    } else if in_label(b, j) == w {
        Some(in_media(b, j))
    } else {
        input_media_of(b, w, j + 1)
    }
}

/// Media kind of the first node in `j..upto` with an output labelled `w`.
pub open spec fn node_media_of(b: FilterGraphBuilder, w: Seq<char>, j: int, upto: int) -> Option<MediaType>
    decreases upto - j,
{
    if j < 0 || j >= upto || j >= b.nodes@.len() {
        None
    } else if labels_of(b, j).contains(w) {
        Some(node_media(b, j))
    } else {
        node_media_of(b, w, j + 1, upto)
    }
}

/// Media kind carried by label `w` as node `i` sees it: a graph input, or
/// an output of a node before `i`.
pub open spec fn wire_media(b: FilterGraphBuilder, i: int, w: Seq<char>) -> Option<MediaType> {
    match input_media_of(b, w, 0) {
        Some(m) => Some(m),
        None => node_media_of(b, w, 0, i),
    }
}

/// Media kind of the node output labelled `l`, if a node produces it.
pub open spec fn producer_media(b: FilterGraphBuilder, l: Seq<char>) -> Option<MediaType> {
    node_media_of(b, l, 0, b.nodes@.len() as int)
}

/// Labels consumed by nodes `0..i`, in order.
pub open spec fn wires_upto(b: FilterGraphBuilder, i: int) -> Seq<Seq<char>>
    decreases i,
{
    if i <= 0 {
        Seq::empty()
    } else {
        wires_upto(b, i - 1) + wires_of(b, i - 1)
    }
}

/// Labels taken by the graph outputs, in order.
pub open spec fn out_labels(b: FilterGraphBuilder) -> Seq<Seq<char>> {
    Seq::new(b.outputs@.len(), |k: int| out_label(b, k))
}

/// Every consumption of a label: node inputs in node order, then graph outputs.
pub open spec fn consumed(b: FilterGraphBuilder) -> Seq<Seq<char>> {
    wires_upto(b, b.nodes@.len() as int) + out_labels(b)
}

/// Number of times `l` occurs in `s`.
pub open spec fn occurrences(s: Seq<Seq<char>>, l: Seq<char>) -> nat
    decreases s.len(),
{
    if s.len() == 0 {
        0
    } else {
        occurrences(s.drop_last(), l) + if s.last() == l { 1nat } else { 0nat }
    }
}

// ---------------------------------------------------------------------------
// What can be wrong with the wiring, in the order it is looked for.

/// A wiring mistake, with what its message names.
pub enum WiringFault {
    NoInput,
    NoNode,
    NoOutput,
    /// A label that is empty or holds a character other than an ASCII letter, digit or underscore.
    BadLabel(Seq<char>),
    /// A label declared twice; the flag tells that the builder chose it.
    DuplicateLabel(Seq<char>, bool),
    /// A filter this FFmpeg build does not have.
    MissingFilter(Seq<char>),
    /// Filter name, node, output pads, labels given, whether labels were given explicitly.
    OutputPadCount(Seq<char>, nat, nat, nat, bool),
    /// Filter name, node, the label it is fed from that is not declared before it.
    UnknownUpstream(Seq<char>, nat, Seq<char>),
    /// Filter name, node, its media kind, the input label, the media kind that label carries.
    WireMedia(Seq<char>, nat, MediaType, Seq<char>, MediaType),
    /// Filter name, node, input pads, labels wired.
    InputPadCount(Seq<char>, nat, nat, nat),
    /// Output index, the label no node produces.
    OutputUnproduced(nat, Seq<char>),
    /// Output index, its media kind, its label, the media kind the label carries.
    OutputMedia(nat, MediaType, Seq<char>, MediaType),
    /// A graph input nothing consumes.
    InputUnused(Seq<char>),
    /// A graph input consumed this many times.
    InputFanOut(Seq<char>, nat),
    /// Filter name, node, the output label nothing consumes, whether the node has several outputs.
    NodeOutputUnused(Seq<char>, nat, Seq<char>, bool),
    /// The label, its node, how many times it is consumed.
    NodeOutputFanOut(Seq<char>, nat, nat),
}

/// The first graph input whose label is malformed or repeats an earlier one, from `j` on.
pub open spec fn input_fault(b: FilterGraphBuilder, j: int) -> Option<WiringFault>
    decreases b.inputs@.len() - j,
{
    if j < 0 || j >= b.inputs@.len() {
        None
    } else if !valid_label(in_label(b, j)) {
        Some(WiringFault::BadLabel(in_label(b, j)))
    } else if input_labels(b).subrange(0, j).contains(in_label(b, j)) {
        Some(WiringFault::DuplicateLabel(in_label(b, j), false))
    } else {
        input_fault(b, j + 1)
    }
}

/// The first output label of node `i`, from the `m`-th on, that is
/// malformed or was declared before.
pub open spec fn label_fault(b: FilterGraphBuilder, i: int, m: int) -> Option<WiringFault>
    decreases labels_of(b, i).len() - m,
{
    if m < 0 || m >= labels_of(b, i).len() {
        None
    } else if !valid_label(labels_of(b, i)[m]) {
        Some(WiringFault::BadLabel(labels_of(b, i)[m]))
    } else if (declared_before(b, i) + labels_of(b, i).subrange(0, m)).contains(labels_of(b, i)[m]) {
        Some(WiringFault::DuplicateLabel(labels_of(b, i)[m], b.nodes@[i].outputs@.len() == 0))
    } else {
        label_fault(b, i, m + 1)
    }
}

/// What is wrong with the outputs of node `i`: its filter is missing, it
/// has another number of output labels than output pads, or one of its labels.
pub open spec fn node_own_fault(b: FilterGraphBuilder, pads: Seq<Option<PadCounts>>, i: int) -> Option<WiringFault> {
    match pads[i] {
        None => Some(WiringFault::MissingFilter(node_name(b, i))),
        Some(p) => if !p.dynamic_outputs && p.outputs != labels_of(b, i).len() {
            Some(WiringFault::OutputPadCount(node_name(b, i), i as nat, p.outputs as nat,
                labels_of(b, i).len(), b.nodes@[i].outputs@.len() > 0))
        } else {
            label_fault(b, i, 0)
        },
    }
}

/// The first node, from `i` on, with something wrong with its outputs.
pub open spec fn node_fault(b: FilterGraphBuilder, pads: Seq<Option<PadCounts>>, i: int) -> Option<WiringFault>
    decreases b.nodes@.len() - i,
{
    if i < 0 || i >= b.nodes@.len() {
        None
    } else {
        match node_own_fault(b, pads, i) {
            Some(f) => Some(f),
            None => node_fault(b, pads, i + 1),
        }
    }
}

/// The first label node `i` is fed from, from the `m`-th on, that is not
/// declared before the node or carries another media kind than the node.
pub open spec fn wire_label_fault(b: FilterGraphBuilder, i: int, m: int) -> Option<WiringFault>
    decreases wires_of(b, i).len() - m,
{
    if m < 0 || m >= wires_of(b, i).len() {
        None
    } else {
        match wire_media(b, i, wires_of(b, i)[m]) {
            None => Some(WiringFault::UnknownUpstream(node_name(b, i), i as nat, wires_of(b, i)[m])),
            Some(mt) => if mt != node_media(b, i) {
                Some(WiringFault::WireMedia(node_name(b, i), i as nat, node_media(b, i), wires_of(b, i)[m], mt))
            } else {
                wire_label_fault(b, i, m + 1)
            },
        }
    }
}

/// What is wrong with the inputs of node `i`: one of its labels, or another
/// number of labels than input pads.
pub open spec fn wire_own_fault(b: FilterGraphBuilder, pads: Seq<Option<PadCounts>>, i: int) -> Option<WiringFault> {
    match wire_label_fault(b, i, 0) {
        Some(f) => Some(f),
        None => match pads[i] {
            Some(p) => if !p.dynamic_inputs && p.inputs != wires_of(b, i).len() {
                Some(WiringFault::InputPadCount(node_name(b, i), i as nat, p.inputs as nat, wires_of(b, i).len()))
            } else {
                None
            },
            None => None,
        },
    }
}

/// The first node, from `i` on, with something wrong with its inputs.
pub open spec fn wire_fault(b: FilterGraphBuilder, pads: Seq<Option<PadCounts>>, i: int) -> Option<WiringFault>
    decreases b.nodes@.len() - i,
{
    if i < 0 || i >= b.nodes@.len() {
        None
    } else {
        match wire_own_fault(b, pads, i) {
            Some(f) => Some(f),
            None => wire_fault(b, pads, i + 1),
        }
    }
}

/// The first graph output, from `k` on, whose label no node produces or
/// carries another media kind than the output.
pub open spec fn output_fault(b: FilterGraphBuilder, k: int) -> Option<WiringFault>
    decreases b.outputs@.len() - k,
{
    if k < 0 || k >= b.outputs@.len() {
        None
    } else {
        match producer_media(b, out_label(b, k)) {
            None => Some(WiringFault::OutputUnproduced(k as nat, out_label(b, k))),
            Some(mt) => if mt != endpoint_media(b.outputs@[k].1) {
                Some(WiringFault::OutputMedia(k as nat, endpoint_media(b.outputs@[k].1), out_label(b, k), mt))
            } else {
                output_fault(b, k + 1)
            },
        }
    }
}

/// The first graph input, from `j` on, not consumed exactly once.
pub open spec fn input_use_fault(b: FilterGraphBuilder, j: int) -> Option<WiringFault>
    decreases b.inputs@.len() - j,
{
    if j < 0 || j >= b.inputs@.len() {
        None
    } else {
        let c = occurrences(consumed(b), in_label(b, j));
        if c == 0 {
            Some(WiringFault::InputUnused(in_label(b, j)))
        } else if c > 1 {
            Some(WiringFault::InputFanOut(in_label(b, j), c))
        } else {
            input_use_fault(b, j + 1)
        }
    }
}

/// The first output label of node `i`, from the `m`-th on, not consumed exactly once.
pub open spec fn node_label_use_fault(b: FilterGraphBuilder, i: int, m: int) -> Option<WiringFault>
    decreases labels_of(b, i).len() - m,
{
    if m < 0 || m >= labels_of(b, i).len() {
        None
    } else {
        let c = occurrences(consumed(b), labels_of(b, i)[m]);
        if c == 0 {
            Some(WiringFault::NodeOutputUnused(node_name(b, i), i as nat, labels_of(b, i)[m], labels_of(b, i).len() > 1))
        } else if c > 1 {
            Some(WiringFault::NodeOutputFanOut(labels_of(b, i)[m], i as nat, c))
        } else {
            node_label_use_fault(b, i, m + 1)
        }
    }
}

/// The first node, from `i` on, with an output label not consumed exactly once.
pub open spec fn node_use_fault(b: FilterGraphBuilder, i: int) -> Option<WiringFault>
    decreases b.nodes@.len() - i,
{
    if i < 0 || i >= b.nodes@.len() {
        None
    } else {
        match node_label_use_fault(b, i, 0) {
            Some(f) => Some(f),
            None => node_use_fault(b, i + 1),
        }
    }
}

/// The first wiring mistake of the builder, given the pad counts of each
/// node's filter (`None` for a filter the FFmpeg build lacks), checking in
/// this order: something declared at all; input labels; per node, its
/// filter, output pads and labels; per node, what it is fed from and its
/// input pads; graph outputs; every label consumed exactly once.
pub open spec fn first_fault(b: FilterGraphBuilder, pads: Seq<Option<PadCounts>>) -> Option<WiringFault> {
    if b.inputs@.len() == 0 {
        Some(WiringFault::NoInput)
    } else if b.nodes@.len() == 0 {
        Some(WiringFault::NoNode)
    } else if b.outputs@.len() == 0 {
        Some(WiringFault::NoOutput)
    } else if input_fault(b, 0) is Some {
        input_fault(b, 0)
    } else if node_fault(b, pads, 0) is Some {
        node_fault(b, pads, 0)
    } else if wire_fault(b, pads, 0) is Some {
        wire_fault(b, pads, 0)
    } else if output_fault(b, 0) is Some {
        output_fault(b, 0)
    } else if input_use_fault(b, 0) is Some {
        input_use_fault(b, 0)
    } else {
        node_use_fault(b, 0)
    }
}

// ---------------------------------------------------------------------------
// The graph description.

/// Each label in brackets: `[a][b]...`.
pub open spec fn bracketed(ls: Seq<Seq<char>>) -> Seq<char>
    decreases ls.len(),
{
    if ls.len() == 0 {
        Seq::empty()
    } else {
        bracketed(ls.drop_last()) + seq!['['] + ls.last() + seq![']']
    }
}

/// Node `i` in the description: its input labels, its filter's description,
/// its output labels.
pub open spec fn segment(b: FilterGraphBuilder, i: int) -> Seq<char> {
    bracketed(wires_of(b, i)) + b.nodes@[i].filter.spec@ + bracketed(labels_of(b, i))
}

/// Nodes `0..i` in the description, separated by `;`.
pub open spec fn segments_upto(b: FilterGraphBuilder, i: int) -> Seq<char>
    decreases i,
{
    if i <= 0 {
        Seq::empty()
    } else if i == 1 {
        segment(b, 0)
    } else {
        segments_upto(b, i - 1) + seq![';'] + segment(b, i - 1)
    }
}

/// The labelled description of the whole graph.
pub open spec fn graph_text(b: FilterGraphBuilder) -> Seq<char> {
    segments_upto(b, b.nodes@.len() as int)
}

/// A checked graph: its description, and its inputs and outputs by the
/// labels the description gives them, in declaration order.
#[derive(Debug)]
pub struct GraphPlan {
    pub spec: String,
    pub inputs: Vec<(String, Endpoint)>,
    pub outputs: Vec<(String, Endpoint)>,
}

// ---------------------------------------------------------------------------
// The message each wiring mistake is reported with.

pub const M_NO_INPUT: &'static str = "filter graph has no input: declare one with add_input";
pub const M_NO_NODE: &'static str = "filter graph has no node: add one with add_node";
pub const M_NO_OUTPUT: &'static str = "filter graph has no output: declare one with add_output/add_output_tail";
pub const M_BAD_LABEL: &'static str = "invalid filter graph label '";
pub const M_BAD_LABEL_END: &'static str = "': a label must be non-empty and consist of ASCII letters, digits and underscores only";
pub const M_DUPLICATE: &'static str = "duplicate label '";
pub const M_DUPLICATE_END: &'static str = "': graph inputs and node outputs share one namespace";
pub const M_AUTO: &'static str = " (the label was auto-assigned; give the node an explicit label)";
pub const M_FILTER: &'static str = "filter '";
pub const M_MISSING_END: &'static str = "' is not available in this FFmpeg build";
pub const M_NODE: &'static str = "' (node ";
pub const M_HAS: &'static str = ") has ";
pub const M_OUT_PADS_BUT: &'static str = " output pad(s) but ";
pub const M_LABELS_GIVEN: &'static str = " label(s) were given: ";
pub const M_HINT_UNLABELLED: &'static str = "label every output pad with FilterNode::with_outputs";
pub const M_HINT_LABELLED: &'static str = "use FilterNode::with_outputs to label every output pad";
pub const M_WIRED_TO: &'static str = ") is wired to '";
pub const M_UNKNOWN_END: &'static str = "', which is neither a declared graph input nor the output label of an earlier node";
pub const M_MISMATCH_FILTER: &'static str = "media type mismatch: filter '";
pub const M_IS: &'static str = ") is ";
pub const M_BUT_ITS_INPUT: &'static str = " but its input '";
pub const M_CARRIES: &'static str = "' carries ";
pub const M_TAKES: &'static str = ") takes ";
pub const M_IN_PADS_BUT: &'static str = " input(s) but ";
pub const M_LABELS_WIRED: &'static str = " label(s) were wired: use FilterNode::with_inputs to wire every input pad";
pub const M_OUTPUT: &'static str = "output ";
pub const M_OUTPUT_WIRED_TO: &'static str = " is wired to '";
pub const M_UNPRODUCED_END: &'static str = "', which no node produces: graph outputs must come from a node's output label (insert a null/anull pass-through node to expose a graph input directly)";
pub const M_MISMATCH_OUTPUT: &'static str = "media type mismatch: output ";
pub const M_OUTPUT_IS: &'static str = " is ";
pub const M_BUT_QUOTE: &'static str = " but '";
pub const M_GRAPH_INPUT: &'static str = "graph input '";
pub const M_NEVER_USED_END: &'static str = "' is never used by any node: wire it into a filter or remove it";
pub const M_CONSUMED: &'static str = "' is consumed ";
pub const M_INPUT_TIMES_END: &'static str = " times: one pad feeds exactly one downstream input; insert a split/asplit node to fan out";
pub const M_PRODUCES: &'static str = ") produces '";
pub const M_NOTHING_CONSUMES: &'static str = "' but nothing consumes it: wire it into a downstream node or declare it as a graph output";
pub const M_EVERY_PAD: &'static str = " (every output pad of the node must be consumed)";
pub const M_LABEL: &'static str = "label '";
pub const M_NODE_CONSUMED: &'static str = ") is consumed ";
pub const M_NODE_TIMES_END: &'static str = " times: one pad feeds exactly one downstream input; insert a split/asplit node (or add a video::split / audio::asplit node) to fan out";

/// The text a wiring mistake is reported with.
pub open spec fn fault_text(f: WiringFault) -> Seq<char> {
    match f {
        WiringFault::NoInput => M_NO_INPUT@,
        WiringFault::NoNode => M_NO_NODE@,
        WiringFault::NoOutput => M_NO_OUTPUT@,
        WiringFault::BadLabel(l) => M_BAD_LABEL@ + l + M_BAD_LABEL_END@,
        WiringFault::DuplicateLabel(l, auto) => M_DUPLICATE@ + l + M_DUPLICATE_END@
            + if auto { M_AUTO@ } else { Seq::empty() },
        WiringFault::MissingFilter(name) => M_FILTER@ + name + M_MISSING_END@,
        WiringFault::OutputPadCount(name, i, pads, labels, labelled) => M_FILTER@ + name + M_NODE@
            + nat_digits(i) + M_HAS@ + nat_digits(pads) + M_OUT_PADS_BUT@ + nat_digits(labels)
            + M_LABELS_GIVEN@ + if labelled { M_HINT_LABELLED@ } else { M_HINT_UNLABELLED@ },
        WiringFault::UnknownUpstream(name, i, l) => M_FILTER@ + name + M_NODE@ + nat_digits(i)
            + M_WIRED_TO@ + l + M_UNKNOWN_END@,
        WiringFault::WireMedia(name, i, mt, l, up) => M_MISMATCH_FILTER@ + name + M_NODE@
            + nat_digits(i) + M_IS@ + media_type_debug(mt) + M_BUT_ITS_INPUT@ + l + M_CARRIES@
            + media_type_debug(up),
        WiringFault::InputPadCount(name, i, pads, wired) => M_FILTER@ + name + M_NODE@ + nat_digits(i)
            + M_TAKES@ + nat_digits(pads) + M_IN_PADS_BUT@ + nat_digits(wired) + M_LABELS_WIRED@,
        WiringFault::OutputUnproduced(k, l) => M_OUTPUT@ + nat_digits(k) + M_OUTPUT_WIRED_TO@ + l
            + M_UNPRODUCED_END@,
        WiringFault::OutputMedia(k, mt, l, up) => M_MISMATCH_OUTPUT@ + nat_digits(k) + M_OUTPUT_IS@
            + media_type_debug(mt) + M_BUT_QUOTE@ + l + M_CARRIES@ + media_type_debug(up),
        WiringFault::InputUnused(l) => M_GRAPH_INPUT@ + l + M_NEVER_USED_END@,
        WiringFault::InputFanOut(l, c) => M_GRAPH_INPUT@ + l + M_CONSUMED@ + nat_digits(c)
            + M_INPUT_TIMES_END@,
        WiringFault::NodeOutputUnused(name, i, l, multi) => M_FILTER@ + name + M_NODE@ + nat_digits(i)
            + M_PRODUCES@ + l + M_NOTHING_CONSUMES@ + if multi { M_EVERY_PAD@ } else { Seq::empty() },
        WiringFault::NodeOutputFanOut(l, i, c) => M_LABEL@ + l + M_NODE@ + nat_digits(i)
            + M_NODE_CONSUMED@ + nat_digits(c) + M_NODE_TIMES_END@,
    }
}

/// `s` followed by `t`.
fn append_str(s: &mut String, t: &str)
    ensures
        final(s)@ == old(s)@ + t@,
{
    s.append(t);
}

/// The [`RsmediaError::InvalidConfig`] reporting a wiring mistake.
fn fault_error(text: String, Ghost(f): Ghost<WiringFault>) -> (e: RsmediaError)
    requires
        text@ == fault_text(f),
    ensures
        e matches RsmediaError::InvalidConfig(m) && m@ == fault_text(f),
{
    RsmediaError::InvalidConfig(text)
}

fn bad_label_text(l: &String) -> (s: String)
    ensures
        s@ == fault_text(WiringFault::BadLabel(l@)),
{
    let mut s = String::new();
    append_str(&mut s, M_BAD_LABEL);
    append_str(&mut s, l.as_str());
    append_str(&mut s, M_BAD_LABEL_END);
    s
}

fn duplicate_text(l: &String, auto: bool) -> (s: String)
    ensures
        s@ == fault_text(WiringFault::DuplicateLabel(l@, auto)),
{
    let mut s = String::new();
    append_str(&mut s, M_DUPLICATE);
    append_str(&mut s, l.as_str());
    append_str(&mut s, M_DUPLICATE_END);
    if auto {
        append_str(&mut s, M_AUTO);
    }
    s
}

fn missing_text(name: &str) -> (s: String)
    ensures
        s@ == fault_text(WiringFault::MissingFilter(name@)),
{
    let mut s = String::new();
    append_str(&mut s, M_FILTER);
    append_str(&mut s, name);
    append_str(&mut s, M_MISSING_END);
    s
}

/// `filter '<name>' (node <i>`
fn node_prefix(s: &mut String, lead: &str, name: &str, i: usize)
    ensures
        final(s)@ == old(s)@ + lead@ + name@ + M_NODE@ + nat_digits(i as nat),
{
    append_str(s, lead);
    append_str(s, name);
    append_str(s, M_NODE);
    push_u64(s, i as u64);
}

fn output_pads_text(name: &str, i: usize, pads: usize, labels: usize, labelled: bool) -> (s: String)
    ensures
        s@ == fault_text(WiringFault::OutputPadCount(name@, i as nat, pads as nat, labels as nat, labelled)),
{
    let mut s = String::new();
    node_prefix(&mut s, M_FILTER, name, i);
    append_str(&mut s, M_HAS);
    push_u64(&mut s, pads as u64);
    append_str(&mut s, M_OUT_PADS_BUT);
    push_u64(&mut s, labels as u64);
    append_str(&mut s, M_LABELS_GIVEN);
    if labelled {
        append_str(&mut s, M_HINT_LABELLED);
    } else {
        append_str(&mut s, M_HINT_UNLABELLED);
    }
    s
}

fn unknown_upstream_text(name: &str, i: usize, l: &String) -> (s: String)
    ensures
        s@ == fault_text(WiringFault::UnknownUpstream(name@, i as nat, l@)),
{
    let mut s = String::new();
    node_prefix(&mut s, M_FILTER, name, i);
    append_str(&mut s, M_WIRED_TO);
    append_str(&mut s, l.as_str());
    append_str(&mut s, M_UNKNOWN_END);
    s
}

fn wire_media_text(name: &str, i: usize, mt: MediaType, l: &String, up: MediaType) -> (s: String)
    ensures
        s@ == fault_text(WiringFault::WireMedia(name@, i as nat, mt, l@, up)),
{
    let mut s = String::new();
    node_prefix(&mut s, M_MISMATCH_FILTER, name, i);
    append_str(&mut s, M_IS);
    let mt_name = mt.debug_name();
    append_str(&mut s, mt_name.as_str());
    append_str(&mut s, M_BUT_ITS_INPUT);
    append_str(&mut s, l.as_str());
    append_str(&mut s, M_CARRIES);
    let up_name = up.debug_name();
    append_str(&mut s, up_name.as_str());
    s
}

fn input_pads_text(name: &str, i: usize, pads: usize, wired: usize) -> (s: String)
    ensures
        s@ == fault_text(WiringFault::InputPadCount(name@, i as nat, pads as nat, wired as nat)),
{
    let mut s = String::new();
    node_prefix(&mut s, M_FILTER, name, i);
    append_str(&mut s, M_TAKES);
    push_u64(&mut s, pads as u64);
    append_str(&mut s, M_IN_PADS_BUT);
    push_u64(&mut s, wired as u64);
    append_str(&mut s, M_LABELS_WIRED);
    s
}

fn unproduced_text(k: usize, l: &String) -> (s: String)
    ensures
        s@ == fault_text(WiringFault::OutputUnproduced(k as nat, l@)),
{
    let mut s = String::new();
    append_str(&mut s, M_OUTPUT);
    push_u64(&mut s, k as u64);
    append_str(&mut s, M_OUTPUT_WIRED_TO);
    append_str(&mut s, l.as_str());
    append_str(&mut s, M_UNPRODUCED_END);
    s
}

fn output_media_text(k: usize, mt: MediaType, l: &String, up: MediaType) -> (s: String)
    ensures
        s@ == fault_text(WiringFault::OutputMedia(k as nat, mt, l@, up)),
{
    let mut s = String::new();
    append_str(&mut s, M_MISMATCH_OUTPUT);
    push_u64(&mut s, k as u64);
    append_str(&mut s, M_OUTPUT_IS);
    let mt_name = mt.debug_name();
    append_str(&mut s, mt_name.as_str());
    append_str(&mut s, M_BUT_QUOTE);
    append_str(&mut s, l.as_str());
    append_str(&mut s, M_CARRIES);
    let up_name = up.debug_name();
    append_str(&mut s, up_name.as_str());
    s
}

fn input_unused_text(l: &String) -> (s: String)
    ensures
        s@ == fault_text(WiringFault::InputUnused(l@)),
{
    let mut s = String::new();
    append_str(&mut s, M_GRAPH_INPUT);
    append_str(&mut s, l.as_str());
    append_str(&mut s, M_NEVER_USED_END);
    s
}

fn input_fan_out_text(l: &String, c: usize) -> (s: String)
    ensures
        s@ == fault_text(WiringFault::InputFanOut(l@, c as nat)),
{
    let mut s = String::new();
    append_str(&mut s, M_GRAPH_INPUT);
    append_str(&mut s, l.as_str());
    append_str(&mut s, M_CONSUMED);
    push_u64(&mut s, c as u64);
    append_str(&mut s, M_INPUT_TIMES_END);
    s
}

fn node_unused_text(name: &str, i: usize, l: &String, multi: bool) -> (s: String)
    ensures
        s@ == fault_text(WiringFault::NodeOutputUnused(name@, i as nat, l@, multi)),
{
    let mut s = String::new();
    node_prefix(&mut s, M_FILTER, name, i);
    append_str(&mut s, M_PRODUCES);
    append_str(&mut s, l.as_str());
    append_str(&mut s, M_NOTHING_CONSUMES);
    if multi {
        append_str(&mut s, M_EVERY_PAD);
    }
    s
}

fn node_fan_out_text(l: &String, i: usize, c: usize) -> (s: String)
    ensures
        s@ == fault_text(WiringFault::NodeOutputFanOut(l@, i as nat, c as nat)),
{
    let mut s = String::new();
    node_prefix(&mut s, M_LABEL, l.as_str(), i);
    append_str(&mut s, M_NODE_CONSUMED);
    push_u64(&mut s, c as u64);
    append_str(&mut s, M_NODE_TIMES_END);
    s
}

// ---------------------------------------------------------------------------
// Declaring the graph.

impl FilterGraphBuilder {
    /// An empty builder.
    pub fn new() -> (b: Self)
        ensures
            b.inputs@.len() == 0,
            b.outputs@.len() == 0,
            b.nodes@.len() == 0,
    {
        FilterGraphBuilder { inputs: Vec::new(), outputs: Vec::new(), nodes: Vec::new() }
    }

    /// Declares a graph input labelled `in` and its position (`in0`, `in1`, ...).
    pub fn add_input(&mut self, endpoint: Endpoint) -> (r: &mut Self)
        ensures
            r.inputs@.len() == old(self).inputs@.len() + 1,
            r.inputs@.drop_last() == old(self).inputs@,
            r.inputs@.last().0@ == seq!['i', 'n'] + nat_digits(old(self).inputs@.len()),
            r.inputs@.last().1 == endpoint,
            r.outputs@ == old(self).outputs@,
            r.nodes@ == old(self).nodes@,
            *final(self) == *final(r),
    {
        let mut label = "in".to_string();
        proof {
            reveal_strlit("in");
        }
        push_u64(&mut label, self.inputs.len() as u64);
        self.inputs.push((label, endpoint));
        self
    }

    /// Declares a graph input with the given label.
    pub fn add_input_with(&mut self, label: &str, endpoint: Endpoint) -> (r: &mut Self)
        ensures
            r.inputs@.len() == old(self).inputs@.len() + 1,
            r.inputs@.drop_last() == old(self).inputs@,
            r.inputs@.last().0@ == label@,
            r.inputs@.last().1 == endpoint,
            r.outputs@ == old(self).outputs@,
            r.nodes@ == old(self).nodes@,
            *final(self) == *final(r),
    {
        self.inputs.push((label.to_string(), endpoint));
        self
    }

    /// The label of graph input `index`, if there is one.
    pub fn input_label(&self, index: usize) -> (l: Option<&str>)
        ensures
            index >= self.inputs@.len() ==> l is None,
            index < self.inputs@.len() ==> (l matches Some(t) && t@ == in_label(*self, index as int)),
    {
        if index < self.inputs.len() {
            Some(self.inputs[index].0.as_str())
        } else {
            None
        }
    }

    /// Number of graph inputs declared.
    pub fn input_count(&self) -> (n: usize)
        ensures
            n == self.inputs@.len(),
    {
        self.inputs.len()
    }

    /// Number of graph outputs declared.
    pub fn output_count(&self) -> (n: usize)
        ensures
            n == self.outputs@.len(),
    {
        self.outputs.len()
    }

    /// Appends a node; without explicit inputs it continues the chain.
    pub fn add_node(&mut self, node: FilterNode) -> (r: &mut Self)
        ensures
            r.nodes@ == old(self).nodes@.push(node),
            r.inputs@ == old(self).inputs@,
            r.outputs@ == old(self).outputs@,
            *final(self) == *final(r),
    {
        self.nodes.push(node);
        self
    }

    /// Declares a graph output taken from the node output labelled `upstream`.
    pub fn add_output(&mut self, upstream: &str, endpoint: Endpoint) -> (r: &mut Self)
        ensures
            r.outputs@.len() == old(self).outputs@.len() + 1,
            r.outputs@.drop_last() == old(self).outputs@,
            r.outputs@.last().0 matches Some(l) && l@ == upstream@,
            r.outputs@.last().1 == endpoint,
            r.inputs@ == old(self).inputs@,
            r.nodes@ == old(self).nodes@,
            *final(self) == *final(r),
    {
        self.outputs.push((Some(upstream.to_string()), endpoint));
        self
    }

    /// Declares a graph output taken from the last output of the last node.
    pub fn add_output_tail(&mut self, endpoint: Endpoint) -> (r: &mut Self)
        ensures
            r.outputs@ == old(self).outputs@.push((None, endpoint)),
            r.inputs@ == old(self).inputs@,
            r.nodes@ == old(self).nodes@,
            *final(self) == *final(r),
    {
        self.outputs.push((None, endpoint));
        self
    }
}

// ---------------------------------------------------------------------------
// Checking the wiring.

/// `e` is the error reporting the mistake `f`.
pub open spec fn reports(e: RsmediaError, f: Option<WiringFault>) -> bool {
    match f {
        Some(ff) => match e {
            RsmediaError::InvalidConfig(m) => m@ == fault_text(ff),
            _ => false,
        },
        None => false,
    }
}

/// Tables of labels: `t@[i]` as a sequence of label texts.
pub open spec fn table_row(t: Seq<Vec<String>>, i: int) -> Seq<Seq<char>> {
    label_seqs(t[i]@)
}

/// `t` lists the output labels of every node.
pub open spec fn is_label_table(b: FilterGraphBuilder, t: Seq<Vec<String>>) -> bool {
    &&& t.len() == b.nodes@.len()
    &&& forall|i: int| 0 <= i < t.len() ==> #[trigger] table_row(t, i) == labels_of(b, i)
}

/// `t` lists the labels every node is fed from.
pub open spec fn is_wire_table(b: FilterGraphBuilder, t: Seq<Vec<String>>) -> bool {
    &&& t.len() == b.nodes@.len()
    &&& forall|i: int| 0 <= i < t.len() ==> #[trigger] table_row(t, i) == wires_of(b, i)
}

/// Copies of the strings of `v`.
fn copy_labels(v: &Vec<String>) -> (out: Vec<String>)
    ensures
        label_seqs(out@) == label_seqs(v@),
{
    let mut out: Vec<String> = Vec::new();
    let mut k: usize = 0;
    while k < v.len()
        invariant
            k <= v@.len(),
            label_seqs(out@) == label_seqs(v@).subrange(0, k as int),
        decreases v@.len() - k,
    {
        let ghost before = out@;
        out.push(v[k].clone());
        assert(label_seqs(out@) =~= label_seqs(before).push(v@[k as int]@));
        k = k + 1;
        assert(label_seqs(out@) =~= label_seqs(v@).subrange(0, k as int));
    }
    assert(label_seqs(v@).subrange(0, k as int) =~= label_seqs(v@));
    out
}

/// Appends copies of the strings of `v` to `out`.
fn extend_labels(out: &mut Vec<String>, v: &Vec<String>)
    ensures
        label_seqs(final(out)@) == label_seqs(old(out)@) + label_seqs(v@),
{
    let ghost start = label_seqs(out@);
    let mut k: usize = 0;
    while k < v.len()
        invariant
            k <= v@.len(),
            label_seqs(out@) == start + label_seqs(v@).subrange(0, k as int),
        decreases v@.len() - k,
    {
        let ghost before = out@;
        out.push(v[k].clone());
        assert(label_seqs(out@) =~= label_seqs(before).push(v@[k as int]@));
        k = k + 1;
        assert(label_seqs(out@) =~= start + label_seqs(v@).subrange(0, k as int));
    }
    assert(label_seqs(v@).subrange(0, k as int) =~= label_seqs(v@));
}

/// Whether some string of `v` reads as `l`.
fn contains_label(v: &Vec<String>, l: &String) -> (b: bool)
    ensures
        b == label_seqs(v@).contains(l@),
{
    let mut k: usize = 0;
    while k < v.len()
        invariant
            k <= v@.len(),
            forall|q: int| 0 <= q < k ==> v@[q]@ != l@,
        decreases v@.len() - k,
    {
        if v[k] == *l {
            assert(label_seqs(v@)[k as int] == l@);
            return true;
        }
        k = k + 1;
    }
    proof {
        if label_seqs(v@).contains(l@) {
            let q = choose|q: int| 0 <= q < label_seqs(v@).len() && label_seqs(v@)[q] == l@;
            assert(v@[q]@ == l@);
        }
    }
    false
}

proof fn lemma_input_labels_prefix(b: FilterGraphBuilder, j: int)
    requires
        0 <= j < b.inputs@.len(),
    ensures
        input_labels(b).subrange(0, j + 1) == input_labels(b).subrange(0, j).push(in_label(b, j)),
{
    assert(input_labels(b).subrange(0, j + 1) =~= input_labels(b).subrange(0, j).push(in_label(b, j)));
}

impl FilterGraphBuilder {
    /// Labels of all graph inputs.
    fn input_label_list(&self) -> (v: Vec<String>)
        ensures
            label_seqs(v@) == input_labels(*self),
    {
        let mut v: Vec<String> = Vec::new();
        let mut j: usize = 0;
        while j < self.inputs.len()
            invariant
                j <= self.inputs@.len(),
                label_seqs(v@) == input_labels(*self).subrange(0, j as int),
            decreases self.inputs@.len() - j,
        {
            let ghost before = v@;
            v.push(self.inputs[j].0.clone());
            proof {
                lemma_input_labels_prefix(*self, j as int);
                assert(label_seqs(v@) =~= label_seqs(before).push(in_label(*self, j as int)));
            }
            j = j + 1;
        }
        assert(input_labels(*self).subrange(0, j as int) =~= input_labels(*self));
        v
    }

    /// Reports the first graph input whose label is malformed or repeated.
    fn check_inputs(&self) -> (r: Result<(), RsmediaError>)
        ensures
            r is Ok <==> input_fault(*self, 0) is None,
            r matches Err(e) ==> reports(e, input_fault(*self, 0)),
    {
        let mut seen: Vec<String> = Vec::new();
        let mut j: usize = 0;
        while j < self.inputs.len()
            invariant
                j <= self.inputs@.len(),
                label_seqs(seen@) == input_labels(*self).subrange(0, j as int),
                input_fault(*self, 0) == input_fault(*self, j as int),
            decreases self.inputs@.len() - j,
        {
            let l = &self.inputs[j].0;
            if !crate::filter::is_valid_label(l.as_str()) {
                let text = bad_label_text(l);
                return Err(fault_error(text, Ghost(WiringFault::BadLabel(l@))));
            }
            if contains_label(&seen, l) {
                let text = duplicate_text(l, false);
                return Err(fault_error(text, Ghost(WiringFault::DuplicateLabel(l@, false))));
            }
            let ghost before = seen@;
            seen.push(l.clone());
            proof {
                lemma_input_labels_prefix(*self, j as int);
                assert(label_seqs(seen@) =~= label_seqs(before).push(in_label(*self, j as int)));
            }
            j = j + 1;
        }
        Ok(())
    }

    /// The output labels of every node.
    fn label_table(&self) -> (t: Vec<Vec<String>>)
        ensures
            is_label_table(*self, t@),
    {
        let mut t: Vec<Vec<String>> = Vec::new();
        let mut i: usize = 0;
        while i < self.nodes.len()
            invariant
                i <= self.nodes@.len(),
                t@.len() == i,
                forall|q: int| 0 <= q < i ==> #[trigger] table_row(t@, q) == labels_of(*self, q),
            decreases self.nodes@.len() - i,
        {
            let row = if self.nodes[i].outputs.len() == 0 {
                let mut label = "n".to_string();
                proof {
                    reveal_strlit("n");
                }
                push_u64(&mut label, i as u64);
                assert(label@ =~= auto_label(i as int));
                let mut row: Vec<String> = Vec::new();
                row.push(label);
                assert(label_seqs(row@) =~= seq![auto_label(i as int)]);
                row
            } else {
                copy_labels(&self.nodes[i].outputs)
            };
            let ghost before = t@;
            t.push(row);
            assert forall|q: int| 0 <= q < i + 1 implies #[trigger] table_row(t@, q) == labels_of(*self, q) by {
                if q < i {
                    assert(table_row(t@, q) == table_row(before, q));
                }
            }
            i = i + 1;
        }
        t
    }
}

proof fn lemma_labels_nonempty(b: FilterGraphBuilder, i: int)
    requires
        0 <= i < b.nodes@.len(),
    ensures
        labels_of(b, i).len() > 0,
{
}

proof fn lemma_declared_next(b: FilterGraphBuilder, i: int)
    requires
        0 <= i,
    ensures
        declared_before(b, i + 1) == declared_before(b, i) + labels_of(b, i),
{
    assert(declared_before(b, i + 1) =~= declared_before(b, i) + labels_of(b, i));
}

impl FilterGraphBuilder {
    /// Reports the first node whose filter is missing, whose output labels
    /// do not match its output pads, or that declares a malformed or
    /// repeated label.
    fn check_node_outputs(&self, pads: &[Option<PadCounts>], table: &Vec<Vec<String>>) -> (r: Result<(), RsmediaError>)
        requires
            pads@.len() == self.nodes@.len(),
            is_label_table(*self, table@),
        ensures
            r is Ok <==> node_fault(*self, pads@, 0) is None,
            r matches Err(e) ==> reports(e, node_fault(*self, pads@, 0)),
    {
        let mut seen = self.input_label_list();
        proof {
            assert(declared_before(*self, 0) =~= input_labels(*self));
        }
        let mut i: usize = 0;
        while i < self.nodes.len()
            invariant
                i <= self.nodes@.len(),
                pads@.len() == self.nodes@.len(),
                is_label_table(*self, table@),
                label_seqs(seen@) == declared_before(*self, i as int),
                node_fault(*self, pads@, 0) == node_fault(*self, pads@, i as int),
            decreases self.nodes@.len() - i,
        {
            let node = &self.nodes[i];
            let row = &table[i];
            assert(table_row(table@, i as int) == labels_of(*self, i as int));
            match pads[i] {
                None => {
                    let text = missing_text(node.filter.name);
                    return Err(fault_error(text, Ghost(WiringFault::MissingFilter(node.filter.name@))));
                },
                Some(p) => {
                    if !p.dynamic_outputs && p.outputs != row.len() {
                        let text = output_pads_text(node.filter.name, i, p.outputs, row.len(), node.outputs.len() > 0);
                        return Err(fault_error(text, Ghost(WiringFault::OutputPadCount(node.filter.name@, i as nat,
                            p.outputs as nat, row@.len(), node.outputs@.len() > 0))));
                    }
                },
            }
            let ghost start = label_seqs(seen@);
            let mut m: usize = 0;
            while m < row.len()
                invariant
                    m <= row@.len(),
                    i < self.nodes@.len(),
                    label_seqs(row@) == labels_of(*self, i as int),
                    start == declared_before(*self, i as int),
                    label_seqs(seen@) == start + labels_of(*self, i as int).subrange(0, m as int),
                    label_fault(*self, i as int, 0) == label_fault(*self, i as int, m as int),
                    node_fault(*self, pads@, 0) == node_fault(*self, pads@, i as int),
                    node_own_fault(*self, pads@, i as int) == label_fault(*self, i as int, 0),
                    pads@.len() == self.nodes@.len(),
                    is_label_table(*self, table@),
                    *node == self.nodes@[i as int],
                decreases row@.len() - m,
            {
                let l = &row[m];
                assert(l@ == labels_of(*self, i as int)[m as int]);
                if !crate::filter::is_valid_label(l.as_str()) {
                    let text = bad_label_text(l);
                    return Err(fault_error(text, Ghost(WiringFault::BadLabel(l@))));
                }
                if contains_label(&seen, l) {
                    let auto = node.outputs.len() == 0;
                    let text = duplicate_text(l, auto);
                    return Err(fault_error(text, Ghost(WiringFault::DuplicateLabel(l@, auto))));
                }
                let ghost before = seen@;
                seen.push(l.clone());
                assert(label_seqs(seen@) =~= label_seqs(before).push(l@));
                assert(labels_of(*self, i as int).subrange(0, m + 1) =~= labels_of(*self, i as int).subrange(0, m as int).push(l@));
                m = m + 1;
            }
            proof {
                assert(labels_of(*self, i as int).subrange(0, m as int) =~= labels_of(*self, i as int));
                lemma_declared_next(*self, i as int);
            }
            i = i + 1;
        }
        Ok(())
    }
}

impl FilterGraphBuilder {
    /// The labels every node is fed from.
    fn wire_table(&self, table: &Vec<Vec<String>>) -> (t: Vec<Vec<String>>)
        requires
            self.inputs@.len() > 0,
            is_label_table(*self, table@),
        ensures
            is_wire_table(*self, t@),
    {
        let mut t: Vec<Vec<String>> = Vec::new();
        let mut i: usize = 0;
        while i < self.nodes.len()
            invariant
                i <= self.nodes@.len(),
                self.inputs@.len() > 0,
                is_label_table(*self, table@),
                t@.len() == i,
                forall|q: int| 0 <= q < i ==> #[trigger] table_row(t@, q) == wires_of(*self, q),
            decreases self.nodes@.len() - i,
        {
            let row = if self.nodes[i].inputs.len() == 0 {
                let source = if i == 0 {
                    self.inputs[0].0.clone()
                } else {
                    let prev = &table[i - 1];
                    assert(table_row(table@, i - 1) == labels_of(*self, i - 1));
                    proof {
                        lemma_labels_nonempty(*self, i - 1);
                    }
                    prev[prev.len() - 1].clone()
                };
                let mut row: Vec<String> = Vec::new();
                row.push(source);
                assert(label_seqs(row@) =~= wires_of(*self, i as int));
                row
            } else {
                copy_labels(&self.nodes[i].inputs)
            };
            let ghost before = t@;
            t.push(row);
            assert forall|q: int| 0 <= q < i + 1 implies #[trigger] table_row(t@, q) == wires_of(*self, q) by {
                if q < i {
                    assert(table_row(t@, q) == table_row(before, q));
                }
            }
            i = i + 1;
        }
        t
    }

    /// Media kind of the first graph input labelled `w`.
    fn input_media_lookup(&self, w: &String) -> (r: Option<MediaType>)
        ensures
            r == input_media_of(*self, w@, 0),
    {
        let mut j: usize = 0;
        while j < self.inputs.len()
            invariant
                j <= self.inputs@.len(),
                input_media_of(*self, w@, 0) == input_media_of(*self, w@, j as int),
            decreases self.inputs@.len() - j,
        {
            if self.inputs[j].0 == *w {
                return Some(self.inputs[j].1.media_type());
            }
            j = j + 1;
        }
        None
    }

    /// Media kind of the first node before `upto` with an output labelled `w`.
    fn node_media_lookup(&self, table: &Vec<Vec<String>>, w: &String, upto: usize) -> (r: Option<MediaType>)
        requires
            is_label_table(*self, table@),
            upto <= self.nodes@.len(),
        ensures
            r == node_media_of(*self, w@, 0, upto as int),
    {
        let mut j: usize = 0;
        while j < upto
            invariant
                j <= upto <= self.nodes@.len(),
                is_label_table(*self, table@),
                node_media_of(*self, w@, 0, upto as int) == node_media_of(*self, w@, j as int, upto as int),
            decreases upto - j,
        {
            assert(table_row(table@, j as int) == labels_of(*self, j as int));
            if contains_label(&table[j], w) {
                return Some(self.nodes[j].filter.media_type);
            }
            j = j + 1;
        }
        None
    }

    /// Media kind label `w` carries as node `i` sees it.
    fn wire_media_lookup(&self, table: &Vec<Vec<String>>, i: usize, w: &String) -> (r: Option<MediaType>)
        requires
            is_label_table(*self, table@),
            i <= self.nodes@.len(),
        ensures
            r == wire_media(*self, i as int, w@),
    {
        match self.input_media_lookup(w) {
            Some(m) => Some(m),
            None => self.node_media_lookup(table, w, i),
        }
    }

    /// Reports the first node fed from a label not declared before it or
    /// carrying another media kind, or wired with another number of labels
    /// than it has input pads.
    fn check_wires(&self, pads: &[Option<PadCounts>], table: &Vec<Vec<String>>, wires: &Vec<Vec<String>>) -> (r: Result<(), RsmediaError>)
        requires
            pads@.len() == self.nodes@.len(),
            is_label_table(*self, table@),
            is_wire_table(*self, wires@),
        ensures
            r is Ok <==> wire_fault(*self, pads@, 0) is None,
            r matches Err(e) ==> reports(e, wire_fault(*self, pads@, 0)),
    {
        let mut i: usize = 0;
        while i < self.nodes.len()
            invariant
                i <= self.nodes@.len(),
                pads@.len() == self.nodes@.len(),
                is_label_table(*self, table@),
                is_wire_table(*self, wires@),
                wire_fault(*self, pads@, 0) == wire_fault(*self, pads@, i as int),
            decreases self.nodes@.len() - i,
        {
            let node = &self.nodes[i];
            let row = &wires[i];
            assert(table_row(wires@, i as int) == wires_of(*self, i as int));
            let mut m: usize = 0;
            while m < row.len()
                invariant
                    m <= row@.len(),
                    i < self.nodes@.len(),
                    *node == self.nodes@[i as int],
                    label_seqs(row@) == wires_of(*self, i as int),
                    is_label_table(*self, table@),
                    pads@.len() == self.nodes@.len(),
                    wire_fault(*self, pads@, 0) == wire_fault(*self, pads@, i as int),
                    wire_label_fault(*self, i as int, 0) == wire_label_fault(*self, i as int, m as int),
                decreases row@.len() - m,
            {
                let w = &row[m];
                assert(w@ == wires_of(*self, i as int)[m as int]);
                match self.wire_media_lookup(table, i, w) {
                    None => {
                        let text = unknown_upstream_text(node.filter.name, i, w);
                        return Err(fault_error(text, Ghost(WiringFault::UnknownUpstream(node.filter.name@, i as nat, w@))));
                    },
                    Some(mt) => {
                        if mt != node.filter.media_type {
                            let text = wire_media_text(node.filter.name, i, node.filter.media_type, w, mt);
                            return Err(fault_error(text, Ghost(WiringFault::WireMedia(node.filter.name@, i as nat,
                                node.filter.media_type, w@, mt))));
                        }
                    },
                }
                m = m + 1;
            }
            match pads[i] {
                Some(p) => {
                    if !p.dynamic_inputs && p.inputs != row.len() {
                        let text = input_pads_text(node.filter.name, i, p.inputs, row.len());
                        return Err(fault_error(text, Ghost(WiringFault::InputPadCount(node.filter.name@, i as nat,
                            p.inputs as nat, row@.len()))));
                    }
                },
                None => {},
            }
            i = i + 1;
        }
        Ok(())
    }
}

/// `occurrences` over one more element.
proof fn lemma_occurrences_push(s: Seq<Seq<char>>, x: Seq<char>, l: Seq<char>)
    ensures
        occurrences(s.push(x), l) == occurrences(s, l) + if x == l { 1nat } else { 0nat },
{
    assert(s.push(x).drop_last() =~= s);
}

/// Number of strings of `v` that read as `l`.
fn count_label(v: &Vec<String>, l: &String) -> (c: usize)
    ensures
        c == occurrences(label_seqs(v@), l@),
{
    let mut c: usize = 0;
    let mut k: usize = 0;
    while k < v.len()
        invariant
            k <= v@.len(),
            c <= k,
            c == occurrences(label_seqs(v@).subrange(0, k as int), l@),
        decreases v@.len() - k,
    {
        proof {
            assert(label_seqs(v@).subrange(0, k + 1) =~= label_seqs(v@).subrange(0, k as int).push(v@[k as int]@));
            lemma_occurrences_push(label_seqs(v@).subrange(0, k as int), v@[k as int]@, l@);
        }
        if v[k] == *l {
            c = c + 1;
        }
        k = k + 1;
    }
    assert(label_seqs(v@).subrange(0, k as int) =~= label_seqs(v@));
    c
}

/// Each label of `v` in brackets.
fn bracket_labels(out: &mut String, v: &Vec<String>)
    ensures
        final(out)@ == old(out)@ + bracketed(label_seqs(v@)),
{
    let ghost start = out@;
    let mut k: usize = 0;
    while k < v.len()
        invariant
            k <= v@.len(),
            out@ == start + bracketed(label_seqs(v@).subrange(0, k as int)),
        decreases v@.len() - k,
    {
        proof {
            let pre = label_seqs(v@).subrange(0, k as int);
            let next = label_seqs(v@).subrange(0, k + 1);
            assert(next.drop_last() =~= pre);
            assert(next.last() == v@[k as int]@);
        }
        push_char(out, '[');
        append_str(out, v[k].as_str());
        push_char(out, ']');
        proof {
            let pre = label_seqs(v@).subrange(0, k as int);
            let next = label_seqs(v@).subrange(0, k + 1);
            assert(out@ =~= start + (bracketed(pre) + seq!['['] + v@[k as int]@ + seq![']']));
            assert(bracketed(next) == bracketed(pre) + seq!['['] + v@[k as int]@ + seq![']']);
        }
        k = k + 1;
    }
    assert(label_seqs(v@).subrange(0, k as int) =~= label_seqs(v@));
}

proof fn lemma_out_labels_prefix(b: FilterGraphBuilder, k: int)
    requires
        0 <= k < b.outputs@.len(),
    ensures
        out_labels(b).subrange(0, k + 1) == out_labels(b).subrange(0, k).push(out_label(b, k)),
{
    assert(out_labels(b).subrange(0, k + 1) =~= out_labels(b).subrange(0, k).push(out_label(b, k)));
}

impl FilterGraphBuilder {
    /// The label every graph output takes.
    fn out_label_list(&self, table: &Vec<Vec<String>>) -> (v: Vec<String>)
        requires
            self.nodes@.len() > 0,
            is_label_table(*self, table@),
        ensures
            label_seqs(v@) == out_labels(*self),
    {
        let mut v: Vec<String> = Vec::new();
        let mut k: usize = 0;
        while k < self.outputs.len()
            invariant
                k <= self.outputs@.len(),
                self.nodes@.len() > 0,
                is_label_table(*self, table@),
                label_seqs(v@) == out_labels(*self).subrange(0, k as int),
            decreases self.outputs@.len() - k,
        {
            let l = match &self.outputs[k].0 {
                Some(l) => l.clone(),
                None => {
                    let last = &table[table.len() - 1];
                    assert(table_row(table@, table@.len() - 1) == labels_of(*self, self.nodes@.len() - 1));
                    proof {
                        lemma_labels_nonempty(*self, self.nodes@.len() - 1);
                    }
                    last[last.len() - 1].clone()
                },
            };
            assert(l@ == out_label(*self, k as int));
            let ghost before = v@;
            v.push(l);
            proof {
                lemma_out_labels_prefix(*self, k as int);
                assert(label_seqs(v@) =~= label_seqs(before).push(out_label(*self, k as int)));
            }
            k = k + 1;
        }
        assert(out_labels(*self).subrange(0, k as int) =~= out_labels(*self));
        v
    }

    /// Reports the first graph output whose label no node produces or that
    /// carries another media kind.
    fn check_outputs(&self, table: &Vec<Vec<String>>, outs: &Vec<String>) -> (r: Result<(), RsmediaError>)
        requires
            is_label_table(*self, table@),
            label_seqs(outs@) == out_labels(*self),
        ensures
            r is Ok <==> output_fault(*self, 0) is None,
            r matches Err(e) ==> reports(e, output_fault(*self, 0)),
    {
        assert(label_seqs(outs@).len() == outs@.len());
        assert(out_labels(*self).len() == self.outputs@.len());
        let mut k: usize = 0;
        while k < self.outputs.len()
            invariant
                k <= self.outputs@.len(),
                outs@.len() == self.outputs@.len(),
                is_label_table(*self, table@),
                label_seqs(outs@) == out_labels(*self),
                output_fault(*self, 0) == output_fault(*self, k as int),
            decreases self.outputs@.len() - k,
        {
            let l = &outs[k];
            assert(l@ == out_labels(*self)[k as int]);
            let want = self.outputs[k].1.media_type();
            match self.node_media_lookup(table, l, self.nodes.len()) {
                None => {
                    let text = unproduced_text(k, l);
                    return Err(fault_error(text, Ghost(WiringFault::OutputUnproduced(k as nat, l@))));
                },
                Some(mt) => {
                    if mt != want {
                        let text = output_media_text(k, want, l, mt);
                        return Err(fault_error(text, Ghost(WiringFault::OutputMedia(k as nat, want, l@, mt))));
                    }
                },
            }
            k = k + 1;
        }
        Ok(())
    }

    /// Every consumption of a label: node inputs in node order, then graph outputs.
    fn consumed_list(&self, wires: &Vec<Vec<String>>, outs: &Vec<String>) -> (v: Vec<String>)
        requires
            is_wire_table(*self, wires@),
            label_seqs(outs@) == out_labels(*self),
        ensures
            label_seqs(v@) == consumed(*self),
    {
        let mut v: Vec<String> = Vec::new();
        let mut i: usize = 0;
        while i < wires.len()
            invariant
                i <= wires@.len(),
                is_wire_table(*self, wires@),
                label_seqs(v@) == wires_upto(*self, i as int),
            decreases wires@.len() - i,
        {
            assert(table_row(wires@, i as int) == wires_of(*self, i as int));
            extend_labels(&mut v, &wires[i]);
            i = i + 1;
        }
        extend_labels(&mut v, outs);
        v
    }

    /// Reports the first graph input not consumed exactly once.
    fn check_input_use(&self, used: &Vec<String>) -> (r: Result<(), RsmediaError>)
        requires
            label_seqs(used@) == consumed(*self),
        ensures
            r is Ok <==> input_use_fault(*self, 0) is None,
            r matches Err(e) ==> reports(e, input_use_fault(*self, 0)),
    {
        let mut j: usize = 0;
        while j < self.inputs.len()
            invariant
                j <= self.inputs@.len(),
                label_seqs(used@) == consumed(*self),
                input_use_fault(*self, 0) == input_use_fault(*self, j as int),
            decreases self.inputs@.len() - j,
        {
            let l = &self.inputs[j].0;
            let c = count_label(used, l);
            if c == 0 {
                let text = input_unused_text(l);
                return Err(fault_error(text, Ghost(WiringFault::InputUnused(l@))));
            }
            if c > 1 {
                let text = input_fan_out_text(l, c);
                return Err(fault_error(text, Ghost(WiringFault::InputFanOut(l@, c as nat))));
            }
            j = j + 1;
        }
        Ok(())
    }

    /// Reports the first node output label not consumed exactly once.
    fn check_node_use(&self, table: &Vec<Vec<String>>, used: &Vec<String>) -> (r: Result<(), RsmediaError>)
        requires
            is_label_table(*self, table@),
            label_seqs(used@) == consumed(*self),
        ensures
            r is Ok <==> node_use_fault(*self, 0) is None,
            r matches Err(e) ==> reports(e, node_use_fault(*self, 0)),
    {
        let mut i: usize = 0;
        while i < self.nodes.len()
            invariant
                i <= self.nodes@.len(),
                is_label_table(*self, table@),
                label_seqs(used@) == consumed(*self),
                node_use_fault(*self, 0) == node_use_fault(*self, i as int),
            decreases self.nodes@.len() - i,
        {
            let node = &self.nodes[i];
            let row = &table[i];
            assert(table_row(table@, i as int) == labels_of(*self, i as int));
            let mut m: usize = 0;
            while m < row.len()
                invariant
                    m <= row@.len(),
                    i < self.nodes@.len(),
                    *node == self.nodes@[i as int],
                    label_seqs(row@) == labels_of(*self, i as int),
                    label_seqs(used@) == consumed(*self),
                    node_use_fault(*self, 0) == node_use_fault(*self, i as int),
                    node_label_use_fault(*self, i as int, 0) == node_label_use_fault(*self, i as int, m as int),
                decreases row@.len() - m,
            {
                let l = &row[m];
                assert(l@ == labels_of(*self, i as int)[m as int]);
                let c = count_label(used, l);
                if c == 0 {
                    let multi = row.len() > 1;
                    let text = node_unused_text(node.filter.name, i, l, multi);
                    return Err(fault_error(text, Ghost(WiringFault::NodeOutputUnused(node.filter.name@, i as nat, l@, multi))));
                }
                if c > 1 {
                    let text = node_fan_out_text(l, i, c);
                    return Err(fault_error(text, Ghost(WiringFault::NodeOutputFanOut(l@, i as nat, c as nat))));
                }
                m = m + 1;
            }
            i = i + 1;
        }
        Ok(())
    }

    /// The labelled description of the graph.
    fn describe(&self, table: &Vec<Vec<String>>, wires: &Vec<Vec<String>>) -> (s: String)
        requires
            is_label_table(*self, table@),
            is_wire_table(*self, wires@),
        ensures
            s@ == graph_text(*self),
    {
        let mut s = String::new();
        let mut i: usize = 0;
        while i < self.nodes.len()
            invariant
                i <= self.nodes@.len(),
                is_label_table(*self, table@),
                is_wire_table(*self, wires@),
                s@ == segments_upto(*self, i as int),
            decreases self.nodes@.len() - i,
        {
            if i > 0 {
                push_char(&mut s, ';');
            }
            assert(table_row(wires@, i as int) == wires_of(*self, i as int));
            assert(table_row(table@, i as int) == labels_of(*self, i as int));
            bracket_labels(&mut s, &wires[i]);
            append_str(&mut s, self.nodes[i].filter.spec.as_str());
            bracket_labels(&mut s, &table[i]);
            proof {
                if i == 0 {
                    assert(s@ =~= segment(*self, 0));
                } else {
                    assert(s@ =~= segments_upto(*self, i as int) + seq![';'] + segment(*self, i as int));
                }
            }
            i = i + 1;
        }
        s
    }

    /// Checks the wiring and, when it is sound, gives the labelled graph
    /// description with the graph inputs and outputs under their labels.
    ///
    /// `pads[i]` are the pad counts of node `i`'s filter as this FFmpeg build
    /// reports them, `None` when the build lacks the filter. The first
    /// mistake found, in the order [`first_fault`] looks for them, is
    /// reported as [`RsmediaError::InvalidConfig`].
    pub fn plan(&self, pads: &[Option<PadCounts>]) -> (r: Result<GraphPlan, RsmediaError>)
        requires
            pads@.len() == self.nodes@.len(),
        ensures
            r is Ok <==> first_fault(*self, pads@) is None,
            r matches Err(e) ==> reports(e, first_fault(*self, pads@)),
            r matches Ok(g) ==> plan_of(g, *self),
    {
        if self.inputs.len() == 0 {
            return Err(fault_error(M_NO_INPUT.to_string(), Ghost(WiringFault::NoInput)));
        }
        if self.nodes.len() == 0 {
            return Err(fault_error(M_NO_NODE.to_string(), Ghost(WiringFault::NoNode)));
        }
        if self.outputs.len() == 0 {
            return Err(fault_error(M_NO_OUTPUT.to_string(), Ghost(WiringFault::NoOutput)));
        }
        self.check_inputs()?;
        let table = self.label_table();
        self.check_node_outputs(pads, &table)?;
        let wires = self.wire_table(&table);
        self.check_wires(pads, &table, &wires)?;
        let outs = self.out_label_list(&table);
        self.check_outputs(&table, &outs)?;
        let used = self.consumed_list(&wires, &outs);
        self.check_input_use(&used)?;
        self.check_node_use(&table, &used)?;
        let spec = self.describe(&table, &wires);
        let mut inputs: Vec<(String, Endpoint)> = Vec::new();
        let mut j: usize = 0;
        while j < self.inputs.len()
            invariant
                j <= self.inputs@.len(),
                inputs@.len() == j,
                forall|q: int| 0 <= q < j ==> (#[trigger] inputs@[q]).0@ == in_label(*self, q)
                    && inputs@[q].1 == self.inputs@[q].1,
            decreases self.inputs@.len() - j,
        {
            inputs.push((self.inputs[j].0.clone(), self.inputs[j].1));
            j = j + 1;
        }
        let mut outputs: Vec<(String, Endpoint)> = Vec::new();
        assert(label_seqs(outs@).len() == outs@.len());
        assert(out_labels(*self).len() == self.outputs@.len());
        let mut k: usize = 0;
        while k < outs.len()
            invariant
                k <= outs@.len(),
                outs@.len() == self.outputs@.len(),
                label_seqs(outs@) == out_labels(*self),
                outputs@.len() == k,
                forall|q: int| 0 <= q < k ==> (#[trigger] outputs@[q]).0@ == out_label(*self, q)
                    && outputs@[q].1 == self.outputs@[q].1,
            decreases outs@.len() - k,
        {
            assert(outs@[k as int]@ == out_labels(*self)[k as int]);
            outputs.push((outs[k].clone(), self.outputs[k].1));
            k = k + 1;
        }
        Ok(GraphPlan { spec, inputs, outputs })
    }
}

/// `g` is the plan of the builder `b`: its description, its inputs as
/// declared, its outputs under the labels they take.
pub open spec fn plan_of(g: GraphPlan, b: FilterGraphBuilder) -> bool {
    &&& g.spec@ == graph_text(b)
    &&& g.inputs@.len() == b.inputs@.len()
    &&& forall|j: int| 0 <= j < g.inputs@.len() ==> (#[trigger] g.inputs@[j]).0@ == in_label(b, j)
        && g.inputs@[j].1 == b.inputs@[j].1
    &&& g.outputs@.len() == b.outputs@.len()
    &&& forall|k: int| 0 <= k < g.outputs@.len() ==> (#[trigger] g.outputs@[k]).0@ == out_label(b, k)
        && g.outputs@[k].1 == b.outputs@[k].1
}

// ---------------------------------------------------------------------------
// Ready-made graphs.

/// Sum of the widths of `s`.
pub open spec fn sum_widths(s: Seq<VideoEndpoint>) -> int
    decreases s.len(),
{
    if s.len() == 0 { 0 } else { sum_widths(s.drop_last()) + s.last().width }
}

/// Sum of the heights of `s`.
pub open spec fn sum_heights(s: Seq<VideoEndpoint>) -> int
    decreases s.len(),
{
    if s.len() == 0 { 0 } else { sum_heights(s.drop_last()) + s.last().height }
}

/// The dimension a stack needs equal across its inputs: the height for a
/// horizontal stack, the width for a vertical one; a concatenation needs both.
pub open spec fn stack_key(e: VideoEndpoint, horizontal: bool) -> int {
    if horizontal { e.height as int } else { e.width as int }
}

/// The first input, from `k` on, whose stacking dimension differs from input 0's.
pub open spec fn first_stack_mismatch(s: Seq<VideoEndpoint>, horizontal: bool, k: int) -> Option<int>
    decreases s.len() - k,
{
    if k < 0 || k >= s.len() {
        None
    } else if stack_key(s[k], horizontal) != stack_key(s[0], horizontal) {
        Some(k)
    } else {
        first_stack_mismatch(s, horizontal, k + 1)
    }
}

/// The first input, from `k` on, whose size differs from input 0's.
pub open spec fn first_size_mismatch(s: Seq<VideoEndpoint>, k: int) -> Option<int>
    decreases s.len() - k,
{
    if k < 0 || k >= s.len() {
        None
    } else if s[k].width != s[0].width || s[k].height != s[0].height {
        Some(k)
    } else {
        first_size_mismatch(s, k + 1)
    }
}

/// The graph inputs of `b` are the video endpoints `v`, labelled `in0`, `in1`, ...
pub open spec fn auto_video_inputs(b: FilterGraphBuilder, v: Seq<VideoEndpoint>) -> bool {
    &&& b.inputs@.len() == v.len()
    &&& forall|j: int| 0 <= j < v.len() ==> in_label(b, j) == seq!['i', 'n'] + nat_digits(j as nat)
        && (#[trigger] b.inputs@[j]).1 == Endpoint::Video(v[j])
}

/// The graph inputs of `b` are the audio endpoints `v`, labelled `in0`, `in1`, ...
pub open spec fn auto_audio_inputs(b: FilterGraphBuilder, v: Seq<AudioEndpoint>) -> bool {
    &&& b.inputs@.len() == v.len()
    &&& forall|j: int| 0 <= j < v.len() ==> in_label(b, j) == seq!['i', 'n'] + nat_digits(j as nat)
        && (#[trigger] b.inputs@[j]).1 == Endpoint::Audio(v[j])
}

/// Node `i` of `b` holds a filter of kind `media`, named `name`, with
/// description `spec`, is fed from `wired` and has the single output label `label`.
pub open spec fn node_is(b: FilterGraphBuilder, i: int, media: MediaType, name: Seq<char>, spec: Seq<char>,
    wired: Seq<Seq<char>>, label: Seq<char>) -> bool {
    &&& b.nodes@[i].filter.name@ == name
    &&& b.nodes@[i].filter.media_type == media
    &&& b.nodes@[i].filter.spec@ == spec
    &&& b.nodes@[i].filter.input_format is None
    &&& label_seqs(b.nodes@[i].inputs@) == wired
    &&& label_seqs(b.nodes@[i].outputs@) == seq![label]
}

/// The input labels `in0` .. `in{n-1}`.
pub open spec fn auto_labels(n: nat) -> Seq<Seq<char>> {
    Seq::new(n, |j: int| seq!['i', 'n'] + nat_digits(j as nat))
}

/// After its first node, `b` ends as a ready-made video graph does: a
/// `scale` to the output's size when the first node's natural size
/// `natural` differs from it, and the graph output at the end of the chain.
pub open spec fn video_tail(b: FilterGraphBuilder, natural: (i32, i32), output: VideoEndpoint) -> bool {
    &&& b.outputs@.len() == 1
    &&& b.outputs@[0] == (None::<String>, Endpoint::Video(output))
    &&& if (output.width, output.height) == natural {
        b.nodes@.len() == 1
    } else {
        &&& b.nodes@.len() == 2
        &&& node_is(b, 1, MediaType::VIDEO, "scale"@, "scale=w="@ + nat_digits((output.width as u32) as nat) + ":h="@
            + nat_digits((output.height as u32) as nat) + ":flags="@ + option_escaped(DEFAULT_SCALE_FLAGS@),
            Seq::empty(), "scale"@)
    }
}

/// Text of `{name} needs at least 2 inputs, got {n}`.
pub open spec fn too_few_text(name: Seq<char>, n: nat) -> Seq<char> {
    name + " needs at least 2 inputs, got "@ + nat_digits(n)
}

/// Text of the message naming the input whose size differs along `axis`.
pub open spec fn axis_mismatch_text(name: Seq<char>, axis: Seq<char>, common: int, index: nat, got: int) -> Seq<char> {
    name + " needs every input to have the same "@ + axis + ": input 0 is "@ + int_text(common) + ", input "@
        + nat_digits(index) + " is "@ + int_text(got) + " (insert a scale node to normalise the sizes first)"@
}

/// Text of the message naming the input whose size differs from the first's.
pub open spec fn size_mismatch_text(w0: int, h0: int, index: nat, w: int, h: int) -> Seq<char> {
    "concat needs every input to have the same size: input 0 is "@ + int_text(w0) + "x"@ + int_text(h0) + ", input "@
        + nat_digits(index) + " is "@ + int_text(w) + "x"@ + int_text(h)
        + " (insert a scale node to normalise the sizes first)"@
}

/// Text of the message for an `amix` duration that is not one of the three.
pub open spec fn duration_text(duration: Seq<char>) -> Seq<char> {
    "amix duration must be one of 'longest', 'shortest', 'first', got '"@ + duration + "'"@
}

/// `r` is an [`RsmediaError::InvalidConfig`] reading `text`.
pub open spec fn invalid_with(r: RsmediaError, text: Seq<char>) -> bool {
    r matches RsmediaError::InvalidConfig(m) && m@ == text
}

fn too_few(name: &str, n: usize) -> (e: RsmediaError)
    ensures
        invalid_with(e, too_few_text(name@, n as nat)),
{
    let mut s = name.to_string();
    push_str(&mut s, " needs at least 2 inputs, got ");
    push_u64(&mut s, n as u64);
    RsmediaError::InvalidConfig(s)
}

impl FilterGraphBuilder {
    /// Labels `in0` .. `in{n-1}` of the first `n` graph inputs.
    fn input_labels_upto(&self, count: usize) -> (v: Vec<String>)
        requires
            count <= self.inputs@.len(),
        ensures
            label_seqs(v@) == input_labels(*self).subrange(0, count as int),
    {
        let mut v: Vec<String> = Vec::new();
        let mut j: usize = 0;
        while j < count
            invariant
                j <= count <= self.inputs@.len(),
                label_seqs(v@) == input_labels(*self).subrange(0, j as int),
            decreases count - j,
        {
            let ghost before = v@;
            v.push(self.inputs[j].0.clone());
            proof {
                lemma_input_labels_prefix(*self, j as int);
                assert(label_seqs(v@) =~= label_seqs(before).push(in_label(*self, j as int)));
            }
            j = j + 1;
        }
        v
    }

    /// Closes a ready-made video graph: a `scale` node when the natural
    /// size differs from the output's, then the output at the end of the chain.
    fn finish_video_output(&mut self, natural: (i32, i32), output: VideoEndpoint)
        requires
            old(self).nodes@.len() == 1,
            old(self).outputs@.len() == 0,
        ensures
            final(self).inputs@ == old(self).inputs@,
            final(self).nodes@[0] == old(self).nodes@[0],
            video_tail(*final(self), natural, output),
    {
        if output.width != natural.0 || output.height != natural.1 {
            let filter = scale(#[verifier::truncate] (output.width as u32), #[verifier::truncate] (output.height as u32), None);
            let node = FilterNode::new(filter).with_label("scale");
            assert(label_seqs(node.inputs@) =~= Seq::<Seq<char>>::empty());
            self.add_node(node);
            assert(self.nodes@.len() == 2);
            assert(node_is(*self, 1, MediaType::VIDEO, "scale"@, "scale=w="@ + nat_digits((output.width as u32) as nat) + ":h="@
                + nat_digits((output.height as u32) as nat) + ":flags="@ + option_escaped(DEFAULT_SCALE_FLAGS@),
                Seq::empty(), "scale"@));
        }
        self.add_output_tail(Endpoint::Video(output));
        assert(self.outputs@.len() == 1);
    }

    /// The overlay graph before it is built: graph inputs `base` and `over`,
    /// one `overlay` node at (`x`, `y`) labelled `overlay`, a `scale` to the
    /// output's size when it differs from the base's, and the output.
    pub fn overlay_graph(base: VideoEndpoint, over: VideoEndpoint, x: &str, y: &str, output: VideoEndpoint) -> (b: FilterGraphBuilder)
        ensures
            b.inputs@.len() == 2,
            in_label(b, 0) == "base"@ && b.inputs@[0].1 == Endpoint::Video(base),
            in_label(b, 1) == "over"@ && b.inputs@[1].1 == Endpoint::Video(over),
            node_is(b, 0, MediaType::VIDEO, "overlay"@, "overlay=x="@ + x@ + ":y="@ + y@, seq!["base"@, "over"@], "overlay"@),
            video_tail(b, (base.width, base.height), output),
    {
        let mut b = FilterGraphBuilder::new();
        b.add_input_with("base", Endpoint::Video(base));
        b.add_input_with("over", Endpoint::Video(over));
        let node = FilterNode::new(overlay(x, y, None)).with_inputs(&["base", "over"]);
        let node = node.with_label("overlay");
        b.add_node(node);
        assert(seq!["base", "over"].map_values(|l: &str| l@) =~= seq!["base"@, "over"@]);
        b.finish_video_output((base.width, base.height), output);
        b
    }
}

/// Sum of the stacking dimensions of `s` along the stack: widths side by
/// side, heights top to bottom.
pub open spec fn stack_sum(s: Seq<VideoEndpoint>, horizontal: bool) -> int {
    if horizontal { sum_widths(s) } else { sum_heights(s) }
}

/// Every running total of the stacked dimension fits in an `i32`.
pub open spec fn stack_sums_fit(s: Seq<VideoEndpoint>, horizontal: bool) -> bool {
    forall|k: int| 0 <= k <= s.len() ==> i32::MIN <= #[trigger] stack_sum(s.subrange(0, k), horizontal) <= i32::MAX
}

/// The natural size of a stack of `s`.
pub open spec fn stack_size(s: Seq<VideoEndpoint>, horizontal: bool) -> (i32, i32) {
    if horizontal {
        (sum_widths(s) as i32, s[0].height)
    } else {
        (s[0].width, sum_heights(s) as i32)
    }
}

proof fn lemma_stack_sum_push(s: Seq<VideoEndpoint>, k: int, horizontal: bool)
    requires
        0 <= k < s.len(),
    ensures
        stack_sum(s.subrange(0, k + 1), horizontal) == stack_sum(s.subrange(0, k), horizontal)
            + if horizontal { s[k].width as int } else { s[k].height as int },
{
    assert(s.subrange(0, k + 1).drop_last() =~= s.subrange(0, k));
}

/// The graph inputs `in0` .. of `b` are all declared.
proof fn lemma_auto_labels_video(b: FilterGraphBuilder, v: Seq<VideoEndpoint>)
    requires
        auto_video_inputs(b, v),
    ensures
        input_labels(b).subrange(0, v.len() as int) == auto_labels(v.len()),
{
    assert(input_labels(b).subrange(0, v.len() as int) =~= auto_labels(v.len()));
}

proof fn lemma_auto_labels_audio(b: FilterGraphBuilder, v: Seq<AudioEndpoint>)
    requires
        auto_audio_inputs(b, v),
    ensures
        input_labels(b).subrange(0, v.len() as int) == auto_labels(v.len()),
{
    assert(input_labels(b).subrange(0, v.len() as int) =~= auto_labels(v.len()));
}

impl FilterGraphBuilder {
    /// A builder whose inputs are the video endpoints `inputs`, labelled `in0`, `in1`, ...
    fn with_video_inputs(inputs: &[VideoEndpoint]) -> (b: FilterGraphBuilder)
        ensures
            auto_video_inputs(b, inputs@),
            b.nodes@.len() == 0,
            b.outputs@.len() == 0,
    {
        let mut b = FilterGraphBuilder::new();
        let mut j: usize = 0;
        while j < inputs.len()
            invariant
                j <= inputs@.len(),
                auto_video_inputs(b, inputs@.subrange(0, j as int)),
                b.nodes@.len() == 0,
                b.outputs@.len() == 0,
            decreases inputs@.len() - j,
        {
            let ghost before = b.inputs@;
            b.add_input(Endpoint::Video(inputs[j]));
            assert forall|q: int| 0 <= q < j + 1 implies in_label(b, q) == seq!['i', 'n'] + nat_digits(q as nat)
                && (#[trigger] b.inputs@[q]).1 == Endpoint::Video(inputs@.subrange(0, j + 1)[q]) by {
                if q < j {
                    assert(b.inputs@[q] == before[q]);
                }
            }
            j = j + 1;
        }
        assert(inputs@.subrange(0, j as int) =~= inputs@);
        b
    }

    /// A builder whose inputs are the audio endpoints `inputs`, labelled `in0`, `in1`, ...
    fn with_audio_inputs(inputs: &[AudioEndpoint]) -> (b: FilterGraphBuilder)
        ensures
            auto_audio_inputs(b, inputs@),
            b.nodes@.len() == 0,
            b.outputs@.len() == 0,
    {
        let mut b = FilterGraphBuilder::new();
        let mut j: usize = 0;
        while j < inputs.len()
            invariant
                j <= inputs@.len(),
                auto_audio_inputs(b, inputs@.subrange(0, j as int)),
                b.nodes@.len() == 0,
                b.outputs@.len() == 0,
            decreases inputs@.len() - j,
        {
            let ghost before = b.inputs@;
            b.add_input(Endpoint::Audio(inputs[j]));
            assert forall|q: int| 0 <= q < j + 1 implies in_label(b, q) == seq!['i', 'n'] + nat_digits(q as nat)
                && (#[trigger] b.inputs@[q]).1 == Endpoint::Audio(inputs@.subrange(0, j + 1)[q]) by {
                if q < j {
                    assert(b.inputs@[q] == before[q]);
                }
            }
            j = j + 1;
        }
        assert(inputs@.subrange(0, j as int) =~= inputs@);
        b
    }

    fn stack_graph(inputs: &[VideoEndpoint], output: VideoEndpoint, horizontal: bool) -> (r: Result<FilterGraphBuilder, RsmediaError>)
        requires
            inputs@.len() >= 2 && first_stack_mismatch(inputs@, horizontal, 0) is None
                ==> stack_sums_fit(inputs@, horizontal),
        ensures
            inputs@.len() < 2 ==> (r matches Err(e) && invalid_with(e, too_few_text(
                if horizontal { "hstack"@ } else { "vstack"@ }, inputs@.len()))),
            inputs@.len() >= 2 ==> match first_stack_mismatch(inputs@, horizontal, 0) {
                Some(k) => r matches Err(e) && invalid_with(e, axis_mismatch_text(
                    if horizontal { "hstack"@ } else { "vstack"@ },
                    if horizontal { "height"@ } else { "width"@ },
                    stack_key(inputs@[0], horizontal), k as nat, stack_key(inputs@[k], horizontal))),
                None => r matches Ok(b) && stacked(b, inputs@, output, horizontal),
            },
    {
        let name: &str = if horizontal { "hstack" } else { "vstack" };
        if inputs.len() < 2 {
            return Err(too_few(name, inputs.len()));
        }
        let axis: &str = if horizontal { "height" } else { "width" };
        let common: i32 = if horizontal { inputs[0].height } else { inputs[0].width };
        let mut k: usize = 0;
        while k < inputs.len()
            invariant
                k <= inputs@.len(),
                inputs@.len() >= 2,
                common as int == stack_key(inputs@[0], horizontal),
                name@ == if horizontal { "hstack"@ } else { "vstack"@ },
                axis@ == if horizontal { "height"@ } else { "width"@ },
                first_stack_mismatch(inputs@, horizontal, 0) == first_stack_mismatch(inputs@, horizontal, k as int),
            decreases inputs@.len() - k,
        {
            let got: i32 = if horizontal { inputs[k].height } else { inputs[k].width };
            if got != common {
                let mut s = name.to_string();
                push_str(&mut s, " needs every input to have the same ");
                push_str(&mut s, axis);
                push_str(&mut s, ": input 0 is ");
                push_i64(&mut s, common as i64);
                push_str(&mut s, ", input ");
                push_u64(&mut s, k as u64);
                push_str(&mut s, " is ");
                push_i64(&mut s, got as i64);
                push_str(&mut s, " (insert a scale node to normalise the sizes first)");
                assert(s@ =~= axis_mismatch_text(name@, axis@, common as int, k as nat, got as int));
                return Err(RsmediaError::InvalidConfig(s));
            }
            k = k + 1;
        }
        let mut total: i32 = 0;
        let mut q: usize = 0;
        while q < inputs.len()
            invariant
                q <= inputs@.len(),
                stack_sums_fit(inputs@, horizontal),
                total as int == stack_sum(inputs@.subrange(0, q as int), horizontal),
            decreases inputs@.len() - q,
        {
            proof {
                lemma_stack_sum_push(inputs@, q as int, horizontal);
                assert(i32::MIN <= stack_sum(inputs@.subrange(0, q + 1), horizontal) <= i32::MAX);
            }
            total = total + if horizontal { inputs[q].width } else { inputs[q].height };
            q = q + 1;
        }
        assert(inputs@.subrange(0, q as int) =~= inputs@);
        let natural: (i32, i32) = if horizontal { (total, common) } else { (common, total) };
        let mut b = FilterGraphBuilder::with_video_inputs(inputs);
        let labels = b.input_labels_upto(inputs.len());
        proof {
            lemma_auto_labels_video(b, inputs@);
        }
        let count = #[verifier::truncate] (inputs.len() as u32);
        let filter = if horizontal { hstack(count) } else { vstack(count) };
        let node = FilterNode { filter, inputs: labels, outputs: Vec::new() };
        let node = node.with_label("stack");
        b.add_node(node);
        assert(natural == stack_size(inputs@, horizontal));
        b.finish_video_output(natural, output);
        assert(auto_video_inputs(b, inputs@));
        Ok(b)
    }

    /// The `hstack` graph before it is built: the inputs side by side, left
    /// to right, in a node labelled `stack`, then a `scale` to the output's
    /// size when it differs from the sum of the widths, and the output.
    /// Every input must have the height of the first.
    pub fn hstack_graph(inputs: &[VideoEndpoint], output: VideoEndpoint) -> (r: Result<FilterGraphBuilder, RsmediaError>)
        requires
            inputs@.len() >= 2 && first_stack_mismatch(inputs@, true, 0) is None ==> stack_sums_fit(inputs@, true),
        ensures
            inputs@.len() < 2 ==> (r matches Err(e) && invalid_with(e, too_few_text("hstack"@, inputs@.len()))),
            inputs@.len() >= 2 ==> match first_stack_mismatch(inputs@, true, 0) {
                Some(k) => r matches Err(e) && invalid_with(e, axis_mismatch_text("hstack"@, "height"@,
                    inputs@[0].height as int, k as nat, inputs@[k].height as int)),
                None => r matches Ok(b) && stacked(b, inputs@, output, true),
            },
    {
        Self::stack_graph(inputs, output, true)
    }

    /// The `vstack` graph before it is built: the inputs top to bottom in a
    /// node labelled `stack`, then a `scale` to the output's size when it
    /// differs, and the output. Every input must have the width of the first.
    pub fn vstack_graph(inputs: &[VideoEndpoint], output: VideoEndpoint) -> (r: Result<FilterGraphBuilder, RsmediaError>)
        requires
            inputs@.len() >= 2 && first_stack_mismatch(inputs@, false, 0) is None ==> stack_sums_fit(inputs@, false),
        ensures
            inputs@.len() < 2 ==> (r matches Err(e) && invalid_with(e, too_few_text("vstack"@, inputs@.len()))),
            inputs@.len() >= 2 ==> match first_stack_mismatch(inputs@, false, 0) {
                Some(k) => r matches Err(e) && invalid_with(e, axis_mismatch_text("vstack"@, "width"@,
                    inputs@[0].width as int, k as nat, inputs@[k].width as int)),
                None => r matches Ok(b) && stacked(b, inputs@, output, false),
            },
    {
        Self::stack_graph(inputs, output, false)
    }
}

/// `b` is the stack graph of `inputs` with output `output`.
pub open spec fn stacked(b: FilterGraphBuilder, inputs: Seq<VideoEndpoint>, output: VideoEndpoint, horizontal: bool) -> bool {
    let name = if horizontal { "hstack"@ } else { "vstack"@ };
    &&& auto_video_inputs(b, inputs)
    &&& node_is(b, 0, MediaType::VIDEO, name, (if horizontal { "hstack=inputs="@ } else { "vstack=inputs="@ })
        + nat_digits((inputs.len() as u32) as nat), auto_labels(inputs.len()), "stack"@)
    &&& video_tail(b, stack_size(inputs, horizontal), output)
}

/// Whether `d` is one of the durations `amix` takes: `longest`, `shortest`, `first`.
pub open spec fn amix_duration_ok(d: Seq<char>) -> bool {
    d == "longest"@ || d == "shortest"@ || d == "first"@
}

impl FilterGraphBuilder {
    /// The `concat` graph before it is built: the inputs one after the
    /// other in a node labelled `concat`, then a `scale` to the output's size
    /// when it differs from the inputs', and the output. Every input must
    /// have the size of the first.
    pub fn concat_graph(inputs: &[VideoEndpoint], output: VideoEndpoint) -> (r: Result<FilterGraphBuilder, RsmediaError>)
        ensures
            inputs@.len() < 2 ==> (r matches Err(e) && invalid_with(e, too_few_text("concat"@, inputs@.len()))),
            inputs@.len() >= 2 ==> match first_size_mismatch(inputs@, 0) {
                Some(k) => r matches Err(e) && invalid_with(e, size_mismatch_text(inputs@[0].width as int,
                    inputs@[0].height as int, k as nat, inputs@[k].width as int, inputs@[k].height as int)),
                None => r matches Ok(b) && concatenated(b, inputs@, output),
            },
    {
        if inputs.len() < 2 {
            return Err(too_few("concat", inputs.len()));
        }
        let width = inputs[0].width;
        let height = inputs[0].height;
        let mut k: usize = 0;
        while k < inputs.len()
            invariant
                k <= inputs@.len(),
                inputs@.len() >= 2,
                width == inputs@[0].width,
                height == inputs@[0].height,
                first_size_mismatch(inputs@, 0) == first_size_mismatch(inputs@, k as int),
            decreases inputs@.len() - k,
        {
            let w = inputs[k].width;
            let h = inputs[k].height;
            if w != width || h != height {
                let mut s = "concat needs every input to have the same size: input 0 is ".to_string();
                push_i64(&mut s, width as i64);
                push_str(&mut s, "x");
                push_i64(&mut s, height as i64);
                push_str(&mut s, ", input ");
                push_u64(&mut s, k as u64);
                push_str(&mut s, " is ");
                push_i64(&mut s, w as i64);
                push_str(&mut s, "x");
                push_i64(&mut s, h as i64);
                push_str(&mut s, " (insert a scale node to normalise the sizes first)");
                assert(s@ =~= size_mismatch_text(width as int, height as int, k as nat, w as int, h as int));
                return Err(RsmediaError::InvalidConfig(s));
            }
            k = k + 1;
        }
        let mut b = FilterGraphBuilder::with_video_inputs(inputs);
        let labels = b.input_labels_upto(inputs.len());
        proof {
            lemma_auto_labels_video(b, inputs@);
        }
        let count = #[verifier::truncate] (inputs.len() as u32);
        let node = FilterNode { filter: concat(count), inputs: labels, outputs: Vec::new() };
        let node = node.with_label("concat");
        b.add_node(node);
        b.finish_video_output((width, height), output);
        Ok(b)
    }

    /// The `amix` graph before it is built: the inputs mixed in a node
    /// labelled `amix` that lasts as `duration` says (`longest`, `shortest`
    /// or `first`), and the output.
    pub fn amix_graph(inputs: &[AudioEndpoint], duration: &str, output: AudioEndpoint) -> (r: Result<FilterGraphBuilder, RsmediaError>)
        ensures
            !amix_duration_ok(duration@) ==> (r matches Err(e) && invalid_with(e, duration_text(duration@))),
            amix_duration_ok(duration@) && inputs@.len() < 2 ==> (r matches Err(e)
                && invalid_with(e, too_few_text("amix"@, inputs@.len()))),
            amix_duration_ok(duration@) && inputs@.len() >= 2 ==> (r matches Ok(b) && mixed(b, inputs@, duration@, output)),
    {
        let longest = "longest".to_string();
        let shortest = "shortest".to_string();
        let first = "first".to_string();
        let d = duration.to_string();
        if !(d == longest || d == shortest || d == first) {
            let mut s = "amix duration must be one of 'longest', 'shortest', 'first', got '".to_string();
            push_str(&mut s, duration);
            push_str(&mut s, "'");
            return Err(RsmediaError::InvalidConfig(s));
        }
        if inputs.len() < 2 {
            return Err(too_few("amix", inputs.len()));
        }
        let mut b = FilterGraphBuilder::with_audio_inputs(inputs);
        let labels = b.input_labels_upto(inputs.len());
        proof {
            lemma_auto_labels_audio(b, inputs@);
        }
        let count = #[verifier::truncate] (inputs.len() as u32);
        let node = FilterNode { filter: amix(count, duration), inputs: labels, outputs: Vec::new() };
        let node = node.with_label("amix");
        b.add_node(node);
        b.add_output_tail(Endpoint::Audio(output));
        Ok(b)
    }
}

/// `b` is the concat graph of `inputs` with output `output`.
pub open spec fn concatenated(b: FilterGraphBuilder, inputs: Seq<VideoEndpoint>, output: VideoEndpoint) -> bool {
    &&& auto_video_inputs(b, inputs)
    &&& node_is(b, 0, MediaType::VIDEO, "concat"@, "concat=n="@ + nat_digits((inputs.len() as u32) as nat) + ":v=1:a=0"@,
        auto_labels(inputs.len()), "concat"@)
    &&& video_tail(b, (inputs[0].width, inputs[0].height), output)
}

/// `b` is the amix graph of `inputs` with the given duration and output.
pub open spec fn mixed(b: FilterGraphBuilder, inputs: Seq<AudioEndpoint>, duration: Seq<char>, output: AudioEndpoint) -> bool {
    &&& auto_audio_inputs(b, inputs)
    &&& b.nodes@.len() == 1
    &&& node_is(b, 0, MediaType::AUDIO, "amix"@, "amix=inputs="@ + nat_digits((inputs.len() as u32) as nat) + ":duration="@
        + option_escaped(duration), auto_labels(inputs.len()), "amix"@)
    &&& b.outputs@.len() == 1
    &&& b.outputs@[0] == (None::<String>, Endpoint::Audio(output))
}

} // verus!
