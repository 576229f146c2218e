//! What a running filter graph decides around the work FFmpeg does: whether
//! it may be set up, whether a frame or the end of stream is pushed into an
//! input, what a read from an output means, and when draining stops.
//!
//! The caller does the FFmpeg part (creating the endpoints, pushing frames,
//! reading the sinks) and reports each outcome back here.

use vstd::prelude::*;

use crate::error::RsmediaError;
use crate::filter::graph::{GraphPlan, M_FILTER, M_MISSING_END};
use crate::filter::{params_input, params_media, params_output, Endpoint, Filter, FilterParams};
use crate::flags::{media_type_debug, MediaType};
use crate::text::{join, joined, nat_digits, push_str, push_u64, string_views};

verus! {

/// How far one graph output has been read.
#[derive(Debug, Copy, Clone, PartialEq, Eq, Structural)]
pub enum ProcessState {
    /// Frames may still come.
    Normal,
    /// The last read found no frame for now (`EAGAIN`): more input is needed.
    Drained,
    /// The last read found the end of the stream (`EOF`).
    Flushed,
}

impl ProcessState {
    /// The last read found no frame for now.
    pub fn is_drained(&self) -> (b: bool)
        ensures
            b <==> *self == ProcessState::Drained,
    {
        match self {
            ProcessState::Drained => true,
            _ => false,
        }
    }

    /// The last read found the end of the stream.
    pub fn is_flushed(&self) -> (b: bool)
        ensures
            b <==> *self == ProcessState::Flushed,
    {
        match self {
            ProcessState::Flushed => true,
            _ => false,
        }
    }
}

/// What reading one frame from a graph output (`av_buffersink_get_frame`)
/// came back with.
#[derive(Debug)]
pub enum SinkRead {
    /// A frame.
    Frame,
    /// No frame for now (`EAGAIN`).
    Again,
    /// The end of the stream (`EOF`).
    End,
    /// Any other failure.
    Failed(RsmediaError),
}

/// The bookkeeping of a filter graph: its endpoints by label, which inputs
/// have seen the end of stream, and how far each output has been read.
pub struct GraphState {
    /// The graph was configured and accepts frames.
    pub initialized: bool,
    /// The `buffer`/`buffersink` endpoints exist.
    pub connected: bool,
    /// Per graph input: the end of stream was pushed.
    pub eof_sent: Vec<bool>,
    /// Per graph output: how far it has been read.
    pub states: Vec<ProcessState>,
    /// The label of each graph input.
    pub input_labels: Vec<String>,
    /// The label of each graph output.
    pub output_labels: Vec<String>,
    /// `label=description` of each graph input, quoted when reading fails.
    pub input_specs: Vec<String>,
}

/// The state as plain values.
pub struct GraphStateView {
    pub initialized: bool,
    pub connected: bool,
    pub eof_sent: Seq<bool>,
    pub states: Seq<ProcessState>,
    pub input_labels: Seq<Seq<char>>,
    pub output_labels: Seq<Seq<char>>,
    pub input_specs: Seq<Seq<char>>,
}

impl View for GraphState {
    type V = GraphStateView;

    open spec fn view(&self) -> GraphStateView {
        GraphStateView {
            initialized: self.initialized,
            connected: self.connected,
            eof_sent: self.eof_sent@,
            states: self.states@,
            input_labels: string_views(self.input_labels@),
            output_labels: string_views(self.output_labels@),
            input_specs: string_views(self.input_specs@),
        }
    }
}

pub const M_NOT_INITIALIZED: &'static str = "Filter graph not initialized";
pub const M_ALREADY_INITIALIZED: &'static str = "Filter graph already initialized";
pub const M_INPUT_INDEX: &'static str = "input index ";
pub const M_OUTPUT_INDEX: &'static str = "output index ";
pub const M_OUT_OF_RANGE: &'static str = " out of range: graph has ";
pub const M_INPUTS_END: &'static str = " inputs";
pub const M_OUTPUTS_END: &'static str = " outputs";
pub const M_CHAIN_FILTER: &'static str = "Filter '";
pub const M_CHAIN_MISMATCH: &'static str = "' media type mismatch: expected ";
pub const M_CHAIN_GOT: &'static str = ", got ";
pub const M_READ_OUTPUT: &'static str = "filter graph output ";
pub const M_READ_MIDDLE: &'static str = " produced no frame; a frequent cause is an input frame whose pixel/sample format or size differs from the one declared for that graph input, which FFmpeg reports only as EINVAL. Declared inputs: [";
pub const M_READ_END: &'static str = "]. Convert the frame to the declared format (e.g. MediaFrame::convert_to) or declare the format you actually feed";
pub const M_STALLED: &'static str = "Filter graph stalled while flushing: still no output after ";
pub const M_STALLED_MIDDLE: &'static str = " iterations; ";
pub const M_STALLED_END: &'static str = " already-dequeued frames are discarded";
pub const SINGLE_INPUT_LABEL: &'static str = "in";
pub const SINGLE_OUTPUT_LABEL: &'static str = "out";

/// `"input index I out of range: graph has N inputs"` (or outputs).
pub open spec fn out_of_range_text(output: bool, index: nat, count: nat) -> Seq<char> {
    (if output { M_OUTPUT_INDEX@ } else { M_INPUT_INDEX@ }) + nat_digits(index) + M_OUT_OF_RANGE@ + nat_digits(count)
        + (if output { M_OUTPUTS_END@ } else { M_INPUTS_END@ })
}

/// The context put on a failed read of output `output`, quoting the declared inputs.
pub open spec fn read_failure_text(output: nat, specs: Seq<Seq<char>>) -> Seq<char> {
    M_READ_OUTPUT@ + nat_digits(output) + M_READ_MIDDLE@ + joined(specs, ", "@) + M_READ_END@
}

/// The message of a drain that gave up after `limit` empty reads.
pub open spec fn stalled_text(limit: nat, dequeued: nat) -> Seq<char> {
    M_STALLED@ + nat_digits(limit) + M_STALLED_MIDDLE@ + nat_digits(dequeued) + M_STALLED_END@
}

/// The state of output `output`; `Normal` for an output that does not exist
/// (yet): nothing has been read from it.
pub open spec fn state_of(v: GraphStateView, output: int) -> ProcessState {
    if 0 <= output < v.states.len() { v.states[output] } else { ProcessState::Normal }
}

/// What pushing into input `input` comes to.
pub enum PushStep {
    NotInitialized,
    OutOfRange,
    /// The end of stream was pushed before: nothing more is pushed.
    AlreadyEnded,
    Push,
}

pub open spec fn push_step(v: GraphStateView, input: int, eof: bool) -> PushStep {
    if !v.initialized {
        PushStep::NotInitialized
    } else if input >= v.eof_sent.len() {
        PushStep::OutOfRange
    } else if eof && v.eof_sent[input] {
        PushStep::AlreadyEnded
    } else {
        PushStep::Push
    }
}

/// The state after deciding a push: a first end of stream is recorded.
pub open spec fn after_push(v: GraphStateView, input: int, eof: bool) -> GraphStateView {
    if push_step(v, input, eof) is Push && eof {
        GraphStateView { eof_sent: v.eof_sent.update(input, true), ..v }
    } else {
        v
    }
}

/// The state after a read of output `output` came back with `read`.
pub open spec fn after_read(v: GraphStateView, output: int, read: SinkRead) -> GraphStateView {
    match read {
        SinkRead::Again => GraphStateView { states: v.states.update(output, ProcessState::Drained), ..v },
        SinkRead::End => GraphStateView { states: v.states.update(output, ProcessState::Flushed), ..v },
        _ => v,
    }
}

/// Why a single-input chain cannot be set up: the filter at an index is
/// missing from FFmpeg, or is of another media kind than the chain.
pub enum ChainFault {
    Missing(nat),
    Mismatch(nat),
}

/// The first filter, from index `i` on, that is missing or of the wrong kind.
pub open spec fn chain_fault_from(kind: MediaType, filters: Seq<Filter>, available: Seq<bool>, i: int) -> Option<ChainFault>
    decreases filters.len() - i,
{
    if i < 0 || i >= filters.len() {
        None
    } else if !available[i] {
        Some(ChainFault::Missing(i as nat))
    } else if filters[i].media_type != kind {
        Some(ChainFault::Mismatch(i as nat))
    } else {
        chain_fault_from(kind, filters, available, i + 1)
    }
}

/// The filters' descriptions joined with `,`: a chain FFmpeg wires in order.
pub open spec fn chain_text(filters: Seq<Filter>) -> Seq<char> {
    joined(Seq::new(filters.len(), |i: int| filters[i].spec@), ","@)
}

/// The message for a chain filter of another media kind than the chain.
pub open spec fn chain_mismatch_text(f: Filter, kind: MediaType) -> Seq<char> {
    M_CHAIN_FILTER@ + f.name@ + M_CHAIN_MISMATCH@ + media_type_debug(kind) + M_CHAIN_GOT@ + media_type_debug(f.media_type)
}

/// `e` is an `InvalidConfig` error reading `m`.
pub open spec fn invalid_with(e: RsmediaError, m: Seq<char>) -> bool {
    e matches RsmediaError::InvalidConfig(t) && t@ == m
}

/// The plan of a single-input chain: its text, the input `in` and the output
/// `out` with their formats.
pub open spec fn chain_plan(g: GraphPlan, params: FilterParams, filters: Seq<Filter>) -> bool {
    &&& g.spec@ == chain_text(filters)
    &&& g.inputs@.len() == 1
    &&& g.inputs@[0].0@ == SINGLE_INPUT_LABEL@
    &&& g.inputs@[0].1 == params_input(params)
    &&& g.outputs@.len() == 1
    &&& g.outputs@[0].0@ == SINGLE_OUTPUT_LABEL@
    &&& g.outputs@[0].1 == params_output(params)
}

/// The state set up for one graph input and one output, before FFmpeg has
/// the endpoints.
pub open spec fn chain_state(v: GraphStateView, old: GraphStateView) -> bool {
    &&& v.input_labels == seq![SINGLE_INPUT_LABEL@]
    &&& v.output_labels == seq![SINGLE_OUTPUT_LABEL@]
    &&& v.eof_sent == seq![false]
    &&& v.states == seq![ProcessState::Normal]
    &&& v.initialized == old.initialized
    &&& v.connected == old.connected
    &&& v.input_specs == old.input_specs
}

fn out_of_range(output: bool, index: usize, count: usize) -> (e: RsmediaError)
    ensures
        invalid_with(e, out_of_range_text(output, index as nat, count as nat)),
{
    let mut s = if output { M_OUTPUT_INDEX.to_string() } else { M_INPUT_INDEX.to_string() };
    push_u64(&mut s, index as u64);
    push_str(&mut s, M_OUT_OF_RANGE);
    push_u64(&mut s, count as u64);
    push_str(&mut s, if output { M_OUTPUTS_END } else { M_INPUTS_END });
    RsmediaError::InvalidConfig(s)
}

impl GraphState {
    /// A graph with no endpoints that is not set up yet.
    pub fn new() -> (g: GraphState)
        ensures
            !g@.initialized,
            !g@.connected,
            g@.eof_sent.len() == 0,
            g@.states.len() == 0,
            g@.input_labels.len() == 0,
            g@.output_labels.len() == 0,
            g@.input_specs.len() == 0,
    {
        GraphState {
            initialized: false,
            connected: false,
            eof_sent: Vec::new(),
            states: Vec::new(),
            input_labels: Vec::new(),
            output_labels: Vec::new(),
            input_specs: Vec::new(),
        }
    }

    /// The state for a checked multi-input plan: its input and output labels,
    /// each input quoted as `label=description`, no end of stream pushed and
    /// nothing read yet. Not set up until FFmpeg has the endpoints.
    pub fn for_plan(plan: &GraphPlan, descriptions: &[String]) -> (g: GraphState)
        requires
            descriptions@.len() == plan.inputs@.len(),
        ensures
            !g@.initialized,
            !g@.connected,
            g@.input_labels.len() == plan.inputs@.len(),
            forall|i: int| 0 <= i < plan.inputs@.len() ==> #[trigger] g@.input_labels[i] == plan.inputs@[i].0@,
            g@.output_labels.len() == plan.outputs@.len(),
            forall|i: int| 0 <= i < plan.outputs@.len() ==> #[trigger] g@.output_labels[i] == plan.outputs@[i].0@,
            g@.input_specs.len() == plan.inputs@.len(),
            forall|i: int| 0 <= i < plan.inputs@.len() ==>
                #[trigger] g@.input_specs[i] == plan.inputs@[i].0@ + "="@ + descriptions@[i]@,
            g@.eof_sent == Seq::new(plan.inputs@.len(), |i: int| false),
            g@.states == Seq::new(plan.outputs@.len(), |i: int| ProcessState::Normal),
    {
        let mut g = GraphState::new();
        let mut i: usize = 0;
        while i < plan.inputs.len()
            invariant
                i <= plan.inputs@.len(),
                descriptions@.len() == plan.inputs@.len(),
                !g.initialized,
                !g.connected,
                g.states@.len() == 0,
                g.output_labels@.len() == 0,
                g.input_labels@.len() == i,
                g.input_specs@.len() == i,
                g.eof_sent@ == Seq::new(i as nat, |k: int| false),
                forall|k: int| 0 <= k < i ==> #[trigger] g.input_labels@[k]@ == plan.inputs@[k].0@,
                forall|k: int| 0 <= k < i ==> #[trigger] g.input_specs@[k]@ == plan.inputs@[k].0@ + "="@ + descriptions@[k]@,
            decreases plan.inputs@.len() - i,
        {
            let label = plan.inputs[i].0.clone();
            let mut quoted = label.clone();
            push_str(&mut quoted, "=");
            push_str(&mut quoted, descriptions[i].as_str());
            g.input_labels.push(label);
            g.input_specs.push(quoted);
            g.eof_sent.push(false);
            assert(g.eof_sent@ =~= Seq::new((i + 1) as nat, |k: int| false));
            i = i + 1;
        }
        let mut j: usize = 0;
        while j < plan.outputs.len()
            invariant
                j <= plan.outputs@.len(),
                !g.initialized,
                !g.connected,
                g.input_labels@.len() == plan.inputs@.len(),
                g.input_specs@.len() == plan.inputs@.len(),
                g.eof_sent@ == Seq::new(plan.inputs@.len(), |k: int| false),
                forall|k: int| 0 <= k < plan.inputs@.len() ==> #[trigger] g.input_labels@[k]@ == plan.inputs@[k].0@,
                forall|k: int| 0 <= k < plan.inputs@.len() ==> #[trigger] g.input_specs@[k]@ == plan.inputs@[k].0@ + "="@ + descriptions@[k]@,
                g.output_labels@.len() == j,
                g.states@ == Seq::new(j as nat, |k: int| ProcessState::Normal),
                forall|k: int| 0 <= k < j ==> #[trigger] g.output_labels@[k]@ == plan.outputs@[k].0@,
            decreases plan.outputs@.len() - j,
        {
            g.output_labels.push(plan.outputs[j].0.clone());
            g.states.push(ProcessState::Normal);
            assert(g.states@ =~= Seq::new((j + 1) as nat, |k: int| ProcessState::Normal));
            j = j + 1;
        }
        g
    }

    /// Checks a single-input chain and sets up its bookkeeping: one input
    /// `in`, one output `out`, the filters joined with `,`.
    ///
    /// Refused when the graph is already set up, or, at the first filter in
    /// order that fails, when FFmpeg lacks it (`available[i]` is false) or it
    /// is of another media kind than the chain; the state is then unchanged.
    pub fn begin_chain(&mut self, params: &FilterParams, filters: &[Filter], available: &[bool]) -> (r: Result<GraphPlan, RsmediaError>)
        requires
            available@.len() == filters@.len(),
        ensures
            old(self)@.initialized ==> (r matches Err(e) && invalid_with(e, M_ALREADY_INITIALIZED@)),
            !old(self)@.initialized ==> match chain_fault_from(params_media(*params), filters@, available@, 0) {
                Some(ChainFault::Missing(i)) => r matches Err(e)
                    && invalid_with(e, M_FILTER@ + filters@[i as int].name@ + M_MISSING_END@),
                Some(ChainFault::Mismatch(i)) => r matches Err(e)
                    && invalid_with(e, chain_mismatch_text(filters@[i as int], params_media(*params))),
                None => r is Ok,
            },
            r is Err ==> final(self)@ == old(self)@,
            r matches Ok(g) ==> chain_plan(g, *params, filters@) && chain_state(final(self)@, old(self)@),
    {
        if self.initialized {
            return Err(RsmediaError::invalid_config(M_ALREADY_INITIALIZED));
        }
        let kind = params.media_type();
        let mut specs: Vec<String> = Vec::new();
        let mut i: usize = 0;
        while i < filters.len()
            invariant
                i <= filters@.len(),
                available@.len() == filters@.len(),
                kind == params_media(*params),
                !old(self)@.initialized,
                chain_fault_from(kind, filters@, available@, 0) == chain_fault_from(kind, filters@, available@, i as int),
                specs@.len() == i,
                forall|k: int| 0 <= k < i ==> #[trigger] specs@[k]@ == filters@[k].spec@,
            decreases filters@.len() - i,
        {
            let f = &filters[i];
            if !available[i] {
                let mut m = M_FILTER.to_string();
                push_str(&mut m, f.name);
                push_str(&mut m, M_MISSING_END);
                return Err(RsmediaError::InvalidConfig(m));
            }
            if f.media_type != kind {
                let mut m = M_CHAIN_FILTER.to_string();
                push_str(&mut m, f.name);
                push_str(&mut m, M_CHAIN_MISMATCH);
                let expected = kind.debug_name();
                push_str(&mut m, expected.as_str());
                push_str(&mut m, M_CHAIN_GOT);
                let got = f.media_type.debug_name();
                push_str(&mut m, got.as_str());
                return Err(RsmediaError::InvalidConfig(m));
            }
            specs.push(f.spec.clone());
            i = i + 1;
        }
        let text = join(specs.as_slice(), ",");
        proof {
            assert(string_views(specs@) =~= Seq::new(filters@.len(), |k: int| filters@[k].spec@));
        }
        let input = params.input_endpoint();
        let output = params.output_endpoint();
        let mut inputs: Vec<(String, Endpoint)> = Vec::new();
        inputs.push((SINGLE_INPUT_LABEL.to_string(), input));
        let mut outputs: Vec<(String, Endpoint)> = Vec::new();
        outputs.push((SINGLE_OUTPUT_LABEL.to_string(), output));
        let mut input_labels: Vec<String> = Vec::new();
        input_labels.push(SINGLE_INPUT_LABEL.to_string());
        let mut output_labels: Vec<String> = Vec::new();
        output_labels.push(SINGLE_OUTPUT_LABEL.to_string());
        let mut eof_sent: Vec<bool> = Vec::new();
        eof_sent.push(false);
        let mut states: Vec<ProcessState> = Vec::new();
        states.push(ProcessState::Normal);
        self.input_labels = input_labels;
        self.output_labels = output_labels;
        self.eof_sent = eof_sent;
        self.states = states;
        proof {
            assert(string_views(self.input_labels@) =~= seq![SINGLE_INPUT_LABEL@]);
            assert(string_views(self.output_labels@) =~= seq![SINGLE_OUTPUT_LABEL@]);
            assert(self.eof_sent@ =~= seq![false]);
            assert(self.states@ =~= seq![ProcessState::Normal]);
        }
        Ok(GraphPlan { spec: text, inputs, outputs })
    }

    /// FFmpeg now has the graph's `buffer` and `buffersink` endpoints.
    pub fn endpoints_ready(&mut self)
        ensures
            final(self)@ == (GraphStateView { connected: true, ..old(self)@ }),
    {
        self.connected = true;
    }

    /// FFmpeg configured the graph: it accepts frames from now on.
    pub fn configured(&mut self)
        ensures
            final(self)@ == (GraphStateView { initialized: true, ..old(self)@ }),
    {
        self.initialized = true;
    }

    /// Forgets the graph, to build it anew: not set up, no endpoints, nothing
    /// pushed or read. The quoted input descriptions stay.
    pub fn reset(&mut self)
        ensures
            !final(self)@.initialized,
            !final(self)@.connected,
            final(self)@.eof_sent.len() == 0,
            final(self)@.states.len() == 0,
            final(self)@.input_labels.len() == 0,
            final(self)@.output_labels.len() == 0,
            final(self)@.input_specs == old(self)@.input_specs,
    {
        self.initialized = false;
        self.connected = false;
        self.eof_sent = Vec::new();
        self.states = Vec::new();
        self.input_labels = Vec::new();
        self.output_labels = Vec::new();
    }

    /// The graph is configured and accepts frames.
    pub fn is_initialized(&self) -> (b: bool)
        ensures
            b == self@.initialized,
    {
        self.initialized
    }

    /// How far output `output` has been read; `Normal` for an output the
    /// graph does not have (yet).
    pub fn state_at(&self, output: usize) -> (s: ProcessState)
        ensures
            s == state_of(self@, output as int),
    {
        if output < self.states.len() {
            self.states[output]
        } else {
            ProcessState::Normal
        }
    }

    /// The main output (index 0) has no frame for now.
    pub fn is_drained(&self) -> (b: bool)
        ensures
            b <==> state_of(self@, 0) == ProcessState::Drained,
    {
        self.is_drained_at(0)
    }

    /// Output `output` has no frame for now.
    pub fn is_drained_at(&self, output: usize) -> (b: bool)
        ensures
            b <==> state_of(self@, output as int) == ProcessState::Drained,
    {
        self.state_at(output).is_drained()
    }

    /// The main output (index 0) reached the end of the stream.
    pub fn is_flushed(&self) -> (b: bool)
        ensures
            b <==> state_of(self@, 0) == ProcessState::Flushed,
    {
        self.is_flushed_at(0)
    }

    /// Output `output` reached the end of the stream.
    pub fn is_flushed_at(&self, output: usize) -> (b: bool)
        ensures
            b <==> state_of(self@, output as int) == ProcessState::Flushed,
    {
        self.state_at(output).is_flushed()
    }

    /// The number of graph inputs FFmpeg has endpoints for.
    pub fn input_count(&self) -> (n: usize)
        ensures
            n == if self@.connected { self@.input_labels.len() } else { 0 },
    {
        if self.connected { self.input_labels.len() } else { 0 }
    }

    /// The number of graph outputs FFmpeg has endpoints for.
    pub fn output_count(&self) -> (n: usize)
        ensures
            n == if self@.connected { self@.output_labels.len() } else { 0 },
    {
        if self.connected { self.output_labels.len() } else { 0 }
    }

    /// Decides a push into input `input` of a frame (`eof` false) or of the
    /// end of stream (`eof` true): `Ok(true)` when it goes to FFmpeg,
    /// `Ok(false)` for a repeated end of stream, which FFmpeg would refuse,
    /// an error when the graph is not set up or has no such input.
    pub fn push_decision(&mut self, input: usize, eof: bool) -> (r: Result<bool, RsmediaError>)
        ensures
            final(self)@ == after_push(old(self)@, input as int, eof),
            match push_step(old(self)@, input as int, eof) {
                PushStep::NotInitialized => r matches Err(e) && invalid_with(e, M_NOT_INITIALIZED@),
                PushStep::OutOfRange => r matches Err(e)
                    && invalid_with(e, out_of_range_text(false, input as nat, old(self)@.eof_sent.len())),
                PushStep::AlreadyEnded => r == Ok::<bool, RsmediaError>(false),
                PushStep::Push => r == Ok::<bool, RsmediaError>(true),
            },
    {
        if !self.initialized {
            return Err(RsmediaError::invalid_config(M_NOT_INITIALIZED));
        }
        if input >= self.eof_sent.len() {
            return Err(out_of_range(false, input, self.eof_sent.len()));
        }
        if eof {
            if self.eof_sent[input] {
                return Ok(false);
            }
            self.eof_sent.set(input, true);
        }
        Ok(true)
    }

    /// Checks that output `output` exists before it is read.
    pub fn check_output(&self, output: usize) -> (r: Result<(), RsmediaError>)
        ensures
            r is Ok <==> output < self@.states.len(),
            r matches Err(e) ==> invalid_with(e, out_of_range_text(true, output as nat, self@.states.len())),
    {
        if output >= self.states.len() {
            return Err(out_of_range(true, output, self.states.len()));
        }
        Ok(())
    }

    /// Records what a read of output `output` came back with: `Ok(true)` for
    /// a frame; `Ok(false)` for no frame now (the output is `Drained`) or the
    /// end of the stream (`Flushed`); any other failure comes back with the
    /// declared inputs quoted, since a frame that does not match its input's
    /// declaration is the usual cause and FFmpeg says only `EINVAL`.
    pub fn record_read(&mut self, output: usize, read: SinkRead) -> (r: Result<bool, RsmediaError>)
        requires
            output < old(self)@.states.len(),
        ensures
            final(self)@ == after_read(old(self)@, output as int, read),
            match read {
                SinkRead::Frame => r == Ok::<bool, RsmediaError>(true),
                SinkRead::Again => r == Ok::<bool, RsmediaError>(false),
                SinkRead::End => r == Ok::<bool, RsmediaError>(false),
                SinkRead::Failed(e) => r matches Err(w)
                    && crate::error::is_context_of(w, e, read_failure_text(output as nat, old(self)@.input_specs)),
            },
    {
        match read {
            SinkRead::Frame => Ok(true),
            SinkRead::Again => {
                self.states.set(output, ProcessState::Drained);
                Ok(false)
            },
            SinkRead::End => {
                self.states.set(output, ProcessState::Flushed);
                Ok(false)
            },
            SinkRead::Failed(e) => {
                let mut m = M_READ_OUTPUT.to_string();
                push_u64(&mut m, output as u64);
                push_str(&mut m, M_READ_MIDDLE);
                let quoted = join(self.input_specs.as_slice(), ", ");
                push_str(&mut m, quoted.as_str());
                push_str(&mut m, M_READ_END);
                Err(e.with_context(m.as_str()))
            },
        }
    }

    /// Decides whether draining output `output` has anything to do:
    /// `Ok(false)` when it already reached the end of the stream, an error
    /// when the graph is not set up or has no such output.
    pub fn begin_drain(&self, output: usize) -> (r: Result<bool, RsmediaError>)
        ensures
            !self@.initialized ==> (r matches Err(e) && invalid_with(e, M_NOT_INITIALIZED@)),
            self@.initialized && output >= self@.states.len() ==> (r matches Err(e)
                && invalid_with(e, out_of_range_text(true, output as nat, self@.states.len()))),
            self@.initialized && output < self@.states.len() ==>
                r == Ok::<bool, RsmediaError>(self@.states[output as int] != ProcessState::Flushed),
    {
        if !self.initialized {
            return Err(RsmediaError::invalid_config(M_NOT_INITIALIZED));
        }
        if output >= self.states.len() {
            return Err(out_of_range(true, output, self.states.len()));
        }
        Ok(!self.states[output].is_flushed())
    }

    /// Decides, after a read of output `output` found no frame while
    /// draining, whether to stop (`Ok(None)`: the end of the stream was
    /// reached), to read again (`Ok(Some(n))`, `n` the empty reads so far), or
    /// to give up after `limit` empty reads in a row, discarding the
    /// `dequeued` frames already taken out.
    pub fn after_empty_read(&self, output: usize, iterations: usize, dequeued: usize, limit: usize) -> (r: Result<Option<usize>, RsmediaError>)
        requires
            output < self@.states.len(),
        ensures
            self@.states[output as int] == ProcessState::Flushed ==> r == Ok::<Option<usize>, RsmediaError>(None),
            self@.states[output as int] != ProcessState::Flushed && iterations >= limit ==>
                (r matches Err(e) && e matches RsmediaError::Other(m) && m@ == stalled_text(limit as nat, dequeued as nat)),
            self@.states[output as int] != ProcessState::Flushed && iterations < limit ==>
                r == Ok::<Option<usize>, RsmediaError>(Some((iterations + 1) as usize)),
    {
        if self.states[output].is_flushed() {
            return Ok(None);
        }
        if iterations >= limit {
            let mut m = M_STALLED.to_string();
            push_u64(&mut m, limit as u64);
            push_str(&mut m, M_STALLED_MIDDLE);
            push_u64(&mut m, dequeued as u64);
            push_str(&mut m, M_STALLED_END);
            return Err(RsmediaError::Other(m));
        }
        Ok(Some(iterations + 1))
    }
}

/// The end of stream reaches an input at most once: once pushed, a second
/// one is not pushed again and leaves the state as it is.
pub proof fn law_eof_pushed_once(v: GraphStateView, input: int)
    requires
        v.initialized,
        0 <= input < v.eof_sent.len(),
    ensures
        push_step(after_push(v, input, true), input, true) is AlreadyEnded,
        after_push(after_push(v, input, true), input, true) == after_push(v, input, true),
{
}

/// Pushing frames never records an end of stream, and a read changes only
/// the state of the output read.
pub proof fn law_reads_and_pushes_are_local(v: GraphStateView, input: int, output: int, other: int, read: SinkRead)
    requires
        0 <= output < v.states.len(),
        0 <= other < v.states.len(),
        other != output,
    ensures
        after_push(v, input, false) == v,
        after_read(v, output, read).states[other] == v.states[other],
        after_read(v, output, read).states.len() == v.states.len(),
        after_read(v, output, read).eof_sent == v.eof_sent,
{
}

} // verus!
