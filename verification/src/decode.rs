//! What a decoder decides around the work FFmpeg does: the formats its
//! filter chain runs between, and what a decoder with no frame to give
//! does next.

use vstd::prelude::*;

use crate::error::RsmediaError;
use crate::filter::runtime::ProcessState;
use crate::filter::{AudioParams, Filter, FilterParams, Rational, VideoParams};
use crate::flags::{media_type_debug, MediaType};
use crate::fmt::{FrameFormat, PixelFormat, SampleFormat};
use crate::text::{nat_digits, push_str, push_u64};

verus! {

/// The input format the first filter of a chain that declares one asks for.
pub open spec fn declared_input(filters: Seq<Filter>) -> Option<FrameFormat>
    decreases filters.len(),
{
    if filters.len() == 0 {
        None
    } else if filters[0].input_format is Some {
        filters[0].input_format
    } else {
        declared_input(filters.drop_first())
    }
}

/// The input format of a filter chain: the first one a filter declares;
/// frames are converted to it before they enter the graph.
pub fn first_input_format(filters: &[Filter]) -> (r: Option<FrameFormat>)
    ensures
        r == declared_input(filters@),
{
    let mut i: usize = 0;
    assert(filters@.subrange(0, filters@.len() as int) =~= filters@);
    while i < filters.len()
        invariant
            i <= filters@.len(),
            declared_input(filters@) == declared_input(filters@.subrange(i as int, filters@.len() as int)),
        decreases filters@.len() - i,
    {
        proof {
            let rest = filters@.subrange(i as int, filters@.len() as int);
            assert(rest.drop_first() =~= filters@.subrange(i + 1, filters@.len() as int));
            assert(rest[0] == filters@[i as int]);
        }
        if filters[i].input_format.is_some() {
            return filters[i].input_format;
        }
        i = i + 1;
    }
    None
}

/// What the decoder reports of the stream its filter chain is set up for.
#[derive(Debug, Copy, Clone, PartialEq, Eq, Structural)]
pub struct DecodedStream {
    pub width: i32,
    pub height: i32,
    pub nb_channels: i32,
    pub sample_rate: i32,
    /// The sample format the codec decodes to.
    pub native_sample_format: SampleFormat,
    pub time_base: Rational,
    pub frame_rate: Rational,
    pub pixel_aspect: Rational,
}

pub const M_NO_FILTER_KIND: &'static str = "Unsupported filter for media type: ";

/// The parameters of a decoder's filter chain: frames leave it in the
/// decoder's output format (for audio, the one asked for, else the codec's
/// own) and enter it in the format the chain declares, else the same.
pub open spec fn decode_params(media_type: MediaType, stream: DecodedStream, output_pix_fmt: PixelFormat,
    output_sample_fmt: Option<SampleFormat>, input: Option<FrameFormat>) -> Option<FilterParams> {
    match media_type {
        MediaType::VIDEO => Some(FilterParams::Video(VideoParams {
            width: stream.width,
            height: stream.height,
            format: output_pix_fmt,
            src_format: match input {
                Some(FrameFormat::Pixel(p)) => p,
                _ => output_pix_fmt,
            },
            time_base: stream.time_base,
            frame_rate: stream.frame_rate,
            pixel_aspect: stream.pixel_aspect,
        })),
        MediaType::AUDIO => {
            let out = match output_sample_fmt {
                Some(f) => f,
                None => stream.native_sample_format,
            };
            Some(FilterParams::Audio(AudioParams {
                nb_channels: stream.nb_channels,
                sample_rate: stream.sample_rate,
                format: out,
                src_format: match input {
                    Some(FrameFormat::Sample(s)) => s,
                    _ => out,
                },
                time_base: stream.time_base,
            }))
        },
        _ => None,
    }
}

/// The parameters a decoder sets its filter chain up with (see
/// [`decode_params`]); only video and audio decoders have one.
pub fn decode_filter_params(media_type: MediaType, stream: DecodedStream, output_pix_fmt: PixelFormat,
    output_sample_fmt: Option<SampleFormat>, input: Option<FrameFormat>) -> (r: Result<FilterParams, RsmediaError>)
    ensures
        match decode_params(media_type, stream, output_pix_fmt, output_sample_fmt, input) {
            Some(p) => r == Ok::<FilterParams, RsmediaError>(p),
            None => r matches Err(e) && e matches RsmediaError::Other(m) && m@ == M_NO_FILTER_KIND@ + media_type_debug(media_type),
        },
{
    match media_type {
        MediaType::VIDEO => {
            let src = match input {
                Some(FrameFormat::Pixel(p)) => p,
                _ => output_pix_fmt,
            };
            Ok(FilterParams::Video(VideoParams {
                width: stream.width,
                height: stream.height,
                format: output_pix_fmt,
                src_format: src,
                time_base: stream.time_base,
                frame_rate: stream.frame_rate,
                pixel_aspect: stream.pixel_aspect,
            }))
        },
        MediaType::AUDIO => {
            let out = match output_sample_fmt {
                Some(f) => f,
                None => stream.native_sample_format,
            };
            let src = match input {
                Some(FrameFormat::Sample(s)) => s,
                _ => out,
            };
            Ok(FilterParams::Audio(AudioParams {
                nb_channels: stream.nb_channels,
                sample_rate: stream.sample_rate,
                format: out,
                src_format: src,
                time_base: stream.time_base,
            }))
        },
        _ => {
            let mut m = M_NO_FILTER_KIND.to_string();
            let shown = media_type.debug_name();
            push_str(&mut m, shown.as_str());
            Err(RsmediaError::Other(m))
        },
    }
}

/// What a decoder that has no frame to give does next.
#[derive(Debug, Copy, Clone, PartialEq, Eq, Structural)]
pub enum EmptyDecode {
    /// More packets are needed (while reading or draining): the filter chain
    /// must not be told the stream ended, or later frames would be refused.
    NeedInput,
    /// The decoder reached the end: the filter chain gives out what it still holds.
    FlushFilter,
    /// Nothing more will come.
    Finished,
}

/// After the codec had no frame: before the end of stream, wait for input;
/// at the end, drive a filter chain that is not flushed yet; else finished.
pub open spec fn empty_decode(state: ProcessState, filter_pending: bool) -> EmptyDecode {
    if state != ProcessState::Flushed {
        EmptyDecode::NeedInput
    } else if filter_pending {
        EmptyDecode::FlushFilter
    } else {
        EmptyDecode::Finished
    }
}

/// Decides what a decoder with no frame does (see [`empty_decode`]);
/// `filter_pending` says there is a filter chain that has not reached its end.
pub fn after_empty_decode(state: ProcessState, filter_pending: bool) -> (r: EmptyDecode)
    ensures
        r == empty_decode(state, filter_pending),
{
    match state {
        ProcessState::Normal | ProcessState::Drained => EmptyDecode::NeedInput,
        ProcessState::Flushed => if filter_pending { EmptyDecode::FlushFilter } else { EmptyDecode::Finished },
    }
}

/// The chain's output format is the decoder's output format, whatever the
/// chain declares for its input: the decoder's promise about the frames it
/// hands out holds with or without filters.
pub proof fn law_filters_keep_the_output_format(stream: DecodedStream, output_pix_fmt: PixelFormat,
    output_sample_fmt: Option<SampleFormat>, input: Option<FrameFormat>)
    ensures
        decode_params(MediaType::VIDEO, stream, output_pix_fmt, output_sample_fmt, input) matches Some(FilterParams::Video(v))
            && v.format == output_pix_fmt,
        output_sample_fmt matches Some(f) ==> (decode_params(MediaType::AUDIO, stream, output_pix_fmt, output_sample_fmt, input)
            matches Some(FilterParams::Audio(a)) && a.format == f),
{
}


pub const M_DECODE_AFTER_FLUSH: &'static str = "Decoder cannot decode after flushed. Call reset().";

/// Decoding is refused once the whole pipeline (decoder and filter chain)
/// has finished; frames still held by the filter chain can be taken until then.
pub fn decode_guard(finished: bool) -> (r: Result<(), RsmediaError>)
    ensures
        r is Ok <==> !finished,
        r matches Err(e) ==> (e matches RsmediaError::InvalidConfig(m) && m@ == M_DECODE_AFTER_FLUSH@),
{
    if finished {
        return Err(RsmediaError::invalid_config(M_DECODE_AFTER_FLUSH));
    }
    Ok(())
}

/// What reading the next packet from the container gave.
#[derive(Debug, Copy, Clone, PartialEq, Eq, Structural)]
pub enum PacketSource {
    /// A packet of the stream with this index.
    Packet(usize),
    /// No packet is left.
    Exhausted,
}

/// What the decode loop does with it.
#[derive(Debug, Copy, Clone, PartialEq, Eq, Structural)]
pub enum ReadAction {
    /// A packet of another stream: read on.
    Skip,
    /// A packet of the decoded stream: decode it.
    Decode,
    /// No more packets: from now on drain the decoder.
    StartDraining,
}

/// The decode loop's reading step: packets of the decoder's own stream
/// (`ours`) are decoded, others skipped, and the end of the input starts
/// the draining.
pub fn read_action(source: PacketSource, ours: usize) -> (r: ReadAction)
    ensures
        r == match source {
            PacketSource::Packet(i) => if i == ours { ReadAction::Decode } else { ReadAction::Skip },
            PacketSource::Exhausted => ReadAction::StartDraining,
        },
{
    match source {
        PacketSource::Packet(i) => if i == ours { ReadAction::Decode } else { ReadAction::Skip },
        PacketSource::Exhausted => ReadAction::StartDraining,
    }
}

pub const M_DECODE_STUCK: &'static str = "Decoder keeps returning EAGAIN after EOF, aborting after ";
pub const M_DECODE_STUCK_END: &'static str = " iterations";

/// The decode loop's draining step after the decoder gave nothing: while it
/// is still `drained` (it holds frames back), drain again, counting the empty
/// rounds (`Ok(Some(n))`), until `limit` of them, then give up: the output
/// would otherwise end cut short without anyone knowing. Once the decoder is
/// at the end, the loop finishes (`Ok(None)`).
pub fn after_empty_drain(drained: bool, iterations: usize, limit: usize) -> (r: Result<Option<usize>, RsmediaError>)
    requires
        iterations < usize::MAX,
    ensures
        !drained ==> r == Ok::<Option<usize>, RsmediaError>(None),
        drained && iterations < limit ==> r == Ok::<Option<usize>, RsmediaError>(Some((iterations + 1) as usize)),
        drained && iterations >= limit ==> (r matches Err(e) && e matches RsmediaError::Other(m)
            && m@ == M_DECODE_STUCK@ + nat_digits(limit as nat) + M_DECODE_STUCK_END@),
{
    if !drained {
        return Ok(None);
    }
    if iterations >= limit {
        let mut m = M_DECODE_STUCK.to_string();
        push_u64(&mut m, limit as u64);
        push_str(&mut m, M_DECODE_STUCK_END);
        return Err(RsmediaError::Other(m));
    }
    Ok(Some(iterations + 1))
}

/// How a decoder being dropped empties itself.
#[derive(Debug, Copy, Clone, PartialEq, Eq, Structural)]
pub enum DrainPlan {
    /// Nothing to drain: a subtitle decoder has no frame queue, and a
    /// flushed decoder has no frame left.
    Skip,
    /// Send the end of stream, then take the frames left.
    SendEndThenDrain,
    /// The end of stream was sent already: take the frames left.
    Drain,
}

/// How a decoder of `media_type` in `state` empties itself when dropped.
pub open spec fn drain_plan(media_type: MediaType, state: ProcessState) -> DrainPlan {
    if media_type == MediaType::SUBTITLE || state == ProcessState::Flushed {
        DrainPlan::Skip
    } else if state == ProcessState::Normal {
        DrainPlan::SendEndThenDrain
    } else {
        DrainPlan::Drain
    }
}

/// Decides how a dropped decoder empties itself (see [`drain_plan`]).
pub fn drop_drain_plan(media_type: MediaType, state: ProcessState) -> (r: DrainPlan)
    ensures
        r == drain_plan(media_type, state),
{
    if media_type == MediaType::SUBTITLE {
        return DrainPlan::Skip;
    }
    match state {
        ProcessState::Flushed => DrainPlan::Skip,
        ProcessState::Normal => DrainPlan::SendEndThenDrain,
        ProcessState::Drained => DrainPlan::Drain,
    }
}

/// What one read from the decoder (`avcodec_receive_frame`) gave.
#[derive(Debug, Copy, Clone, PartialEq, Eq, Structural)]
pub enum FrameRead {
    Frame,
    /// No frame.
    Empty,
    Failed,
}

/// Whether a dropped decoder reads again after its `reads`-th read gave
/// `read` (the decoder then being `drained` or not): on a frame, or on no
/// frame while it still holds frames back, as long as fewer than `limit`
/// reads were made; at the end of the stream or on a failure it stops.
pub fn drop_drain_continues(read: FrameRead, drained: bool, reads: usize, limit: usize) -> (b: bool)
    ensures
        b <==> reads < limit && (read == FrameRead::Frame || (read == FrameRead::Empty && drained)),
{
    let more = match read {
        FrameRead::Frame => true,
        FrameRead::Empty => drained,
        FrameRead::Failed => false,
    };
    more && reads < limit
}

/// A dropped decoder that was flushed, or decodes subtitles, does no
/// draining; one that was reading sends the end of stream exactly once, and
/// one that had sent it already only takes the frames left.
pub proof fn law_drop_sends_end_once(media_type: MediaType, state: ProcessState)
    ensures
        drain_plan(media_type, ProcessState::Flushed) == DrainPlan::Skip,
        drain_plan(MediaType::SUBTITLE, state) == DrainPlan::Skip,
        drain_plan(media_type, state) == DrainPlan::SendEndThenDrain ==> state == ProcessState::Normal,
        media_type != MediaType::SUBTITLE ==> drain_plan(media_type, ProcessState::Normal) == DrainPlan::SendEndThenDrain,
        media_type != MediaType::SUBTITLE ==> drain_plan(media_type, ProcessState::Drained) == DrainPlan::Drain,
{
}


/// A decoder's filter chain runs at the decoded stream's own size, time
/// base, frame rate and pixel aspect (video), or channel count, sample rate
/// and time base (audio), and hands frames out in the decoder's output
/// format; other media kinds have no chain.
pub proof fn law_chain_runs_at_stream_timing(media_type: MediaType, stream: DecodedStream, output_pix_fmt: PixelFormat,
    output_sample_fmt: Option<SampleFormat>, input: Option<FrameFormat>)
    ensures
        media_type == MediaType::VIDEO ==> (decode_params(media_type, stream, output_pix_fmt, output_sample_fmt, input)
            matches Some(FilterParams::Video(v)) && v.width == stream.width && v.height == stream.height
            && v.time_base == stream.time_base && v.frame_rate == stream.frame_rate
            && v.pixel_aspect == stream.pixel_aspect && v.format == output_pix_fmt
            && (input matches Some(FrameFormat::Pixel(p)) ==> v.src_format == p)
            && (!(input matches Some(FrameFormat::Pixel(_))) ==> v.src_format == output_pix_fmt)),
        media_type == MediaType::AUDIO ==> (decode_params(media_type, stream, output_pix_fmt, output_sample_fmt, input)
            matches Some(FilterParams::Audio(a)) && a.nb_channels == stream.nb_channels
            && a.sample_rate == stream.sample_rate && a.time_base == stream.time_base
            && a.format == (if output_sample_fmt is Some { output_sample_fmt->0 } else { stream.native_sample_format })
            && (input matches Some(FrameFormat::Sample(f)) ==> a.src_format == f)
            && (!(input matches Some(FrameFormat::Sample(_))) ==> a.src_format == a.format)),
        media_type != MediaType::VIDEO && media_type != MediaType::AUDIO
            ==> decode_params(media_type, stream, output_pix_fmt, output_sample_fmt, input) is None,
{
}

/// A decoder with no frame waits for input until the end of the stream; at
/// the end, a filter chain that still holds frames is driven, and otherwise
/// nothing more comes.
pub proof fn law_empty_decode(filter_pending: bool)
    ensures
        empty_decode(ProcessState::Normal, filter_pending) == EmptyDecode::NeedInput,
        empty_decode(ProcessState::Drained, filter_pending) == EmptyDecode::NeedInput,
        filter_pending ==> empty_decode(ProcessState::Flushed, filter_pending) == EmptyDecode::FlushFilter,
        !filter_pending ==> empty_decode(ProcessState::Flushed, filter_pending) == EmptyDecode::Finished,
{
}

/// A chain's input format is the one the earliest filter that declares one
/// asks for; a chain none of whose filters declares one has none.
pub proof fn law_first_declared_input(filters: Seq<Filter>)
    ensures
        (forall|i: int| 0 <= i < filters.len() ==> (#[trigger] filters[i]).input_format is None)
            ==> declared_input(filters) is None,
        forall|i: int| 0 <= i < filters.len() && (#[trigger] filters[i]).input_format is Some
            && (forall|j: int| 0 <= j < i ==> filters[j].input_format is None)
            ==> declared_input(filters) == filters[i].input_format,
    decreases filters.len(),
{
    if filters.len() > 0 {
        let rest = filters.drop_first();
        law_first_declared_input(rest);
        assert forall|i: int| 0 <= i < filters.len() && (#[trigger] filters[i]).input_format is Some
            && (forall|j: int| 0 <= j < i ==> filters[j].input_format is None)
            implies declared_input(filters) == filters[i].input_format by {
            if i > 0 {
                assert(filters[0].input_format is None);
                assert(rest[i - 1] == filters[i]);
                assert forall|j: int| 0 <= j < i - 1 implies rest[j].input_format is None by {
                    assert(rest[j] == filters[j + 1]);
                }
            }
        }
        if forall|i: int| 0 <= i < filters.len() ==> (#[trigger] filters[i]).input_format is None {
            assert(filters[0].input_format is None);
            assert forall|i: int| 0 <= i < rest.len() implies (#[trigger] rest[i]).input_format is None by {
                assert(rest[i] == filters[i + 1]);
            }
        }
    }
}

} // verus!
