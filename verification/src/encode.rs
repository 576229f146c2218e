//! What an encoder decides around the work FFmpeg does: the time base and
//! bit rate it is set up with, which settings and frames its codec accepts,
//! and when sending, reading and flushing stop.

use vstd::prelude::*;

use crate::codec::{channel_counts, passes, CodecConfig};
use crate::error::{is_context_of, RsmediaError};
use crate::filter::runtime::ProcessState;
use crate::filter::Rational;
use crate::flags::{media_type_debug, MediaType};
use crate::text::{int_text, nat_digits, push_i64, push_str, push_u64};

verus! {

/// Bit rate of a video encoder that was given none (1 Mbps).
pub const VIDEO_BIT_RATE: i64 = 1_000_000;
/// Bit rate of an audio encoder that was given none (128 kbps, as the
/// `ffmpeg` command line's `-b:a`).
pub const AUDIO_BIT_RATE: i64 = 128_000;
/// Subtitles are timed in milliseconds.
pub const SUBTITLE_TIME_BASE_DEN: i32 = 1000;
/// FFmpeg's microsecond time base, for media kinds with no time base of their own.
pub const MICROSECOND_DEN: i32 = 1_000_000;

/// The time base an encoder is set up with: one tick per frame for video
/// (`1/fps`), one per sample for audio (`1/sample_rate`), a millisecond for
/// subtitles, a microsecond for anything else.
pub open spec fn time_base_for(media_type: MediaType, frame_rate: Rational, sample_rate: i32) -> Rational {
    match media_type {
        MediaType::VIDEO => Rational { num: frame_rate.den, den: frame_rate.num },
        MediaType::AUDIO => Rational { num: 1, den: sample_rate },
        MediaType::SUBTITLE => Rational { num: 1, den: SUBTITLE_TIME_BASE_DEN },
        _ => Rational { num: 1, den: MICROSECOND_DEN },
    }
}

/// The encoder's time base (see [`time_base_for`]).
pub fn effective_time_base(media_type: MediaType, frame_rate: Rational, sample_rate: i32) -> (r: Rational)
    ensures
        r == time_base_for(media_type, frame_rate, sample_rate),
{
    match media_type {
        MediaType::VIDEO => Rational { num: frame_rate.den, den: frame_rate.num },
        MediaType::AUDIO => Rational { num: 1, den: sample_rate },
        MediaType::SUBTITLE => Rational { num: 1, den: SUBTITLE_TIME_BASE_DEN },
        _ => Rational { num: 1, den: MICROSECOND_DEN },
    }
}

/// The bit rate an encoder is set up with: a positive rate asked through the
/// quality setting wins; otherwise the rate given, or the default of the
/// media kind (audio 128 kbps, anything else 1 Mbps).
pub open spec fn bit_rate_for(media_type: MediaType, bit_rate: Option<i64>, quality_bit_rate: Option<i64>) -> i64 {
    match quality_bit_rate {
        Some(q) if q > 0 => q,
        _ => match bit_rate {
            Some(b) => b,
            None => if media_type == MediaType::AUDIO { AUDIO_BIT_RATE } else { VIDEO_BIT_RATE },
        },
    }
}

/// The encoder's bit rate (see [`bit_rate_for`]); `quality_bit_rate` is the
/// rate a bit-rate quality setting asks for, if one was made.
pub fn effective_bit_rate(media_type: MediaType, bit_rate: Option<i64>, quality_bit_rate: Option<i64>) -> (r: i64)
    ensures
        r == bit_rate_for(media_type, bit_rate, quality_bit_rate),
{
    match quality_bit_rate {
        Some(q) if q > 0 => q,
        _ => match bit_rate {
            Some(b) => b,
            None => if media_type == MediaType::AUDIO { AUDIO_BIT_RATE } else { VIDEO_BIT_RATE },
        },
    }
}

/// FFmpeg's "no timestamp" (`AV_NOPTS_VALUE`).
pub const NO_PTS: i64 = i64::MIN;

/// The timing fields of a frame about to be encoded.
#[derive(Debug, Copy, Clone, PartialEq, Eq, Structural)]
pub struct FrameTiming {
    pub pts: i64,
    pub time_base: Rational,
    /// Samples per second of an audio frame; 0 when not declared.
    pub sample_rate: i32,
    /// Samples per channel of an audio frame.
    pub nb_samples: i32,
}

/// The frame with its sample rate and time base settled: an audio frame
/// that declares no rate takes the encoder's; a timestamp in another valid
/// time base becomes `rescaled` (the same instant in the encoder's input
/// time base); the time base becomes the encoder's input time base.
pub open spec fn settled(frame: FrameTiming, media_type: MediaType, input_time_base: Rational, sample_rate: i32, rescaled: i64) -> FrameTiming {
    let rate = if media_type == MediaType::AUDIO && frame.sample_rate <= 0 { sample_rate } else { frame.sample_rate };
    let moves = frame.pts != NO_PTS && frame.time_base.num > 0 && frame.time_base.den > 0 && frame.time_base != input_time_base;
    FrameTiming {
        pts: if moves { rescaled } else { frame.pts },
        time_base: input_time_base,
        sample_rate: rate,
        nb_samples: frame.nb_samples,
    }
}

/// Whether the encoder numbers the frame: not for audio with a fixed frame
/// size, whose output frames are numbered by sample position as they are cut.
pub open spec fn numbers(media_type: MediaType, frame_size: i32) -> bool {
    !(media_type == MediaType::AUDIO && frame_size > 0)
}

/// The timestamp a numbered frame gets: its own, or the next free one.
pub open spec fn numbered_pts(t: FrameTiming, next_pts: i64) -> i64 {
    if t.pts == NO_PTS { next_pts } else { t.pts }
}

/// How far a numbered frame moves the counter: one tick per video frame,
/// one per sample (at least one) for audio.
pub open spec fn pts_step(media_type: MediaType, nb_samples: i32) -> int {
    if media_type == MediaType::AUDIO {
        if nb_samples > 1 { nb_samples as int } else { 1 }
    } else {
        1
    }
}

/// Settles a frame's sample rate, time base and timestamp before it is
/// encoded (see [`settled`]), and numbers it unless it is audio for an
/// encoder with a fixed frame size: a frame without a timestamp gets
/// `next_pts`, and the counter moves past the frame's timestamp, so frames
/// without one continue the timeline after frames with one.
///
/// `rescaled_pts` is the frame's timestamp converted from its time base to
/// `input_time_base` (`av_rescale_q`); it is used only when the two differ.
pub fn assign_pts_sample_rate(next_pts: &mut i64, frame: &mut FrameTiming, media_type: MediaType, input_time_base: Rational,
    sample_rate: i32, frame_size: i32, rescaled_pts: i64)
    requires
        numbers(media_type, frame_size) ==> numbered_pts(settled(*old(frame), media_type, input_time_base, sample_rate, rescaled_pts), *old(next_pts))
            + pts_step(media_type, old(frame).nb_samples) <= i64::MAX,
    ensures
        !numbers(media_type, frame_size) ==> *final(frame) == settled(*old(frame), media_type, input_time_base, sample_rate, rescaled_pts)
            && *final(next_pts) == *old(next_pts),
        numbers(media_type, frame_size) ==> {
            let t = settled(*old(frame), media_type, input_time_base, sample_rate, rescaled_pts);
            &&& *final(frame) == (FrameTiming { pts: numbered_pts(t, *old(next_pts)), ..t })
            &&& *final(next_pts) == numbered_pts(t, *old(next_pts)) + pts_step(media_type, old(frame).nb_samples)
        },
{
    let is_audio = media_type == MediaType::AUDIO;
    if is_audio && frame.sample_rate <= 0 {
        frame.sample_rate = sample_rate;
    }
    let tb = frame.time_base;
    let same = tb.num == input_time_base.num && tb.den == input_time_base.den;
    if frame.pts != NO_PTS && tb.num > 0 && tb.den > 0 && !same {
        frame.pts = rescaled_pts;
    }
    frame.time_base = input_time_base;
    if is_audio && frame_size > 0 {
        return;
    }
    if frame.pts == NO_PTS {
        frame.pts = *next_pts;
    }
    let step: i64 = if is_audio {
        if frame.nb_samples > 1 { frame.nb_samples as i64 } else { 1 }
    } else {
        1
    };
    *next_pts = frame.pts + step;
}

/// Numbering continues the timeline: a frame without a timestamp gets the
/// counter's value and a frame with one keeps it, and either way the counter
/// ends up one step past the frame.
pub proof fn law_numbering_continues(t: FrameTiming, next_pts: i64, media_type: MediaType)
    ensures
        t.pts == NO_PTS ==> numbered_pts(t, next_pts) == next_pts,
        t.pts != NO_PTS ==> numbered_pts(t, next_pts) == t.pts,
        pts_step(media_type, t.nb_samples) >= 1,
{
}

/// The encoder used for video when none is named.
pub const DEFAULT_VIDEO_CODEC: &'static str = "libx264";
/// The encoder used for audio when none is named.
pub const DEFAULT_AUDIO_CODEC: &'static str = "aac";
/// The encoder used for subtitles when none is named (a text format; MP4
/// needs `mov_text`).
pub const DEFAULT_SUBTITLE_CODEC: &'static str = "subrip";
pub const M_UNSUPPORTED_MEDIA: &'static str = "Unsupported media type:";

/// The encoder's name: the one given, else the default of the media kind;
/// other kinds have none.
pub fn encoder_codec_name(explicit: Option<&str>, media_type: MediaType) -> (r: Result<String, RsmediaError>)
    ensures
        explicit matches Some(n) ==> (r matches Ok(s) && s@ == n@),
        explicit is None ==> match media_type {
            MediaType::VIDEO => r matches Ok(s) && s@ == DEFAULT_VIDEO_CODEC@,
            MediaType::AUDIO => r matches Ok(s) && s@ == DEFAULT_AUDIO_CODEC@,
            MediaType::SUBTITLE => r matches Ok(s) && s@ == DEFAULT_SUBTITLE_CODEC@,
            _ => r matches Err(e) && e matches RsmediaError::Other(m) && m@ == M_UNSUPPORTED_MEDIA@ + media_type_debug(media_type),
        },
{
    match explicit {
        Some(n) => Ok(n.to_string()),
        None => match media_type {
            MediaType::VIDEO => Ok(DEFAULT_VIDEO_CODEC.to_string()),
            MediaType::AUDIO => Ok(DEFAULT_AUDIO_CODEC.to_string()),
            MediaType::SUBTITLE => Ok(DEFAULT_SUBTITLE_CODEC.to_string()),
            _ => {
                let mut m = M_UNSUPPORTED_MEDIA.to_string();
                let shown = media_type.debug_name();
                push_str(&mut m, shown.as_str());
                Err(RsmediaError::Other(m))
            },
        },
    }
}

pub const M_MAX_BIT_RATE: &'static str = "max_bit_rate";
pub const M_BUFFER_SIZE: &'static str = "buffer_size";
pub const M_MUST_BE_POSITIVE: &'static str = " must be positive, got ";

/// A limit that is given and not positive.
pub open spec fn nonpositive(limit: Option<i64>) -> bool {
    limit is Some && limit->0 <= 0
}

/// The rate-control limits, when given, must be positive: the first one
/// that is not, in the order maximum bit rate then buffer size, is refused.
pub fn check_rate_limits(max_bit_rate: Option<i64>, buffer_size: Option<i64>) -> (r: Result<(), RsmediaError>)
    ensures
        nonpositive(max_bit_rate) ==> (r matches Err(e) && e matches RsmediaError::InvalidConfig(m)
            && m@ == M_MAX_BIT_RATE@ + M_MUST_BE_POSITIVE@ + int_text(max_bit_rate->0 as int)),
        !nonpositive(max_bit_rate) && nonpositive(buffer_size) ==> (r matches Err(e)
            && e matches RsmediaError::InvalidConfig(m) && m@ == M_BUFFER_SIZE@ + M_MUST_BE_POSITIVE@ + int_text(buffer_size->0 as int)),
        r is Ok <==> !nonpositive(max_bit_rate) && !nonpositive(buffer_size),
{
    if let Some(v) = max_bit_rate {
        if v <= 0 {
            let mut m = M_MAX_BIT_RATE.to_string();
            push_str(&mut m, M_MUST_BE_POSITIVE);
            push_i64(&mut m, v);
            return Err(RsmediaError::InvalidConfig(m));
        }
    }
    if let Some(w) = buffer_size {
        if w <= 0 {
            let mut m = M_BUFFER_SIZE.to_string();
            push_str(&mut m, M_MUST_BE_POSITIVE);
            push_i64(&mut m, w);
            return Err(RsmediaError::InvalidConfig(m));
        }
    }
    Ok(())
}

pub const M_BUFFER_SIZE_RANGE: &'static str = "buffer_size ";
pub const M_BUFFER_SIZE_RANGE_END: &'static str = " exceeds the i32 range of AVCodecContext.rc_buffer_size";

/// The buffer size as the codec context's 32-bit field holds it; one that
/// does not fit is refused.
pub fn buffer_size_field(buffer_size: i64) -> (r: Result<i32, RsmediaError>)
    ensures
        i32::MIN <= buffer_size <= i32::MAX ==> r == Ok::<i32, RsmediaError>(buffer_size as i32),
        !(i32::MIN <= buffer_size <= i32::MAX) ==> (r matches Err(e) && e matches RsmediaError::InvalidConfig(m)
            && m@ == M_BUFFER_SIZE_RANGE@ + int_text(buffer_size as int) + M_BUFFER_SIZE_RANGE_END@),
{
    if buffer_size < i32::MIN as i64 || buffer_size > i32::MAX as i64 {
        let mut m = M_BUFFER_SIZE_RANGE.to_string();
        push_i64(&mut m, buffer_size);
        push_str(&mut m, M_BUFFER_SIZE_RANGE_END);
        return Err(RsmediaError::InvalidConfig(m));
    }
    Ok(buffer_size as i32)
}

pub const M_CODEC_KIND: &'static str = "Encoder codec type not supported: ";
pub const M_CODEC_KIND_VS: &'static str = " vs. ";

/// The codec must be of the media kind the encoder is for: FFmpeg's number
/// of the kind equals the codec's `codec_type`.
pub fn check_codec_kind(media_type: MediaType, codec_type: i32) -> (r: Result<(), RsmediaError>)
    ensures
        r is Ok <==> crate::flags::media_type_code(media_type) == codec_type,
        r matches Err(e) ==> (e matches RsmediaError::Other(m)
            && m@ == M_CODEC_KIND@ + media_type_debug(media_type) + M_CODEC_KIND_VS@ + int_text(codec_type as int)),
{
    if media_type.raw() != codec_type {
        let mut m = M_CODEC_KIND.to_string();
        let shown = media_type.debug_name();
        push_str(&mut m, shown.as_str());
        push_str(&mut m, M_CODEC_KIND_VS);
        push_i64(&mut m, codec_type as i64);
        return Err(RsmediaError::Other(m));
    }
    Ok(())
}

pub const M_ENCODER: &'static str = "encoder '";
pub const M_NO_CHANNELS: &'static str = "' does not support nb_channels ";
pub const M_NO_SAMPLE_RATE: &'static str = "' does not support sample rate ";

/// Checks an audio encoder's channel count and sample rate against its
/// codec, in that order, before FFmpeg is set up.
pub fn check_audio_settings(config: &CodecConfig, nb_channels: i32, sample_rate: i32) -> (r: Result<(), RsmediaError>)
    ensures
        !(match channel_counts(config.layout_channels) { None => true, Some(c) => c.contains(nb_channels) }) ==>
            (r matches Err(e) && e matches RsmediaError::InvalidConfig(m)
                && m@ == M_ENCODER@ + config.name@ + M_NO_CHANNELS@ + int_text(nb_channels as int)),
        (match channel_counts(config.layout_channels) { None => true, Some(c) => c.contains(nb_channels) })
            && !passes(config.sample_rates, sample_rate) ==>
            (r matches Err(e) && e matches RsmediaError::InvalidConfig(m)
                && m@ == M_ENCODER@ + config.name@ + M_NO_SAMPLE_RATE@ + int_text(sample_rate as int)),
        r is Ok <==> (match channel_counts(config.layout_channels) { None => true, Some(c) => c.contains(nb_channels) })
            && passes(config.sample_rates, sample_rate),
{
    if !config.is_support_channel_count(nb_channels) {
        let mut m = M_ENCODER.to_string();
        push_str(&mut m, config.name.as_str());
        push_str(&mut m, M_NO_CHANNELS);
        push_i64(&mut m, nb_channels as i64);
        return Err(RsmediaError::InvalidConfig(m));
    }
    if !config.is_support_sample_rate(sample_rate) {
        let mut m = M_ENCODER.to_string();
        push_str(&mut m, config.name.as_str());
        push_str(&mut m, M_NO_SAMPLE_RATE);
        push_i64(&mut m, sample_rate as i64);
        return Err(RsmediaError::InvalidConfig(m));
    }
    Ok(())
}

/// What the frame check reads of a frame about to be encoded.
#[derive(Debug, Copy, Clone, PartialEq, Eq, Structural)]
pub struct FrameFacts {
    /// The frame lives in hardware memory (`hw_frames_ctx` is set).
    pub hardware: bool,
    /// Pixel or sample format, by FFmpeg's number.
    pub format: i32,
    pub sample_rate: i32,
}

pub const M_BAD_PIXEL_FORMAT: &'static str = "Unsupported video encoder frame pixel format: ";
pub const M_BAD_SAMPLE_FORMAT: &'static str = "Unsupported encode audio frame sample format: ";
pub const M_BAD_SAMPLE_RATE: &'static str = "Unsupported encode audio frame sample rate: ";

/// Why a frame cannot go to the encoder, if it cannot.
pub enum FrameFault {
    PixelFormat,
    SampleFormat,
    SampleRate,
}

/// A video frame in software memory must have a pixel format the codec
/// takes (a hardware frame's format is the device's own); an audio frame a
/// sample format and then a sample rate the codec takes. The end of stream
/// (`None`) and other media kinds pass.
pub open spec fn frame_fault(media_type: MediaType, config: CodecConfig, frame: Option<FrameFacts>) -> Option<FrameFault> {
    match frame {
        None => None,
        Some(f) => match media_type {
            MediaType::VIDEO => if !f.hardware && !passes(config.pixel_formats, f.format) { Some(FrameFault::PixelFormat) } else { None },
            MediaType::AUDIO => if !passes(config.sample_formats, f.format) {
                Some(FrameFault::SampleFormat)
            } else if !passes(config.sample_rates, f.sample_rate) {
                Some(FrameFault::SampleRate)
            } else {
                None
            },
            _ => None,
        },
    }
}

/// Checks a frame before it goes to the encoder (see [`frame_fault`]).
pub fn check_frame(media_type: MediaType, config: &CodecConfig, frame: Option<FrameFacts>) -> (r: Result<(), RsmediaError>)
    ensures
        match frame_fault(media_type, *config, frame) {
            None => r is Ok,
            Some(FrameFault::PixelFormat) => r matches Err(e) && e matches RsmediaError::Other(m)
                && m@ == M_BAD_PIXEL_FORMAT@ + int_text(frame->0.format as int),
            Some(FrameFault::SampleFormat) => r matches Err(e) && e matches RsmediaError::Other(m)
                && m@ == M_BAD_SAMPLE_FORMAT@ + int_text(frame->0.format as int),
            Some(FrameFault::SampleRate) => r matches Err(e) && e matches RsmediaError::Other(m)
                && m@ == M_BAD_SAMPLE_RATE@ + int_text(frame->0.sample_rate as int),
        },
{
    let f = match frame {
        None => return Ok(()),
        Some(f) => f,
    };
    match media_type {
        MediaType::VIDEO => {
            if f.hardware {
                return Ok(());
            }
            if !config.is_support_pixel_format(f.format) {
                let mut m = M_BAD_PIXEL_FORMAT.to_string();
                push_i64(&mut m, f.format as i64);
                return Err(RsmediaError::Other(m));
            }
        },
        MediaType::AUDIO => {
            if !config.is_support_sample_format(f.format) {
                let mut m = M_BAD_SAMPLE_FORMAT.to_string();
                push_i64(&mut m, f.format as i64);
                return Err(RsmediaError::Other(m));
            }
            if !config.is_support_sample_rate(f.sample_rate) {
                let mut m = M_BAD_SAMPLE_RATE.to_string();
                push_i64(&mut m, f.sample_rate as i64);
                return Err(RsmediaError::Other(m));
            }
        },
        _ => {},
    }
    Ok(())
}

pub const M_UNSUPPORTED_KIND: &'static str = "Unsupported encode frame media type: ";

/// A frame of a kind the encoder converts (video or audio) passes; any
/// other kind is refused, naming it.
pub fn check_convertible(media_type: MediaType) -> (r: Result<(), RsmediaError>)
    ensures
        r is Ok <==> (media_type == MediaType::VIDEO || media_type == MediaType::AUDIO),
        r matches Err(e) ==> (e matches RsmediaError::Other(m) && m@ == M_UNSUPPORTED_KIND@ + media_type_debug(media_type)),
{
    match media_type {
        MediaType::VIDEO | MediaType::AUDIO => Ok(()),
        _ => {
            let mut m = M_UNSUPPORTED_KIND.to_string();
            let shown = media_type.debug_name();
            push_str(&mut m, shown.as_str());
            Err(RsmediaError::Other(m))
        },
    }
}

pub const M_EAGAIN: &'static str = "Encoder keeps returning EAGAIN after ";
pub const M_EAGAIN_EOF: &'static str = " retries (eof: ";
pub const M_EAGAIN_END: &'static str = "); aborting";

/// After the encoder refused input with `EAGAIN` for the `retries`-th time
/// in a row (counting from 0): the new count, when another try is allowed
/// (after taking out the packets that are ready); an error once more than
/// `limit` tries were refused, which an encoder that keeps refusing after the
/// end of stream would otherwise cause forever.
pub fn retry_after_again(retries: usize, eof: bool, limit: usize) -> (r: Result<usize, RsmediaError>)
    requires
        retries <= limit,
    ensures
        retries < limit ==> r == Ok::<usize, RsmediaError>((retries + 1) as usize),
        retries == limit ==> (r matches Err(e) && e matches RsmediaError::Other(m)
            && m@ == M_EAGAIN@ + nat_digits(limit as nat) + M_EAGAIN_EOF@ + (if eof { "true"@ } else { "false"@ }) + M_EAGAIN_END@),
{
    if retries >= limit {
        let mut m = M_EAGAIN.to_string();
        push_u64(&mut m, limit as u64);
        push_str(&mut m, M_EAGAIN_EOF);
        push_str(&mut m, if eof { "true" } else { "false" });
        push_str(&mut m, M_EAGAIN_END);
        return Err(RsmediaError::Other(m));
    }
    Ok(retries + 1)
}

/// What a read from the encoder (`avcodec_receive_packet`) came back with.
#[derive(Debug)]
pub enum PacketRead {
    /// A packet.
    Packet,
    /// No packet for now (`EAGAIN`).
    Again,
    /// The encoder is fully flushed (`EOF`).
    End,
    /// Any other failure, as FFmpeg's text.
    Failed(RsmediaError),
}

/// Records a read from the encoder: `Ok(true)` for a packet, `Ok(false)`
/// for none. No packet for now leaves the state as it is (more input may be
/// needed, which is not the end of the stream); the end of the stream makes
/// it `Flushed`; a failure comes back as it is.
pub fn after_packet_read(state: &mut ProcessState, read: PacketRead) -> (r: Result<bool, RsmediaError>)
    ensures
        match read {
            PacketRead::Packet => r == Ok::<bool, RsmediaError>(true) && *final(state) == *old(state),
            PacketRead::Again => r == Ok::<bool, RsmediaError>(false) && *final(state) == *old(state),
            PacketRead::End => r == Ok::<bool, RsmediaError>(false) && *final(state) == ProcessState::Flushed,
            PacketRead::Failed(e) => r == Err::<bool, RsmediaError>(e) && *final(state) == *old(state),
        },
{
    match read {
        PacketRead::Packet => Ok(true),
        PacketRead::Again => Ok(false),
        PacketRead::End => {
            *state = ProcessState::Flushed;
            Ok(false)
        },
        PacketRead::Failed(e) => Err(e),
    }
}

/// How a flush starts.
#[derive(Debug, Copy, Clone, PartialEq, Eq, Structural)]
pub enum FlushStart {
    /// It was flushed before: nothing to do, and no error (the end of stream
    /// can be sent once only).
    AlreadyDone,
    /// A subtitle encoder has nothing buffered: it is marked flushed at once.
    NothingBuffered,
    /// Send what is buffered and the end of stream, then read until the end.
    Drain,
}

/// How a flush starts from `state` for an encoder of `media_type`; the state
/// after it (a subtitle encoder is flushed at once).
pub open spec fn flush_start_of(state: ProcessState, media_type: MediaType) -> FlushStart {
    if state != ProcessState::Normal {
        FlushStart::AlreadyDone
    } else if media_type == MediaType::SUBTITLE {
        FlushStart::NothingBuffered
    } else {
        FlushStart::Drain
    }
}

/// Decides how a flush starts (see [`flush_start_of`]).
pub fn flush_start(state: &mut ProcessState, media_type: MediaType) -> (r: FlushStart)
    ensures
        r == flush_start_of(*old(state), media_type),
        *final(state) == if r == FlushStart::NothingBuffered { ProcessState::Flushed } else { *old(state) },
{
    match state {
        ProcessState::Normal => {},
        _ => return FlushStart::AlreadyDone,
    }
    if media_type == MediaType::SUBTITLE {
        *state = ProcessState::Flushed;
        return FlushStart::NothingBuffered;
    }
    FlushStart::Drain
}

pub const M_FLUSH_STUCK: &'static str = "Encoder keeps returning EAGAIN after EOF for ";
pub const M_FLUSH_STUCK_MIDDLE: &'static str = " iterations; flush aborted after ";
pub const M_FLUSH_STUCK_END: &'static str = " packet(s), output is truncated";
pub const M_FLUSH_FAILED: &'static str = "Failed to drain encoder during flush after ";
pub const M_FLUSH_FAILED_END: &'static str = " packet(s); output is truncated";

/// After a read during a flush found no packet: stop (`Ok(None)`) once the
/// encoder is no longer `drained` (it reached the end); otherwise read again
/// (`Ok(Some(n))`, `n` the empty reads in a row) until `limit` of them, then
/// give up, saying how many packets were written.
pub fn flush_empty_read(drained: bool, iterations: usize, written: usize, limit: usize) -> (r: Result<Option<usize>, RsmediaError>)
    requires
        iterations < usize::MAX,
    ensures
        !drained ==> r == Ok::<Option<usize>, RsmediaError>(None),
        drained && iterations + 1 < limit ==> r == Ok::<Option<usize>, RsmediaError>(Some((iterations + 1) as usize)),
        drained && iterations + 1 >= limit ==> (r matches Err(e) && e matches RsmediaError::Other(m)
            && m@ == M_FLUSH_STUCK@ + nat_digits(limit as nat) + M_FLUSH_STUCK_MIDDLE@ + nat_digits(written as nat) + M_FLUSH_STUCK_END@),
{
    if !drained {
        return Ok(None);
    }
    let next = iterations + 1;
    if next >= limit {
        let mut m = M_FLUSH_STUCK.to_string();
        push_u64(&mut m, limit as u64);
        push_str(&mut m, M_FLUSH_STUCK_MIDDLE);
        push_u64(&mut m, written as u64);
        push_str(&mut m, M_FLUSH_STUCK_END);
        return Err(RsmediaError::Other(m));
    }
    Ok(Some(next))
}

/// The error a flush ends with when reading fails after `written` packets:
/// the failure, with the count and the warning that the output is cut short.
pub fn flush_failure(e: RsmediaError, written: usize) -> (r: RsmediaError)
    ensures
        is_context_of(r, e, M_FLUSH_FAILED@ + nat_digits(written as nat) + M_FLUSH_FAILED_END@),
{
    let mut m = M_FLUSH_FAILED.to_string();
    push_u64(&mut m, written as u64);
    push_str(&mut m, M_FLUSH_FAILED_END);
    e.with_context(m.as_str())
}

/// A flush that starts from a flushed encoder does nothing, and one that
/// starts a drain leaves the state to the reads: starting twice never sends
/// the end of stream twice.
pub proof fn law_flush_starts_once(media_type: MediaType)
    ensures
        flush_start_of(ProcessState::Flushed, media_type) == FlushStart::AlreadyDone,
        flush_start_of(ProcessState::Drained, media_type) == FlushStart::AlreadyDone,
        media_type == MediaType::SUBTITLE ==> flush_start_of(ProcessState::Normal, media_type) == FlushStart::NothingBuffered,
{
}


/// The smallest buffer a subtitle is encoded into.
pub const MIN_SUBTITLE_BUFFER_SIZE: usize = 256;
pub const M_SUBTITLE_ONLY: &'static str = "encode_subtitle_segment requires a subtitle encoder, got media type: ";
/// The fields an ASS event gets before its text (`ReadOrder, Layer, Style,
/// Name, MarginL, MarginR, MarginV, Effect`); its times travel in the packet.
pub const DIALOGUE_PREFIX: &'static str = "0,0,Default,,0,0,0,,";

/// The ASS event a subtitle encoder is given for `text`: `None` for an empty
/// text, which produces no packet; only a subtitle encoder takes one.
pub fn subtitle_dialogue(media_type: MediaType, text: &str) -> (r: Result<Option<String>, RsmediaError>)
    ensures
        media_type != MediaType::SUBTITLE ==> (r matches Err(e) && e matches RsmediaError::Unsupported(m)
            && m@ == M_SUBTITLE_ONLY@ + media_type_debug(media_type)),
        media_type == MediaType::SUBTITLE && text@.len() == 0 ==> r matches Ok(None),
        media_type == MediaType::SUBTITLE && text@.len() > 0 ==> (r matches Ok(Some(d)) && d@ == DIALOGUE_PREFIX@ + text@),
{
    if media_type != MediaType::SUBTITLE {
        let mut m = M_SUBTITLE_ONLY.to_string();
        let shown = media_type.debug_name();
        push_str(&mut m, shown.as_str());
        return Err(RsmediaError::Unsupported(m));
    }
    if text.unicode_len() == 0 {
        return Ok(None);
    }
    let mut d = DIALOGUE_PREFIX.to_string();
    push_str(&mut d, text);
    Ok(Some(d))
}

/// The buffer a subtitle text of `text_len` bytes is encoded into: twice the
/// text plus [`MIN_SUBTITLE_BUFFER_SIZE`], saturating at the largest size.
pub fn subtitle_buffer_capacity(text_len: usize) -> (n: usize)
    ensures
        n == if text_len * 2 + MIN_SUBTITLE_BUFFER_SIZE > usize::MAX { usize::MAX as int } else { text_len * 2 + MIN_SUBTITLE_BUFFER_SIZE },
{
    if text_len > (usize::MAX - MIN_SUBTITLE_BUFFER_SIZE) / 2 {
        usize::MAX
    } else {
        text_len * 2 + MIN_SUBTITLE_BUFFER_SIZE
    }
}

/// The timing of a subtitle packet, in the encoder's milliseconds:
/// `(pts, dts, duration)` with dts equal to pts (subtitles are not
/// reordered) and a duration of at least one.
pub fn subtitle_packet_timing(start_ms: i64, duration_ms: i64) -> (t: (i64, i64, i64))
    ensures
        t == (start_ms, start_ms, if duration_ms > 1 { duration_ms } else { 1i64 }),
{
    (start_ms, start_ms, if duration_ms > 1 { duration_ms } else { 1 })
}

pub const M_SUBTITLE_TOO_LARGE: &'static str = "encoded subtitle packet too large";

/// The size of an encoded subtitle packet as FFmpeg's `int` holds it.
pub fn subtitle_packet_size(len: usize) -> (r: Result<i32, RsmediaError>)
    ensures
        len <= i32::MAX ==> r == Ok::<i32, RsmediaError>(len as i32),
        len > i32::MAX ==> (r matches Err(e) && e matches RsmediaError::InvalidConfig(m) && m@ == M_SUBTITLE_TOO_LARGE@),
{
    if len > i32::MAX as usize {
        return Err(RsmediaError::invalid_config(M_SUBTITLE_TOO_LARGE));
    }
    Ok(len as i32)
}


/// The time base an encoder is set up with is one tick per frame for video
/// (the reciprocal of the frame rate, numerator and denominator swapped),
/// one tick per sample for audio, a millisecond for subtitles, and a
/// microsecond for any other kind.
pub proof fn law_time_base_is_one_tick(media_type: MediaType, frame_rate: Rational, sample_rate: i32)
    ensures
        media_type == MediaType::VIDEO ==> time_base_for(media_type, frame_rate, sample_rate).num == frame_rate.den
            && time_base_for(media_type, frame_rate, sample_rate).den == frame_rate.num,
        media_type == MediaType::AUDIO ==> time_base_for(media_type, frame_rate, sample_rate).num == 1
            && time_base_for(media_type, frame_rate, sample_rate).den == sample_rate,
        media_type == MediaType::SUBTITLE ==> time_base_for(media_type, frame_rate, sample_rate).num == 1
            && time_base_for(media_type, frame_rate, sample_rate).den == 1000,
        media_type != MediaType::VIDEO && media_type != MediaType::AUDIO && media_type != MediaType::SUBTITLE
            ==> time_base_for(media_type, frame_rate, sample_rate).num == 1
            && time_base_for(media_type, frame_rate, sample_rate).den == 1_000_000,
{
}

/// A positive rate asked through the quality setting wins; without one the
/// rate given is used; with neither, audio gets 128 kbps and any other kind
/// 1 Mbps.
pub proof fn law_bit_rate_choice(media_type: MediaType, bit_rate: Option<i64>, quality_bit_rate: Option<i64>)
    ensures
        (quality_bit_rate matches Some(q) && q > 0) ==> bit_rate_for(media_type, bit_rate, quality_bit_rate) == quality_bit_rate->0,
        !(quality_bit_rate matches Some(q) && q > 0) && bit_rate is Some
            ==> bit_rate_for(media_type, bit_rate, quality_bit_rate) == bit_rate->0,
        !(quality_bit_rate matches Some(q) && q > 0) && bit_rate is None && media_type == MediaType::AUDIO
            ==> bit_rate_for(media_type, bit_rate, quality_bit_rate) == 128_000,
        !(quality_bit_rate matches Some(q) && q > 0) && bit_rate is None && media_type != MediaType::AUDIO
            ==> bit_rate_for(media_type, bit_rate, quality_bit_rate) == 1_000_000,
{
}

/// A settled frame is in the encoder's input time base and keeps its sample
/// count; an audio frame without a rate takes the encoder's, any other frame
/// keeps its own; a timestamp moves (to the rescaled one) only when the frame
/// has one and a valid time base other than the encoder's.
pub proof fn law_settled_frame(frame: FrameTiming, media_type: MediaType, input_time_base: Rational, sample_rate: i32, rescaled: i64)
    ensures
        settled(frame, media_type, input_time_base, sample_rate, rescaled).time_base == input_time_base,
        settled(frame, media_type, input_time_base, sample_rate, rescaled).nb_samples == frame.nb_samples,
        media_type == MediaType::AUDIO && frame.sample_rate <= 0
            ==> settled(frame, media_type, input_time_base, sample_rate, rescaled).sample_rate == sample_rate,
        !(media_type == MediaType::AUDIO && frame.sample_rate <= 0)
            ==> settled(frame, media_type, input_time_base, sample_rate, rescaled).sample_rate == frame.sample_rate,
        frame.pts == i64::MIN || frame.time_base == input_time_base || frame.time_base.num <= 0 || frame.time_base.den <= 0
            ==> settled(frame, media_type, input_time_base, sample_rate, rescaled).pts == frame.pts,
        frame.pts != i64::MIN && frame.time_base != input_time_base && frame.time_base.num > 0 && frame.time_base.den > 0
            ==> settled(frame, media_type, input_time_base, sample_rate, rescaled).pts == rescaled,
{
}

/// Every frame is numbered but audio for an encoder with a fixed frame size;
/// a video (or other) frame moves the counter by one, an audio frame by its
/// sample count, and by one when it has fewer than two samples.
pub proof fn law_pts_step(media_type: MediaType, frame_size: i32, nb_samples: i32)
    ensures
        numbers(media_type, frame_size) <==> !(media_type == MediaType::AUDIO && frame_size > 0),
        media_type != MediaType::AUDIO ==> pts_step(media_type, nb_samples) == 1,
        media_type == MediaType::AUDIO && nb_samples > 1 ==> pts_step(media_type, nb_samples) == nb_samples,
        media_type == MediaType::AUDIO && nb_samples <= 1 ==> pts_step(media_type, nb_samples) == 1,
{
}

/// The end of stream and frames of kinds other than video and audio always
/// pass the frame check. A software video frame fails exactly when the codec
/// lists pixel formats without its own; a hardware one never fails. An audio
/// frame fails on its sample format when the codec lists formats without it,
/// else on its rate when the codec lists rates without it.
pub proof fn law_frame_check(media_type: MediaType, config: CodecConfig, frame: Option<FrameFacts>)
    ensures
        frame is None ==> frame_fault(media_type, config, frame) is None,
        media_type != MediaType::VIDEO && media_type != MediaType::AUDIO ==> frame_fault(media_type, config, frame) is None,
        media_type == MediaType::VIDEO && (frame matches Some(f) && f.hardware) ==> frame_fault(media_type, config, frame) is None,
        media_type == MediaType::VIDEO && (frame matches Some(f) && !f.hardware) ==> (
            (frame_fault(media_type, config, frame) is Some
                <==> (config.pixel_formats matches Some(l) && !l@.contains(frame->0.format)))
            && (frame_fault(media_type, config, frame) is None
                || frame_fault(media_type, config, frame) == Some(FrameFault::PixelFormat))),
        media_type == MediaType::AUDIO && frame is Some && (config.sample_formats matches Some(l) && !l@.contains(frame->0.format))
            ==> frame_fault(media_type, config, frame) == Some(FrameFault::SampleFormat),
        media_type == MediaType::AUDIO && frame is Some && !(config.sample_formats matches Some(l) && !l@.contains(frame->0.format))
            && (config.sample_rates matches Some(l) && !l@.contains(frame->0.sample_rate))
            ==> frame_fault(media_type, config, frame) == Some(FrameFault::SampleRate),
        media_type == MediaType::AUDIO && frame is Some && !(config.sample_formats matches Some(l) && !l@.contains(frame->0.format))
            && !(config.sample_rates matches Some(l) && !l@.contains(frame->0.sample_rate))
            ==> frame_fault(media_type, config, frame) is None,
{
}

/// A flush after the first one does nothing, whatever the media kind; the
/// first one marks a subtitle encoder flushed at once and drains any other.
pub proof fn law_flush_once(media_type: MediaType)
    ensures
        flush_start_of(ProcessState::Drained, media_type) == FlushStart::AlreadyDone,
        flush_start_of(ProcessState::Flushed, media_type) == FlushStart::AlreadyDone,
        media_type == MediaType::SUBTITLE ==> flush_start_of(ProcessState::Normal, media_type) == FlushStart::NothingBuffered,
        media_type != MediaType::SUBTITLE ==> flush_start_of(ProcessState::Normal, media_type) == FlushStart::Drain,
{
}

} // verus!
