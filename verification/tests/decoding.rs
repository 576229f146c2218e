use rsmedia::decode::{
    after_empty_decode, after_empty_drain, decode_filter_params, decode_guard, drop_drain_continues, drop_drain_plan,
    first_input_format, read_action, DecodedStream, DrainPlan, EmptyDecode, FrameRead, PacketSource, ReadAction,
};
use rsmedia::error::RsmediaError;
use rsmedia::filter::runtime::ProcessState;
use rsmedia::filter::{video, FilterParams, Rational};
use rsmedia::flags::MediaType;
use rsmedia::fmt::{FrameFormat, PixelFormat, SampleFormat};

const YUV420P: PixelFormat = PixelFormat(0);
const RGB24: PixelFormat = PixelFormat(2);

fn stream() -> DecodedStream {
    DecodedStream {
        width: 640,
        height: 360,
        nb_channels: 2,
        sample_rate: 48_000,
        native_sample_format: SampleFormat::FLTP,
        time_base: Rational { num: 1, den: 90_000 },
        frame_rate: Rational { num: 30, den: 1 },
        pixel_aspect: Rational { num: 1, den: 1 },
    }
}

#[test]
fn the_first_declared_input_format_wins() {
    assert_eq!(first_input_format(&[video::hflip(), video::vflip()]), None);
    let filters = vec![
        video::hflip(),
        video::vflip().with_input_format(FrameFormat::Pixel(RGB24)),
        video::negate().with_input_format(FrameFormat::Pixel(YUV420P)),
    ];
    assert_eq!(first_input_format(&filters), Some(FrameFormat::Pixel(RGB24)));
}

#[test]
fn chain_parameters_follow_the_decoder_output() {
    let p = decode_filter_params(MediaType::VIDEO, stream(), YUV420P, None, Some(FrameFormat::Pixel(RGB24))).unwrap();
    match p {
        FilterParams::Video(v) => {
            assert_eq!((v.width, v.height), (640, 360));
            assert_eq!((v.src_format, v.format), (RGB24, YUV420P), "in as declared, out as promised");
            assert_eq!(v.time_base, Rational { num: 1, den: 90_000 });
        },
        FilterParams::Audio(_) => panic!("a video decoder has a video chain"),
    }
    let p = decode_filter_params(MediaType::VIDEO, stream(), YUV420P, None, None).unwrap();
    assert!(matches!(p, FilterParams::Video(v) if v.src_format == YUV420P));

    let p = decode_filter_params(MediaType::AUDIO, stream(), YUV420P, None, None).unwrap();
    assert!(matches!(p, FilterParams::Audio(a) if a.format == SampleFormat::FLTP && a.src_format == SampleFormat::FLTP));
    let p = decode_filter_params(MediaType::AUDIO, stream(), YUV420P, Some(SampleFormat::S16), Some(FrameFormat::Sample(SampleFormat::FLT))).unwrap();
    assert!(matches!(p, FilterParams::Audio(a) if a.format == SampleFormat::S16 && a.src_format == SampleFormat::FLT && a.nb_channels == 2));

    let err = decode_filter_params(MediaType::SUBTITLE, stream(), YUV420P, None, None).unwrap_err();
    assert!(matches!(err, RsmediaError::Other(ref m) if m == "Unsupported filter for media type: SUBTITLE"), "{err:?}");
}

#[test]
fn an_empty_decoder_waits_flushes_or_ends() {
    assert_eq!(after_empty_decode(ProcessState::Normal, true), EmptyDecode::NeedInput);
    assert_eq!(after_empty_decode(ProcessState::Drained, true), EmptyDecode::NeedInput, "draining still needs packets");
    assert_eq!(after_empty_decode(ProcessState::Flushed, true), EmptyDecode::FlushFilter);
    assert_eq!(after_empty_decode(ProcessState::Flushed, false), EmptyDecode::Finished);
}

#[test]
fn decoding_after_the_end_is_refused() {
    assert!(decode_guard(false).is_ok());
    let err = decode_guard(true).unwrap_err();
    assert!(matches!(err, RsmediaError::InvalidConfig(ref m) if m == "Decoder cannot decode after flushed. Call reset()."), "{err:?}");
}

#[test]
fn the_decode_loop_reads_then_drains() {
    assert_eq!(read_action(PacketSource::Packet(1), 1), ReadAction::Decode);
    assert_eq!(read_action(PacketSource::Packet(0), 1), ReadAction::Skip);
    assert_eq!(read_action(PacketSource::Exhausted, 1), ReadAction::StartDraining);
    assert_eq!(after_empty_drain(false, 0, 3).unwrap(), None);
    assert_eq!(after_empty_drain(true, 0, 3).unwrap(), Some(1));
    let err = after_empty_drain(true, 3, 3).unwrap_err();
    assert!(
        matches!(err, RsmediaError::Other(ref m) if m == "Decoder keeps returning EAGAIN after EOF, aborting after 3 iterations"),
        "{err:?}"
    );
}

#[test]
fn a_dropped_decoder_drains_once() {
    assert_eq!(drop_drain_plan(MediaType::SUBTITLE, ProcessState::Normal), DrainPlan::Skip);
    assert_eq!(drop_drain_plan(MediaType::VIDEO, ProcessState::Flushed), DrainPlan::Skip);
    assert_eq!(drop_drain_plan(MediaType::VIDEO, ProcessState::Normal), DrainPlan::SendEndThenDrain);
    assert_eq!(drop_drain_plan(MediaType::AUDIO, ProcessState::Drained), DrainPlan::Drain);
    assert!(drop_drain_continues(FrameRead::Frame, false, 1, 10));
    assert!(drop_drain_continues(FrameRead::Empty, true, 1, 10));
    assert!(!drop_drain_continues(FrameRead::Empty, false, 1, 10), "the end of the stream stops it");
    assert!(!drop_drain_continues(FrameRead::Failed, true, 1, 10));
    assert!(!drop_drain_continues(FrameRead::Frame, false, 10, 10), "the read limit stops it");
}
