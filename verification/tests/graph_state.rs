use rsmedia::error::RsmediaError;
use rsmedia::filter::graph::{FilterGraphBuilder, PadCounts};
use rsmedia::filter::runtime::{GraphState, ProcessState, SinkRead};
use rsmedia::filter::{audio, video};
use rsmedia::filter::{AudioParams, Endpoint, Filter, FilterParams, Rational, VideoEndpoint, VideoParams};
use rsmedia::flags::MediaType;
use rsmedia::fmt::{PixelFormat, SampleFormat};

const YUV420P: PixelFormat = PixelFormat(0);
const RGB24: PixelFormat = PixelFormat(2);
const GRAY8: PixelFormat = PixelFormat(8);

fn video_params() -> FilterParams {
    FilterParams::Video(VideoParams {
        width: 8,
        height: 4,
        format: YUV420P,
        src_format: RGB24,
        time_base: Rational { num: 1, den: 25 },
        frame_rate: Rational { num: 25, den: 1 },
        pixel_aspect: Rational { num: 1, den: 1 },
    })
}

fn ready_chain() -> GraphState {
    let mut state = GraphState::new();
    let filters = vec![video::hflip(), video::vflip()];
    state.begin_chain(&video_params(), &filters, &[true, true]).expect("a video chain of video filters");
    state.endpoints_ready();
    state.configured();
    state
}

#[test]
fn test_missing_filter_reports_invalid_config() {
    let params = FilterParams::Video(VideoParams {
        width: 8,
        height: 4,
        format: GRAY8,
        src_format: GRAY8,
        time_base: Rational { num: 1, den: 25 },
        frame_rate: Rational { num: 25, den: 1 },
        pixel_aspect: Rational { num: 1, den: 1 },
    });
    let filters = vec![Filter::new("rsmedia_no_such_filter", MediaType::VIDEO, "rsmedia_no_such_filter".to_string())];

    let mut state = GraphState::new();
    let err = state
        .begin_chain(&params, &filters, &[false])
        .unwrap_err()
        .with_context("Failed to initialize filter graph");
    assert!(err.is_invalid_config(), "a filter this build does not have must be invalid configuration: {}", err.message());
    assert!(err.message().contains("rsmedia_no_such_filter"), "the message must name the missing filter: {}", err.message());
}

#[test]
fn chain_joins_filters_and_declares_its_endpoints() {
    let mut state = GraphState::new();
    let filters = vec![video::hflip(), video::vflip()];
    let plan = state.begin_chain(&video_params(), &filters, &[true, true]).unwrap();
    assert_eq!(plan.spec, "hflip,vflip");
    assert_eq!(plan.inputs.len(), 1);
    assert_eq!(plan.inputs[0].0, "in");
    match plan.inputs[0].1 {
        Endpoint::Video(v) => assert_eq!((v.width, v.format), (8, RGB24), "frames are pushed as src_format"),
        Endpoint::Audio(_) => panic!("a video chain has a video input"),
    }
    assert_eq!(plan.outputs[0].0, "out");
    match plan.outputs[0].1 {
        Endpoint::Video(v) => assert_eq!(v.format, YUV420P, "frames leave as format"),
        Endpoint::Audio(_) => panic!("a video chain has a video output"),
    }
    assert!(!state.is_initialized());
    assert_eq!((state.input_count(), state.output_count()), (0, 0), "no endpoints before FFmpeg has them");
    state.endpoints_ready();
    assert_eq!((state.input_count(), state.output_count()), (1, 1));
    state.configured();
    assert!(state.is_initialized());
}

#[test]
fn chain_refusals_name_the_problem() {
    let mut state = ready_chain();
    let err = state.begin_chain(&video_params(), &[video::hflip()], &[true]).unwrap_err();
    assert!(matches!(err, RsmediaError::InvalidConfig(ref m) if m == "Filter graph already initialized"));

    let mut state = GraphState::new();
    let filters = vec![video::hflip(), audio::highpass(200)];
    let err = state.begin_chain(&video_params(), &filters, &[true, true]).unwrap_err();
    assert!(
        matches!(err, RsmediaError::InvalidConfig(ref m) if m == "Filter 'highpass' media type mismatch: expected VIDEO, got AUDIO"),
        "{err:?}"
    );
    let err = state.begin_chain(&video_params(), &filters, &[false, true]).unwrap_err();
    assert!(
        matches!(err, RsmediaError::InvalidConfig(ref m) if m == "filter 'hflip' is not available in this FFmpeg build"),
        "{err:?}"
    );
    assert!(!state.is_initialized());
    assert_eq!(state.state_at(0), ProcessState::Normal);
}

#[test]
fn audio_chain_uses_audio_endpoints() {
    let params = FilterParams::Audio(AudioParams {
        nb_channels: 2,
        sample_rate: 48000,
        format: SampleFormat::FLTP,
        src_format: SampleFormat::S16,
        time_base: Rational { num: 1, den: 48000 },
    });
    assert_eq!(params.media_type(), MediaType::AUDIO);
    let mut state = GraphState::new();
    let plan = state.begin_chain(&params, &[audio::highpass(100)], &[true]).unwrap();
    assert_eq!(plan.spec, "highpass=f=100");
    match (plan.inputs[0].1, plan.outputs[0].1) {
        (Endpoint::Audio(i), Endpoint::Audio(o)) => {
            assert_eq!((i.format, o.format), (SampleFormat::S16, SampleFormat::FLTP));
            assert_eq!((i.nb_channels, i.sample_rate), (2, 48000));
        },
        _ => panic!("an audio chain has audio endpoints"),
    }
}

#[test]
fn end_of_stream_is_pushed_once() {
    let mut state = GraphState::new();
    let err = state.push_decision(0, false).unwrap_err();
    assert!(matches!(err, RsmediaError::InvalidConfig(ref m) if m == "Filter graph not initialized"));

    let mut state = ready_chain();
    assert!(state.push_decision(0, false).unwrap(), "a frame goes to FFmpeg");
    assert!(state.push_decision(0, true).unwrap(), "the first end of stream goes to FFmpeg");
    assert!(!state.push_decision(0, true).unwrap(), "a second one is not pushed");
    let err = state.push_decision(3, false).unwrap_err();
    assert!(matches!(err, RsmediaError::InvalidConfig(ref m) if m == "input index 3 out of range: graph has 1 inputs"));
}

#[test]
fn reads_move_the_output_state() {
    let mut state = ready_chain();
    assert!(state.record_read(0, SinkRead::Frame).unwrap());
    assert!(!state.is_drained() && !state.is_flushed());
    assert!(!state.record_read(0, SinkRead::Again).unwrap());
    assert!(state.is_drained());
    assert!(state.is_drained_at(0));
    assert!(!state.record_read(0, SinkRead::End).unwrap());
    assert!(state.is_flushed() && !state.is_drained());
    assert!(!state.is_flushed_at(5), "an output the graph does not have reads as Normal");

    let err = state.check_output(1).unwrap_err();
    assert!(matches!(err, RsmediaError::InvalidConfig(ref m) if m == "output index 1 out of range: graph has 1 outputs"));
    assert!(state.check_output(0).is_ok());
}

#[test]
fn failed_reads_quote_the_declared_inputs() {
    let mut builder = FilterGraphBuilder::new();
    let tb = Rational { num: 1, den: 25 };
    let fps = Rational { num: 25, den: 1 };
    builder.add_input(Endpoint::from(VideoEndpoint::new(64, 48, YUV420P, tb, fps)));
    builder.add_input(Endpoint::from(VideoEndpoint::new(16, 8, YUV420P, tb, fps)));
    builder.add_node(rsmedia::filter::FilterNode::new(video::hstack(2)).with_inputs(&["in0", "in1"]));
    builder.add_output_tail(Endpoint::from(VideoEndpoint::new(80, 48, YUV420P, tb, fps)));
    let counts = vec![Some(PadCounts { inputs: 0, dynamic_inputs: true, outputs: 1, dynamic_outputs: false })];
    let plan = builder.plan(&counts).expect("a sound stack");
    let descriptions = vec!["64x48 yuv420p".to_string(), "16x8 yuv420p".to_string()];
    let mut state = GraphState::for_plan(&plan, &descriptions);
    assert_eq!(state.input_specs, vec!["in0=64x48 yuv420p".to_string(), "in1=16x8 yuv420p".to_string()]);
    assert_eq!(state.eof_sent, vec![false, false]);
    assert_eq!(state.states, vec![ProcessState::Normal]);
    state.endpoints_ready();
    state.configured();
    assert_eq!((state.input_count(), state.output_count()), (2, 1));

    let err = state.record_read(0, SinkRead::Failed(RsmediaError::FFmpeg("Invalid argument".to_string()))).unwrap_err();
    let text = err.message();
    assert!(text.starts_with("filter graph output 0 produced no frame"), "{text}");
    assert!(text.contains("Declared inputs: [in0=64x48 yuv420p, in1=16x8 yuv420p]"), "{text}");
    assert!(text.ends_with("FFmpeg error: Invalid argument"), "{text}");
    assert_eq!(state.states, vec![ProcessState::Normal], "a failed read changes no state");
}

#[test]
fn draining_stops_at_the_end_or_gives_up() {
    let state = GraphState::new();
    assert!(matches!(state.begin_drain(0).unwrap_err(), RsmediaError::InvalidConfig(ref m) if m == "Filter graph not initialized"));

    let mut state = ready_chain();
    assert!(state.begin_drain(0).unwrap());
    assert_eq!(state.after_empty_read(0, 0, 0, 3).unwrap(), Some(1));
    assert_eq!(state.after_empty_read(0, 2, 0, 3).unwrap(), Some(3));
    let err = state.after_empty_read(0, 3, 7, 3).unwrap_err();
    assert!(
        matches!(err, RsmediaError::Other(ref m)
            if m == "Filter graph stalled while flushing: still no output after 3 iterations; 7 already-dequeued frames are discarded"),
        "{err:?}"
    );
    state.record_read(0, SinkRead::End).unwrap();
    assert_eq!(state.after_empty_read(0, 3, 7, 3).unwrap(), None);
    assert!(!state.begin_drain(0).unwrap(), "a flushed output has nothing to drain");
}

#[test]
fn reset_forgets_the_graph() {
    let mut state = ready_chain();
    state.push_decision(0, true).unwrap();
    state.reset();
    assert!(!state.is_initialized());
    assert_eq!((state.input_count(), state.output_count()), (0, 0));
    assert!(state.eof_sent.is_empty());
    let plan = state.begin_chain(&video_params(), &[video::hflip()], &[true]).unwrap();
    assert_eq!(plan.spec, "hflip");
}
