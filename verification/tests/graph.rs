use rsmedia::error::RsmediaError;
use rsmedia::filter::audio;
use rsmedia::filter::graph::{FilterGraphBuilder, GraphPlan, PadCounts};
use rsmedia::filter::video;
use rsmedia::filter::{AudioEndpoint, Endpoint, Filter, FilterNode, Rational, VideoEndpoint};
use rsmedia::flags::MediaType;
use rsmedia::fmt::{PixelFormat, SampleFormat};

const YUV420P: PixelFormat = PixelFormat(0);

fn video_endpoint(width: i32, height: i32) -> VideoEndpoint {
    VideoEndpoint::new(width, height, YUV420P, Rational { num: 1, den: 25 }, Rational { num: 25, den: 1 })
}

fn audio_endpoint(sample_rate: i32) -> AudioEndpoint {
    AudioEndpoint::new(1, sample_rate, SampleFormat::FLTP, Rational { num: 1, den: sample_rate })
}

/// Pad counts as FFmpeg reports them for the filters these tests use.
fn pads(name: &str) -> Option<PadCounts> {
    let fixed = |inputs, outputs| PadCounts { inputs, dynamic_inputs: false, outputs, dynamic_outputs: false };
    match name {
        "hflip" | "vflip" | "scale" | "volume" | "null" => Some(fixed(1, 1)),
        "overlay" => Some(fixed(2, 1)),
        "split" | "asplit" => Some(PadCounts { inputs: 1, dynamic_inputs: false, outputs: 0, dynamic_outputs: true }),
        "hstack" | "vstack" | "amix" => Some(PadCounts { inputs: 0, dynamic_inputs: true, outputs: 1, dynamic_outputs: false }),
        "concat" => Some(PadCounts { inputs: 0, dynamic_inputs: true, outputs: 0, dynamic_outputs: true }),
        _ => None,
    }
}

fn plan(builder: &FilterGraphBuilder) -> Result<GraphPlan, RsmediaError> {
    let counts: Vec<Option<PadCounts>> = builder.nodes.iter().map(|n| pads(n.filter.name)).collect();
    builder.plan(&counts)
}

fn volume_one() -> Filter {
    Filter::new("volume", MediaType::AUDIO, "volume=1".to_string())
}

#[test]
fn test_filter_graph_builder_rejects_bad_wiring() {
    let video = Endpoint::Video(video_endpoint(4, 2));
    let audio = Endpoint::Audio(audio_endpoint(48000));

    let mut builder = FilterGraphBuilder::new();
    builder.add_input(video);
    builder.add_node(FilterNode::new(video::overlay("0", "0", None)));
    builder.add_output_tail(video);
    let err = plan(&builder).unwrap_err();
    assert!(err.is_invalid_config(), "{err:?}");
    assert!(err.message().contains("takes 2 input(s)"), "{err:?}");

    let mut builder = FilterGraphBuilder::new();
    builder.add_input(video);
    builder.add_node(FilterNode::new(video::hflip()).with_inputs(&["nope"]));
    builder.add_output_tail(video);
    let err = plan(&builder).unwrap_err();
    assert!(err.message().contains("neither a declared graph input"), "{err:?}");

    let mut builder = FilterGraphBuilder::new();
    builder.add_input(video);
    builder.add_node(FilterNode::new(video::hflip()).with_inputs(&["later"]).with_label("early"));
    builder.add_node(FilterNode::new(video::hflip()).with_label("later"));
    builder.add_output("early", video);
    let err = plan(&builder).unwrap_err();
    assert!(err.is_invalid_config(), "forward reference must be rejected: {err:?}");

    let mut builder = FilterGraphBuilder::new();
    builder.add_input(video);
    builder.add_node(FilterNode::new(video::hflip()).with_label("once"));
    builder.add_node(FilterNode::new(video::hflip()).with_inputs(&["once"]).with_label("a"));
    builder.add_node(FilterNode::new(video::hflip()).with_inputs(&["once"]).with_label("b"));
    builder.add_output("a", video);
    builder.add_output("b", video);
    let err = plan(&builder).unwrap_err();
    assert!(err.message().contains("insert a split"), "{err:?}");

    let mut builder = FilterGraphBuilder::new();
    builder.add_input(video);
    builder.add_node(FilterNode::new(video::hflip()).with_inputs(&["in0"]).with_outputs(&["a", "b"]));
    builder.add_output("a", video);
    builder.add_output("b", video);
    let err = plan(&builder).unwrap_err();
    assert!(err.message().contains("has 1 output pad(s) but 2 label(s)"), "{err:?}");

    // A split labelled with one pad only: the pad count comes from the
    // filter's own option, so the wiring check lets it through and FFmpeg
    // rejects the description when it configures the graph.
    let mut builder = FilterGraphBuilder::new();
    builder.add_input(video);
    builder.add_node(FilterNode::new(video::split(2)).with_inputs(&["in0"]).with_label("only_one"));
    builder.add_output("only_one", video);
    let planned = plan(&builder).expect("the pad count of split is left to FFmpeg");
    assert!(planned.spec.contains("split=2[only_one]"), "{}", planned.spec);

    let mut builder = FilterGraphBuilder::new();
    builder.add_input(video);
    builder.add_node(FilterNode::new(video::split(2)).with_inputs(&["in0"]).with_outputs(&["used", "dead"]));
    builder.add_node(FilterNode::new(video::hflip()).with_inputs(&["used"]));
    builder.add_output_tail(video);
    let err = plan(&builder).unwrap_err();
    assert!(err.message().contains("every output pad of the node must be consumed"), "{err:?}");

    let mut builder = FilterGraphBuilder::new();
    builder.add_input_with("a", video);
    builder.add_input_with("b", video);
    builder.add_node(FilterNode::new(video::hflip()).with_inputs(&["a"]).with_label("dead"));
    builder.add_node(FilterNode::new(video::hflip()).with_inputs(&["b"]).with_label("alive"));
    builder.add_output("alive", video);
    let err = plan(&builder).unwrap_err();
    assert!(err.message().contains("nothing consumes it"), "{err:?}");

    let mut builder = FilterGraphBuilder::new();
    builder.add_input(audio);
    builder.add_node(FilterNode::new(video::hflip()).with_inputs(&["in0"]));
    builder.add_output_tail(video);
    let err = plan(&builder).unwrap_err();
    assert!(err.message().contains("media type mismatch"), "{err:?}");

    let mut builder = FilterGraphBuilder::new();
    builder.add_input(video);
    builder.add_input(video);
    builder.add_node(FilterNode::new(video::hflip()).with_inputs(&["in1"]));
    builder.add_output_tail(video);
    let err = plan(&builder).unwrap_err();
    assert!(err.message().contains("never used"), "{err:?}");

    let mut builder = FilterGraphBuilder::new();
    builder.add_input(video);
    builder.add_node(FilterNode::new(video::hflip()).with_label("flipped"));
    builder.add_output("in0", video);
    let err = plan(&builder).unwrap_err();
    assert!(err.message().contains("no node produces"), "{err:?}");
}

#[test]
fn test_filter_graph_builder_rejects_bad_sizes() {
    let err = FilterGraphBuilder::hstack_graph(&[video_endpoint(4, 2), video_endpoint(4, 4)], video_endpoint(8, 2))
        .unwrap_err();
    assert!(err.is_invalid_config() && err.message().contains("input 1"), "{err:?}");

    let err = FilterGraphBuilder::vstack_graph(&[video_endpoint(4, 2), video_endpoint(6, 2)], video_endpoint(4, 4))
        .unwrap_err();
    assert!(err.message().contains("same width"), "{err:?}");

    let err = FilterGraphBuilder::concat_graph(&[video_endpoint(4, 2), video_endpoint(2, 2)], video_endpoint(4, 2))
        .unwrap_err();
    assert!(err.message().contains("same size"), "{err:?}");

    let endpoint = audio_endpoint(48000);
    let err = FilterGraphBuilder::amix_graph(&[endpoint, endpoint], "long", endpoint).unwrap_err();
    assert!(err.message().contains("duration"), "{err:?}");
}

#[test]
fn wiring_messages_name_the_mistake() {
    let video = Endpoint::Video(video_endpoint(4, 2));
    let err = plan(&FilterGraphBuilder::new()).unwrap_err();
    assert_eq!(err.message(), "invalid configuration: filter graph has no input: declare one with add_input");

    let mut builder = FilterGraphBuilder::new();
    builder.add_input_with("bad label", video);
    builder.add_node(FilterNode::new(video::hflip()));
    builder.add_output_tail(video);
    let err = plan(&builder).unwrap_err();
    assert_eq!(
        err.message(),
        "invalid configuration: invalid filter graph label 'bad label': a label must be non-empty and consist of ASCII letters, digits and underscores only"
    );

    let mut builder = FilterGraphBuilder::new();
    builder.add_input_with("n0", video);
    builder.add_node(FilterNode::new(video::hflip()));
    builder.add_output_tail(video);
    let err = plan(&builder).unwrap_err();
    assert_eq!(
        err.message(),
        "invalid configuration: duplicate label 'n0': graph inputs and node outputs share one namespace (the label was auto-assigned; give the node an explicit label)"
    );

    let mut builder = FilterGraphBuilder::new();
    builder.add_input(video);
    builder.add_node(FilterNode::new(Filter::new("no_such_filter", MediaType::VIDEO, "no_such_filter".to_string())));
    builder.add_output_tail(video);
    let err = plan(&builder).unwrap_err();
    assert!(err.is_invalid_config());
    assert_eq!(err.message(), "invalid configuration: filter 'no_such_filter' is not available in this FFmpeg build");

    let mut builder = FilterGraphBuilder::new();
    builder.add_input(Endpoint::Audio(audio_endpoint(48000)));
    builder.add_node(FilterNode::new(volume_one()).with_label("loud"));
    builder.add_output("loud", video);
    let err = plan(&builder).unwrap_err();
    assert_eq!(err.message(), "invalid configuration: media type mismatch: output 0 is VIDEO but 'loud' carries AUDIO");
}

#[test]
fn split_fanout_plan() {
    let endpoint = Endpoint::Video(video_endpoint(4, 2));
    let mut builder = FilterGraphBuilder::new();
    builder.add_input_with("src", endpoint);
    builder.add_node(FilterNode::new(video::split(2)).with_inputs(&["src"]).with_outputs(&["copy_a", "copy_b"]));
    builder.add_node(FilterNode::new(video::hflip()).with_inputs(&["copy_b"]).with_label("mirrored"));
    builder.add_output("copy_a", endpoint);
    builder.add_output("mirrored", endpoint);
    let planned = plan(&builder).expect("a split wires every copy once");
    assert_eq!(planned.spec, "[src]split=2[copy_a][copy_b];[copy_b]hflip[mirrored]");
    let inputs: Vec<&str> = planned.inputs.iter().map(|(l, _)| l.as_str()).collect();
    let outputs: Vec<&str> = planned.outputs.iter().map(|(l, _)| l.as_str()).collect();
    assert_eq!(inputs, vec!["src"]);
    assert_eq!(outputs, vec!["copy_a", "mirrored"]);
}

#[test]
fn two_outputs_and_automatic_labels() {
    let video_in = Endpoint::Video(video_endpoint(4, 2));
    let audio_in = Endpoint::Audio(audio_endpoint(48000));
    let mut builder = FilterGraphBuilder::new();
    builder.add_input(video_in);
    builder.add_input(audio_in);
    assert_eq!(builder.input_label(0), Some("in0"));
    assert_eq!(builder.input_label(1), Some("in1"));
    assert_eq!(builder.input_label(2), None);
    builder.add_node(FilterNode::new(video::hflip()).with_label("flipped"));
    builder.add_output("flipped", video_in);
    builder.add_node(FilterNode::new(volume_one()).with_inputs(&["in1"]).with_label("level"));
    builder.add_output("level", audio_in);
    assert_eq!((builder.input_count(), builder.output_count()), (2, 2));
    let planned = plan(&builder).expect("both chains are sound");
    assert_eq!(planned.spec, "[in0]hflip[flipped];[in1]volume=1[level]");
    assert_eq!(planned.outputs[1].1, audio_in);
}

#[test]
fn chain_wires_itself_and_tail_output_follows_the_chain() {
    let v = Endpoint::Video(video_endpoint(8, 8));
    let mut builder = FilterGraphBuilder::new();
    builder.add_input(v);
    builder.add_node(FilterNode::new(video::hflip()));
    builder.add_node(FilterNode::new(video::vflip()));
    builder.add_output_tail(v);
    let planned = plan(&builder).expect("a plain chain is sound");
    assert_eq!(planned.spec, "[in0]hflip[n0];[n0]vflip[n1]");
    assert_eq!(planned.outputs[0].0, "n1");
}

#[test]
fn ready_made_graphs_plan_cleanly() {
    let b = FilterGraphBuilder::hstack_graph(&[video_endpoint(4, 2), video_endpoint(4, 2)], video_endpoint(8, 2)).unwrap();
    assert_eq!(plan(&b).unwrap().spec, "[in0][in1]hstack=inputs=2[stack]");

    let b = FilterGraphBuilder::hstack_graph(&[video_endpoint(4, 2), video_endpoint(4, 2)], video_endpoint(2, 2)).unwrap();
    assert_eq!(plan(&b).unwrap().spec, "[in0][in1]hstack=inputs=2[stack];[stack]scale=w=2:h=2:flags=bicubic[scale]");

    let b = FilterGraphBuilder::vstack_graph(&[video_endpoint(4, 2), video_endpoint(4, 3)], video_endpoint(4, 5)).unwrap();
    assert_eq!(plan(&b).unwrap().spec, "[in0][in1]vstack=inputs=2[stack]");

    let b = FilterGraphBuilder::overlay_graph(video_endpoint(4, 4), video_endpoint(2, 2), "2", "2", video_endpoint(4, 4));
    assert_eq!(plan(&b).unwrap().spec, "[base][over]overlay=x=2:y=2[overlay]");

    let b = FilterGraphBuilder::concat_graph(&[video_endpoint(4, 2), video_endpoint(4, 2)], video_endpoint(4, 2)).unwrap();
    assert_eq!(plan(&b).unwrap().spec, "[in0][in1]concat=n=2:v=1:a=0[concat]");

    let e = audio_endpoint(48000);
    let b = FilterGraphBuilder::amix_graph(&[e, e], "longest", e).unwrap();
    assert_eq!(plan(&b).unwrap().spec, "[in0][in1]amix=inputs=2:duration=longest[amix]");
    let _ = audio::asplit(2);
}

#[test]
fn ready_made_graphs_reject_too_few_inputs() {
    let err = FilterGraphBuilder::hstack_graph(&[video_endpoint(4, 2)], video_endpoint(4, 2)).unwrap_err();
    assert_eq!(err.message(), "invalid configuration: hstack needs at least 2 inputs, got 1");
    let err = FilterGraphBuilder::concat_graph(&[], video_endpoint(4, 2)).unwrap_err();
    assert_eq!(err.message(), "invalid configuration: concat needs at least 2 inputs, got 0");
    let e = audio_endpoint(8000);
    let err = FilterGraphBuilder::amix_graph(&[e], "first", e).unwrap_err();
    assert_eq!(err.message(), "invalid configuration: amix needs at least 2 inputs, got 1");
    let err = FilterGraphBuilder::vstack_graph(&[video_endpoint(4, 2), video_endpoint(6, 2)], video_endpoint(4, 4))
        .unwrap_err();
    assert_eq!(
        err.message(),
        "invalid configuration: vstack needs every input to have the same width: input 0 is 4, input 1 is 6 (insert a scale node to normalise the sizes first)"
    );
}
