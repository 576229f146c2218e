use rsmedia::filter::audio;
use rsmedia::filter::video;
use rsmedia::filter::{setpts, Filter};
use rsmedia::flags::MediaType;
use rsmedia::fmt::{FrameFormat, PixelFormat, SampleFormat};
use MediaType::{AUDIO, VIDEO};

#[test]
fn test_drawtext_time_text() {
    let static_spec = video::DrawText::new("Hello", 10, 20, 24, "white").build().spec().to_string();
    assert!(
        static_spec.contains("drawtext=text='Hello':x=10:y=20:fontsize=24:fontcolor=white"),
        "static drawtext spec mismatch: {static_spec}"
    );

    let time_spec = video::DrawText::new("", 10, 20, 24, "white")
        .time_text("%{localtime}")
        .build()
        .spec()
        .to_string();
    assert!(time_spec.contains("text='%{localtime}'"), "time expression should not be escaped: {time_spec}");
}

#[test]
fn test_filter_spec_generation() {
    let cases: Vec<(String, String, MediaType)> = vec![
        ("scale=w=640:h=360:flags=lanczos".into(), video::scale(640, 360, Some("lanczos")).spec(), VIDEO),
        ("scale=w=640:h=360:flags=bicubic".into(), video::scale(640, 360, None).spec(), VIDEO),
        ("crop=x=10:y=20:w=100:h=50".into(), video::crop(10, 20, 100, 50).spec(), VIDEO),
        ("fade=t=in:start_frame=0:nb_frames=30".into(), video::fade_in(30).spec(), VIDEO),
        ("fade=t=out:start_frame=30:nb_frames=30".into(), video::fade_out(30, 30).spec(), VIDEO),
        ("unsharp".into(), video::unsharp().spec(), VIDEO),
        ("yadif=mode=send_frame".into(), video::yadif("send_frame").spec(), VIDEO),
        ("pad=w=1280:h=720:x=0:y=0:color=black".into(), video::pad(1280, 720, 0, 0, "black").spec(), VIDEO),
        ("subtitles=sub.srt".into(), video::subtitles("sub.srt").spec(), VIDEO),
        ("setdar=16/9".into(), video::setdar(16, 9).spec(), VIDEO),
        ("setsar=1/1".into(), video::setsar(1, 1).spec(), VIDEO),
        ("hue=h=30".into(), video::hue(30).spec(), VIDEO),
        ("negate".into(), video::negate().spec(), VIDEO),
        ("noise=alls=10".into(), video::noise(10).spec(), VIDEO),
        ("deblock".into(), video::deblock().spec(), VIDEO),
        ("delogo=x=0:y=0:w=100:h=50".into(), video::delogo(0, 0, 100, 50).spec(), VIDEO),
        ("transpose=1".into(), video::transpose(1).spec(), VIDEO),
        ("drawbox=x=1:y=2:w=10:h=10:color=red:t=2".into(), video::drawbox(1, 2, 10, 10, "red", 2).spec(), VIDEO),
    ];

    for (expected, actual, media_type) in cases {
        assert_eq!(actual, expected, "spec mismatch");
        assert_eq!(Filter::new("x", media_type, String::new()).media_type(), media_type);
    }

    let audio_cases: Vec<(String, String)> = vec![
        ("highpass=f=80".into(), audio::highpass(80).spec()),
        ("lowpass=f=4000".into(), audio::lowpass(4000).spec()),
        ("afftdn=nr=20:nf=-50:nt=w".into(), audio::fft_denoise(20, -50).spec()),
    ];
    for (expected, actual) in audio_cases {
        assert_eq!(actual, expected, "audio spec mismatch");
    }
}

#[test]
fn test_delogo_builder() {
    let simple = video::delogo(0, 0, 100, 50);
    assert_eq!(simple.name(), "delogo");
    assert_eq!(simple.media_type(), VIDEO);
    assert_eq!(simple.spec(), "delogo=x=0:y=0:w=100:h=50");

    let filters = video::Delogo::new()
        .add_region(10, 10, 120, 30)
        .add_region(640, 10, 120, 30)
        .band(2)
        .show()
        .build();
    assert_eq!(filters.len(), 2, "one delogo per region");
    assert_eq!(filters[0].spec(), "delogo=x=10:y=10:w=120:h=30:band=2:show=1");
    assert_eq!(filters[1].spec(), "delogo=x=640:y=10:w=120:h=30:band=2:show=1");
    for f in &filters {
        assert_eq!(f.media_type(), VIDEO);
    }

    assert!(video::Delogo::new().build().is_empty());
}

#[test]
fn test_drawtext_boxed_and_fontfile() {
    let f = video::DrawText::new("Hi", 1, 2, 20, "white")
        .fontfile("fonts/A.ttf")
        .boxed("black@0.5")
        .build()
        .spec()
        .to_string();
    assert!(f.contains("drawtext=text='Hi':x=1:y=2:fontsize=20:fontcolor=white"), "base mismatch: {f}");
    assert!(f.contains("fontfile='fonts/A.ttf'"), "fontfile missing: {f}");
    assert!(f.contains("box=1:boxcolor=black@0.5:boxborderw=0"), "box missing: {f}");
}

#[test]
fn drawtext_full_description() {
    let f = video::DrawText::new("a:b", -5, 7, 12, "red").build();
    assert_eq!(f.name(), "drawtext");
    assert_eq!(
        f.spec(),
        "drawtext=text='a\\:b':x=-5:y=7:fontsize=12:fontcolor=red:fontfile='fonts/Arial.ttf'"
    );
}

#[test]
fn negative_thickness_is_drawn_as_its_magnitude() {
    assert_eq!(
        video::drawbox(-1, -2, 3, 4, "blue@0.5", -7).spec(),
        "drawbox=x=-1:y=-2:w=3:h=4:color=blue@0.5:t=7"
    );
}

#[test]
fn more_video_descriptions() {
    assert_eq!(video::zoompan("1.5", "iw/2", "ih/2", Some(25)).spec(), "zoompan=z=1.5:x=iw/2:y=ih/2:d=25");
    assert_eq!(video::zoompan("min(zoom+0.1,2)", "0", "0", None).spec(), "zoompan=z=min(zoom+0.1\\\\\\,2):x=0:y=0");
    assert_eq!(video::rotate(90).spec(), "rotate=90*PI/180");
    assert_eq!(video::hflip().spec(), "hflip");
    assert_eq!(video::vflip().spec(), "vflip");
    assert_eq!(video::boxblur("2", 1).spec(), "boxblur=luma_radius=2:luma_power=1");
    assert_eq!(video::overlay("10", "20", None).spec(), "overlay=x=10:y=20");
    assert_eq!(video::overlay("W-w", "0", Some("0.5")).spec(), "overlay=x=W-w:y=0:alpha=0.5");
    assert_eq!(video::hstack(3).spec(), "hstack=inputs=3");
    assert_eq!(video::vstack(2).spec(), "vstack=inputs=2");
    assert_eq!(video::concat(4).spec(), "concat=n=4:v=1:a=0");
    assert_eq!(video::split(2).spec(), "split=2");
    assert_eq!(video::curves(Some("vintage"), Some("ignored")).spec(), "curves=preset=vintage");
    assert_eq!(video::curves(None, Some("0/0 1/1")).spec(), "curves=all=0/0\\\\ 1/1");
    assert_eq!(video::curves(None, None).spec(), "curves");
    assert_eq!(video::bwdif("send_field").spec(), "bwdif=mode=send_field");
    assert_eq!(video::lutyuv(Some("val+10"), None, None).spec(), "lutyuv=y=val+10");
    assert_eq!(video::lutyuv(None, Some("128"), Some("128")).spec(), "lutyuv=u=128:v=128");
    assert_eq!(video::lutyuv(None, None, None).spec(), "lutyuv");
    assert_eq!(video::tile(4, 2, 5, "white").spec(), "tile=4x2:padding=5:color=white");
}

#[test]
fn audio_descriptions() {
    let r = audio::resample("stereo", 48000, SampleFormat::FLTP);
    assert_eq!(r.name(), "aresample");
    assert_eq!(r.media_type(), AUDIO);
    assert_eq!(r.spec(), "aresample=osr=48000:osf=fltp:ochl=stereo:async=1");
    assert_eq!(
        audio::format("mono", 44100, SampleFormat::S16).spec(),
        "aformat=sample_fmts=s16:sample_rates=44100:channel_layouts=mono"
    );
    assert_eq!(audio::adelay(250).spec(), "adelay=delays=250:all=1");
    assert_eq!(audio::amix(2, "longest").spec(), "amix=inputs=2:duration=longest");
    assert_eq!(audio::asplit(3).spec(), "asplit=3");
    assert_eq!(audio::areverse().spec(), "areverse");
}

#[test]
fn setpts_picks_the_filter_for_the_media_kind() {
    let v = setpts(MediaType::VIDEO, "0.5*PTS");
    assert_eq!((v.name(), v.spec().as_str()), ("setpts", "setpts=0.5*PTS"));
    let a = setpts(MediaType::AUDIO, "PTS-STARTPTS");
    assert_eq!((a.name(), a.spec().as_str()), ("asetpts", "asetpts=PTS-STARTPTS"));
    assert_eq!(a.media_type(), MediaType::AUDIO);
}

#[test]
fn input_format_is_declared_on_request() {
    let f = video::hflip();
    assert_eq!(f.input_format(), None);
    let f = f.with_input_format(FrameFormat::Pixel(PixelFormat(2)));
    assert_eq!(f.input_format(), Some(FrameFormat::Pixel(PixelFormat(2))));
    assert_eq!(f.name(), "hflip");
}
