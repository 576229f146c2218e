use rsmedia::codec::{negotiate_pixel_format, negotiate_sample_format, CodecConfig, Profile};
use rsmedia::error::RsmediaError;
use rsmedia::filter::Rational;
use rsmedia::flags::MediaType;
use rsmedia::fmt::{PixelFormat, SampleFormat};

const YUV420P: PixelFormat = PixelFormat(0);
const RGB24: PixelFormat = PixelFormat(2);
const YUVJ420P: PixelFormat = PixelFormat(12);

fn codec(name: &str, id: i32, media_type: MediaType, encoder: bool) -> CodecConfig {
    CodecConfig {
        id,
        name: name.to_string(),
        long_name: format!("{name} codec"),
        media_type,
        encoder,
        decoder: !encoder,
        capabilities: 0,
        pixel_formats: None,
        sample_formats: None,
        frame_rates: None,
        sample_rates: None,
        layout_channels: None,
        profiles: Vec::new(),
    }
}

/// A libx264-like encoder: planar YUV only.
fn libx264() -> CodecConfig {
    let mut c = codec("libx264", 27, MediaType::VIDEO, true);
    c.pixel_formats = Some(vec![0, 12, 4, 13, 5, 14, 23]);
    c.capabilities = 32;
    c.profiles = vec![Profile { id: 66, name: "Baseline".to_string() }, Profile { id: 100, name: "High".to_string() }];
    c
}

fn pcm_s16le() -> CodecConfig {
    let mut c = codec("pcm_s16le", 65536, MediaType::AUDIO, true);
    c.sample_formats = Some(vec![SampleFormat::S16.raw()]);
    c.capabilities = 65536;
    c
}

fn aac() -> CodecConfig {
    let mut c = codec("aac", 86018, MediaType::AUDIO, true);
    c.sample_formats = Some(vec![SampleFormat::FLTP.raw()]);
    c.sample_rates = Some(vec![96000, 48000, 44100, 32000]);
    c.layout_channels = Some(vec![1, 2, 3, 0]);
    c
}

#[test]
fn test_resolve_pixel_format_negotiation() {
    let config = libx264();

    // Not asked for: YUV420P, the most compatible choice.
    assert_eq!(negotiate_pixel_format(None, false, &config, "libx264").unwrap(), YUV420P);

    // Asked for and accepted: kept.
    assert_eq!(negotiate_pixel_format(Some(YUV420P), false, &config, "libx264").unwrap(), YUV420P);

    // Asked for and refused: InvalidConfig.
    let err = negotiate_pixel_format(Some(RGB24), false, &config, "libx264").expect_err("libx264 does not accept RGB24");
    assert!(matches!(err, RsmediaError::InvalidConfig(_)), "expected InvalidConfig, got {err:?}");
}

#[test]
fn test_resolve_sample_format_negotiation() {
    // pcm_s16le takes only S16 while the preferred default is FLTP: the first listed wins.
    let config = pcm_s16le();
    assert_eq!(negotiate_sample_format(None, &config, "pcm_s16le").unwrap(), SampleFormat::S16);

    // Asking for a format it does not take is InvalidConfig.
    let err = negotiate_sample_format(Some(SampleFormat::FLTP), &config, "pcm_s16le").expect_err("pcm_s16le does not accept FLTP");
    assert!(matches!(err, RsmediaError::InvalidConfig(_)), "expected InvalidConfig, got {err:?}");

    // aac is natively planar float: FLTP when nothing is asked for.
    let config = aac();
    assert_eq!(negotiate_sample_format(None, &config, "aac").unwrap(), SampleFormat::FLTP);
}

#[test]
fn negotiation_messages_and_fallbacks() {
    let err = negotiate_pixel_format(Some(RGB24), false, &libx264(), "libx264").unwrap_err();
    assert!(matches!(err, RsmediaError::InvalidConfig(ref m) if m == "encoder 'libx264' does not support pixel format PixelFormat(2)"), "{err:?}");
    // A hardware encoder's formats are its own: not checked.
    assert_eq!(negotiate_pixel_format(Some(RGB24), true, &libx264(), "h264_nvenc").unwrap(), RGB24);

    let mut mjpeg = codec("mjpeg", 7, MediaType::VIDEO, true);
    mjpeg.pixel_formats = Some(vec![12, 13, 14]);
    assert_eq!(negotiate_pixel_format(None, false, &mjpeg, "mjpeg").unwrap(), YUVJ420P, "first listed when YUV420P is not preferred by the list");
    let open = codec("rawvideo", 1, MediaType::VIDEO, true);
    assert_eq!(negotiate_pixel_format(None, false, &open, "rawvideo").unwrap(), YUV420P);
    assert_eq!(negotiate_pixel_format(Some(RGB24), false, &open, "rawvideo").unwrap(), RGB24, "no list: everything passes");

    let err = negotiate_sample_format(Some(SampleFormat::U8), &aac(), "aac").unwrap_err();
    assert!(matches!(err, RsmediaError::InvalidConfig(ref m) if m == "encoder 'aac' does not support sample format U8"), "{err:?}");
    let mut mixed = codec("opus", 86076, MediaType::AUDIO, true);
    mixed.sample_formats = Some(vec![SampleFormat::S16.raw(), SampleFormat::FLTP.raw()]);
    assert_eq!(negotiate_sample_format(None, &mixed, "opus").unwrap(), SampleFormat::FLTP, "FLTP is preferred when listed");
}

#[test]
fn capabilities_and_support_checks() {
    let x264 = libx264();
    assert!(x264.supports_delay());
    assert!(!x264.supports_variable_frame_size());
    assert!(!x264.is_hardware());
    assert!(pcm_s16le().supports_variable_frame_size());
    assert_eq!((x264.id(), x264.name(), x264.media_type()), (27, "libx264", MediaType::VIDEO));
    assert!(x264.is_encoder() && !x264.is_decoder());
    assert!(x264.is_support_pixel_format(0));
    assert!(!x264.is_support_pixel_format(2));
    assert_eq!(x264.supported_pixel_formats().map(|f| f.len()), Some(7));
    assert_eq!(x264.supported_sample_rates(), None);
    assert!(x264.is_support_sample_rate(12345), "no list: every rate passes");

    let a = aac();
    assert!(a.is_support_sample_rate(48000));
    assert!(!a.is_support_sample_rate(22050));
    assert_eq!(a.supported_channel_counts(), Some(vec![1, 2, 3]), "layouts with no channel count are left out");
    assert!(a.is_support_channel_count(2));
    assert!(!a.is_support_channel_count(6));
    let mut unknown = aac();
    unknown.layout_channels = Some(vec![0]);
    assert_eq!(unknown.supported_channel_counts(), None);
    assert!(unknown.is_support_channel_count(6), "no usable list: every count passes");

    let mut rated = codec("mpeg2video", 2, MediaType::VIDEO, true);
    rated.frame_rates = Some(vec![Rational { num: 24000, den: 1001 }, Rational { num: 25, den: 1 }]);
    assert_eq!(rated.supported_frame_rates().map(|r| r.to_vec()), Some(vec![Rational { num: 24000, den: 1001 }, Rational { num: 25, den: 1 }]));

    let profiles = x264.profiles();
    assert_eq!(profiles.len(), 2);
    assert_eq!(profiles[1], Profile { id: 100, name: "High".to_string() });
}

#[test]
fn codecs_are_selected_by_role_and_id() {
    let all = vec![
        libx264(),
        codec("h264", 27, MediaType::VIDEO, false),
        codec("h264_nvenc", 27, MediaType::VIDEO, true),
        aac(),
        codec("aac_dec", 86018, MediaType::AUDIO, false),
    ];
    let names = |v: Vec<CodecConfig>| v.iter().map(|c| c.name.clone()).collect::<Vec<_>>();

    let take = || vec![
        libx264(),
        codec("h264", 27, MediaType::VIDEO, false),
        codec("h264_nvenc", 27, MediaType::VIDEO, true),
        aac(),
        codec("aac_dec", 86018, MediaType::AUDIO, false),
    ];
    assert_eq!(names(CodecConfig::encoders(all)), vec!["libx264", "h264_nvenc", "aac"]);
    assert_eq!(names(CodecConfig::decoders(take())), vec!["h264", "aac_dec"]);
    assert_eq!(names(CodecConfig::encoders_for(take(), 27)), vec!["libx264", "h264_nvenc"]);
    assert_eq!(names(CodecConfig::decoders_for(take(), 86018)), vec!["aac_dec"]);
    assert!(CodecConfig::encoders_for(take(), 999).is_empty());
}

#[test]
fn missing_codecs_are_unsupported() {
    let err = CodecConfig::from_lookup(None, "no_such_encoder").unwrap_err();
    assert!(err.is_unsupported());
    assert!(
        matches!(err, RsmediaError::Unsupported(ref m) if m == "codec 'no_such_encoder' is not available in this FFmpeg build"),
        "{err:?}"
    );
    let found = CodecConfig::from_lookup(Some(aac()), "aac").unwrap();
    assert_eq!(found.name(), "aac");
    assert_eq!(found.long_name(), "aac codec");
}
