use rsmedia::filter::{video, AudioEndpoint, AudioParams, Endpoint, FilterParams, Rational, VideoEndpoint, VideoParams};
use rsmedia::flags::{AvCodecFlags, AvDispositionFlags, AvFormatFlags, AvPacketFlags, MediaType};
use rsmedia::fmt::{PixelFormat, SampleFormat};

#[test]
fn flags_carry_ffmpeg_bits() {
    assert_eq!(AvPacketFlags::KEY.bits(), 1);
    assert_eq!(AvPacketFlags::DISPOSABLE.bits(), 16);
    assert_eq!(AvCodecFlags::GLOBAL_HEADER.bits(), 1 << 22);
    assert_eq!(AvCodecFlags::CLOSED_GOP.bits(), 1u32 << 31);
    assert_eq!(AvCodecFlags::LOOP_FILTER.bits(), 1 << 11);
    assert_eq!(AvFormatFlags::NO_FILE.bits(), 1);
    assert_eq!(AvFormatFlags::SEEK_TO_PTS.bits(), 0x4000000);
    assert_eq!(AvDispositionFlags::ATTACHED_PIC.bits(), 1024);
    assert_eq!(AvDispositionFlags::MULTILAYER.bits(), 1 << 21);
    let word = AvCodecFlags::CLOSED_GOP.bits() | AvCodecFlags::LOW_DELAY.bits();
    assert_eq!(word & AvCodecFlags::LOW_DELAY.bits(), AvCodecFlags::LOW_DELAY.bits());
    assert_eq!(word & AvCodecFlags::GLOBAL_HEADER.bits(), 0);
}

#[test]
fn params_declare_pushed_and_handed_out_formats() {
    let tb = Rational { num: 1, den: 30 };
    let v = VideoParams {
        width: 320,
        height: 240,
        format: PixelFormat(0),
        src_format: PixelFormat(2),
        time_base: tb,
        frame_rate: Rational { num: 30, den: 1 },
        pixel_aspect: Rational { num: 1, den: 1 },
    };
    let e = VideoEndpoint::from(v);
    assert_eq!((e.width, e.height, e.format), (320, 240, PixelFormat(2)));
    let p = FilterParams::Video(v);
    assert_eq!(p.media_type(), MediaType::VIDEO);
    assert_eq!(p.input_endpoint(), Endpoint::Video(e));
    assert_eq!(p.output_endpoint(), Endpoint::Video(VideoEndpoint { format: PixelFormat(0), ..e }));
    assert_eq!(Endpoint::from(v), Endpoint::Video(e));

    let a = AudioParams { nb_channels: 2, sample_rate: 44100, format: SampleFormat::FLTP, src_format: SampleFormat::S16, time_base: tb };
    let ae = AudioEndpoint::from(a);
    assert_eq!(ae.format, SampleFormat::S16);
    assert_eq!(FilterParams::Audio(a).output_endpoint(), Endpoint::Audio(AudioEndpoint { format: SampleFormat::FLTP, ..ae }));
    assert_eq!(Endpoint::from(a), Endpoint::Audio(ae));
}

#[test]
fn format_debug_names() {
    assert_eq!(PixelFormat(-1).debug_name(), format!("{:?}", PixelFormat(-1)));
    assert_eq!(SampleFormat::S64P.debug_name(), format!("{:?}", SampleFormat::S64P));
    assert_eq!(video::format("yuv420p").spec, "format=pix_fmts=yuv420p");
}
