use rsmedia::codec::CodecConfig;
use rsmedia::encode::{
    subtitle_buffer_capacity, subtitle_dialogue, subtitle_packet_size, subtitle_packet_timing,
    assign_pts_sample_rate, buffer_size_field, check_codec_kind, check_rate_limits, encoder_codec_name, FrameTiming, NO_PTS,
    after_packet_read, check_audio_settings, check_convertible, check_frame, effective_bit_rate, effective_time_base,
    flush_empty_read, flush_failure, flush_start, retry_after_again, FlushStart, FrameFacts, PacketRead,
    AUDIO_BIT_RATE, SUBTITLE_TIME_BASE_DEN, VIDEO_BIT_RATE,
};
use rsmedia::error::RsmediaError;
use rsmedia::filter::runtime::ProcessState;
use rsmedia::filter::Rational;
use rsmedia::flags::MediaType;
use rsmedia::fmt::SampleFormat;

fn codec(name: &str, media_type: MediaType) -> CodecConfig {
    CodecConfig {
        id: 0,
        name: name.to_string(),
        long_name: String::new(),
        media_type,
        encoder: true,
        decoder: false,
        capabilities: 0,
        pixel_formats: None,
        sample_formats: None,
        frame_rates: None,
        sample_rates: None,
        layout_channels: None,
        profiles: Vec::new(),
    }
}

fn libx264() -> CodecConfig {
    let mut c = codec("libx264", MediaType::VIDEO);
    c.pixel_formats = Some(vec![0, 12, 4, 13, 5, 14]);
    c
}

fn aac() -> CodecConfig {
    let mut c = codec("aac", MediaType::AUDIO);
    c.sample_formats = Some(vec![SampleFormat::FLTP.raw()]);
    c.sample_rates = Some(vec![96000, 48000, 44100]);
    c.layout_channels = Some(vec![1, 2]);
    c
}

fn frame(format: i32, sample_rate: i32) -> FrameFacts {
    FrameFacts { hardware: false, format, sample_rate }
}

#[test]
fn test_effective_time_base_per_media_type() {
    let tb = effective_time_base(MediaType::VIDEO, Rational { num: 25, den: 1 }, 0);
    assert_eq!((tb.num, tb.den), (1, 25), "video input time base = 1/fps");

    let tb = effective_time_base(MediaType::AUDIO, Rational { num: 30, den: 1 }, 44_100);
    assert_eq!((tb.num, tb.den), (1, 44_100), "audio input time base = 1/sample_rate");

    let tb = effective_time_base(MediaType::SUBTITLE, Rational { num: 30, den: 1 }, 0);
    assert_eq!((tb.num, tb.den), (1, SUBTITLE_TIME_BASE_DEN), "subtitle input time base = 1/1000");
}

#[test]
fn test_default_bit_rate_per_media_type() {
    assert_eq!(effective_bit_rate(MediaType::VIDEO, None, None), VIDEO_BIT_RATE, "video default bit rate");
    assert_eq!(
        effective_bit_rate(MediaType::AUDIO, None, None),
        AUDIO_BIT_RATE,
        "audio default bit rate is 128k, not the video default"
    );
}

#[test]
fn test_effective_bit_rate_precedence() {
    assert_eq!(effective_bit_rate(MediaType::VIDEO, Some(500_000), None), 500_000);
    assert_eq!(
        effective_bit_rate(MediaType::VIDEO, Some(500_000), Some(2_000_000)),
        2_000_000,
        "a bit-rate quality setting overrides the bit rate"
    );
    assert_eq!(
        effective_bit_rate(MediaType::VIDEO, Some(500_000), Some(0)),
        500_000,
        "a non-positive quality bit rate counts as unset"
    );
    assert_eq!(effective_bit_rate(MediaType::VIDEO, None, None), VIDEO_BIT_RATE);
}

#[test]
fn test_check_frame_validates_frame_formats() {
    let video = libx264();
    check_frame(MediaType::VIDEO, &video, None).unwrap();
    check_frame(MediaType::VIDEO, &video, Some(frame(0, 0))).unwrap();
    assert!(check_frame(MediaType::VIDEO, &video, Some(frame(2, 0))).is_err(), "libx264 does not accept RGB24 frames");

    let audio = aac();
    check_frame(MediaType::AUDIO, &audio, None).unwrap();
    check_frame(MediaType::AUDIO, &audio, Some(frame(SampleFormat::FLTP.raw(), 44_100))).unwrap();
    assert!(
        check_frame(MediaType::AUDIO, &audio, Some(frame(SampleFormat::U8.raw(), 44_100))).is_err(),
        "aac does not accept U8 frames"
    );
}

#[test]
fn frame_check_messages() {
    let err = check_frame(MediaType::VIDEO, &libx264(), Some(frame(2, 0))).unwrap_err();
    assert!(matches!(err, RsmediaError::Other(ref m) if m == "Unsupported video encoder frame pixel format: 2"), "{err:?}");
    let hw = FrameFacts { hardware: true, format: 2, sample_rate: 0 };
    assert!(check_frame(MediaType::VIDEO, &libx264(), Some(hw)).is_ok(), "a hardware frame's format is not checked");

    let err = check_frame(MediaType::AUDIO, &aac(), Some(frame(0, 44_100))).unwrap_err();
    assert!(matches!(err, RsmediaError::Other(ref m) if m == "Unsupported encode audio frame sample format: 0"), "{err:?}");
    let err = check_frame(MediaType::AUDIO, &aac(), Some(frame(SampleFormat::FLTP.raw(), 22_050))).unwrap_err();
    assert!(matches!(err, RsmediaError::Other(ref m) if m == "Unsupported encode audio frame sample rate: 22050"), "{err:?}");
    assert!(check_frame(MediaType::SUBTITLE, &aac(), Some(frame(-7, -1))).is_ok());

    assert!(check_convertible(MediaType::AUDIO).is_ok());
    let err = check_convertible(MediaType::DATA).unwrap_err();
    assert!(matches!(err, RsmediaError::Other(ref m) if m == "Unsupported encode frame media type: DATA"), "{err:?}");
}

#[test]
fn audio_settings_are_checked_against_the_codec() {
    assert!(check_audio_settings(&aac(), 2, 48000).is_ok());
    let err = check_audio_settings(&aac(), 6, 48000).unwrap_err();
    assert!(matches!(err, RsmediaError::InvalidConfig(ref m) if m == "encoder 'aac' does not support nb_channels 6"), "{err:?}");
    let err = check_audio_settings(&aac(), 2, 8000).unwrap_err();
    assert!(matches!(err, RsmediaError::InvalidConfig(ref m) if m == "encoder 'aac' does not support sample rate 8000"), "{err:?}");
    assert!(check_audio_settings(&codec("pcm", MediaType::AUDIO), 8, 1).is_ok(), "no lists: everything passes");
}

#[test]
fn sending_retries_are_bounded() {
    assert_eq!(retry_after_again(0, false, 2).unwrap(), 1);
    assert_eq!(retry_after_again(1, false, 2).unwrap(), 2);
    let err = retry_after_again(2, true, 2).unwrap_err();
    assert!(matches!(err, RsmediaError::Other(ref m) if m == "Encoder keeps returning EAGAIN after 2 retries (eof: true); aborting"), "{err:?}");
}

#[test]
fn eagain_while_reading_keeps_the_state() {
    let mut state = ProcessState::Normal;
    assert!(!after_packet_read(&mut state, PacketRead::Again).unwrap());
    assert_eq!(state, ProcessState::Normal, "EAGAIN while reading does not start the draining phase");
    assert!(after_packet_read(&mut state, PacketRead::Packet).unwrap());
    assert!(!after_packet_read(&mut state, PacketRead::End).unwrap());
    assert_eq!(state, ProcessState::Flushed);
    let err = after_packet_read(&mut state, PacketRead::Failed(RsmediaError::FFmpeg("boom".to_string()))).unwrap_err();
    assert!(matches!(err, RsmediaError::FFmpeg(ref m) if m == "boom"));
}

#[test]
fn flushing_starts_once() {
    let mut state = ProcessState::Normal;
    assert_eq!(flush_start(&mut state, MediaType::VIDEO), FlushStart::Drain);
    state = ProcessState::Drained;
    assert_eq!(flush_start(&mut state, MediaType::VIDEO), FlushStart::AlreadyDone);
    let mut subtitle = ProcessState::Normal;
    assert_eq!(flush_start(&mut subtitle, MediaType::SUBTITLE), FlushStart::NothingBuffered);
    assert_eq!(subtitle, ProcessState::Flushed);
    assert_eq!(flush_start(&mut subtitle, MediaType::SUBTITLE), FlushStart::AlreadyDone);
}

#[test]
fn flushing_reads_until_the_end_or_gives_up() {
    assert_eq!(flush_empty_read(false, 0, 5, 3).unwrap(), None);
    assert_eq!(flush_empty_read(true, 0, 5, 3).unwrap(), Some(1));
    let err = flush_empty_read(true, 2, 5, 3).unwrap_err();
    assert!(
        matches!(err, RsmediaError::Other(ref m)
            if m == "Encoder keeps returning EAGAIN after EOF for 3 iterations; flush aborted after 5 packet(s), output is truncated"),
        "{err:?}"
    );
    let err = flush_failure(RsmediaError::FFmpeg("I/O".to_string()), 4);
    assert_eq!(err.message(), "Failed to drain encoder during flush after 4 packet(s); output is truncated: FFmpeg error: I/O");
}

/// A frame as `AVFrame::new()` leaves it: no timestamp, no time base, no rate.
fn blank() -> FrameTiming {
    FrameTiming { pts: NO_PTS, time_base: Rational { num: 0, den: 1 }, sample_rate: 0, nb_samples: 0 }
}

const VIDEO_TB: Rational = Rational { num: 1, den: 25 };

#[test]
fn test_assign_pts_sample_rate_auto_numbering_video() {
    let mut next_pts: i64 = 0;
    let number = |next_pts: &mut i64, frame: &mut FrameTiming| {
        assign_pts_sample_rate(next_pts, frame, MediaType::VIDEO, VIDEO_TB, 0, 0, NO_PTS)
    };

    let mut first = blank();
    number(&mut next_pts, &mut first);
    assert_eq!(first.pts, 0, "first auto pts");
    assert_eq!(next_pts, 1);

    let mut second = blank();
    number(&mut next_pts, &mut second);
    assert_eq!(second.pts, 1, "second auto pts");
    assert_eq!(next_pts, 2);

    // The input time base becomes the encoder's 1/fps.
    assert_eq!((second.time_base.num, second.time_base.den), (1, 25));

    // An explicit pts is kept and the counter jumps past it.
    let mut explicit = blank();
    explicit.pts = 100;
    number(&mut next_pts, &mut explicit);
    assert_eq!(explicit.pts, 100);
    assert_eq!(next_pts, 101);

    let mut resumed = blank();
    number(&mut next_pts, &mut resumed);
    assert_eq!(resumed.pts, 101, "auto numbering resumes after the explicit pts");
}

#[test]
fn test_assign_pts_sample_rate_fills_missing_rate() {
    let audio_tb = Rational { num: 1, den: 44_100 };
    let mut next_pts: i64 = 0;

    // Undeclared (0): the encoder's rate.
    let mut undeclared = blank();
    undeclared.sample_rate = 0;
    assign_pts_sample_rate(&mut next_pts, &mut undeclared, MediaType::AUDIO, audio_tb, 44_100, 0, NO_PTS);
    assert_eq!(undeclared.sample_rate, 44_100);

    // Declared: kept.
    let mut declared = blank();
    declared.sample_rate = 16_000;
    assign_pts_sample_rate(&mut next_pts, &mut declared, MediaType::AUDIO, audio_tb, 44_100, 0, NO_PTS);
    assert_eq!(declared.sample_rate, 16_000, "an explicitly declared source rate must not be overwritten");

    // A video frame has no sample rate to fill.
    let mut vframe = blank();
    vframe.sample_rate = 0;
    let mut video_next: i64 = 0;
    assign_pts_sample_rate(&mut video_next, &mut vframe, MediaType::VIDEO, VIDEO_TB, 0, 0, NO_PTS);
    assert_eq!(vframe.sample_rate, 0);
}

#[test]
fn test_assign_pts_sample_rate_defers_to_audio_fifo_for_fixed_frame_size() {
    let mut next_pts: i64 = 0;
    let mut frame = blank();
    // aac cuts frames of 1024 samples.
    assign_pts_sample_rate(&mut next_pts, &mut frame, MediaType::AUDIO, Rational { num: 1, den: 44_100 }, 44_100, 1024, NO_PTS);
    assert_eq!(frame.pts, NO_PTS, "fixed-frame-size audio is numbered by the fifo, not here");
    assert_eq!(next_pts, 0);
}

#[test]
fn timestamps_in_other_time_bases_are_moved() {
    let mut next_pts: i64 = 0;
    // 1/15360 is a typical mp4 track time base; 30720 ticks there are frame 50 at 25 fps.
    let mut frame = FrameTiming { pts: 30_720, time_base: Rational { num: 1, den: 15_360 }, sample_rate: 0, nb_samples: 0 };
    assign_pts_sample_rate(&mut next_pts, &mut frame, MediaType::VIDEO, VIDEO_TB, 0, 0, 50);
    assert_eq!(frame.pts, 50);
    assert_eq!(frame.time_base, VIDEO_TB);
    assert_eq!(next_pts, 51);

    // Already in the encoder's time base: kept as it is.
    let mut same = FrameTiming { pts: 7, time_base: VIDEO_TB, sample_rate: 0, nb_samples: 0 };
    assign_pts_sample_rate(&mut next_pts, &mut same, MediaType::VIDEO, VIDEO_TB, 0, 0, 999);
    assert_eq!(same.pts, 7);

    // Audio without a fixed frame size moves by the samples.
    let mut audio = FrameTiming { pts: NO_PTS, time_base: Rational { num: 0, den: 1 }, sample_rate: 48_000, nb_samples: 960 };
    let mut audio_next: i64 = 480;
    assign_pts_sample_rate(&mut audio_next, &mut audio, MediaType::AUDIO, Rational { num: 1, den: 48_000 }, 48_000, 0, NO_PTS);
    assert_eq!((audio.pts, audio_next), (480, 1440));
}

#[test]
fn default_encoders_per_media_kind() {
    assert_eq!(encoder_codec_name(None, MediaType::VIDEO).unwrap(), "libx264");
    assert_eq!(encoder_codec_name(None, MediaType::AUDIO).unwrap(), "aac");
    assert_eq!(encoder_codec_name(None, MediaType::SUBTITLE).unwrap(), "subrip");
    assert_eq!(encoder_codec_name(Some("mov_text"), MediaType::SUBTITLE).unwrap(), "mov_text");
    let err = encoder_codec_name(None, MediaType::DATA).unwrap_err();
    assert!(matches!(err, RsmediaError::Other(ref m) if m == "Unsupported media type:DATA"), "{err:?}");
}

#[test]
fn rate_limits_must_be_positive() {
    assert!(check_rate_limits(None, None).is_ok());
    assert!(check_rate_limits(Some(2_000_000), Some(4_000_000)).is_ok());
    let err = check_rate_limits(Some(0), Some(-5)).unwrap_err();
    assert!(matches!(err, RsmediaError::InvalidConfig(ref m) if m == "max_bit_rate must be positive, got 0"), "{err:?}");
    let err = check_rate_limits(Some(1), Some(-5)).unwrap_err();
    assert!(matches!(err, RsmediaError::InvalidConfig(ref m) if m == "buffer_size must be positive, got -5"), "{err:?}");
    assert_eq!(buffer_size_field(1_835_008).unwrap(), 1_835_008);
    let err = buffer_size_field(3_000_000_000).unwrap_err();
    assert!(
        matches!(err, RsmediaError::InvalidConfig(ref m) if m == "buffer_size 3000000000 exceeds the i32 range of AVCodecContext.rc_buffer_size"),
        "{err:?}"
    );
}

#[test]
fn codec_kind_must_match() {
    assert!(check_codec_kind(MediaType::VIDEO, 0).is_ok());
    let err = check_codec_kind(MediaType::AUDIO, 0).unwrap_err();
    assert!(matches!(err, RsmediaError::Other(ref m) if m == "Encoder codec type not supported: AUDIO vs. 0"), "{err:?}");
}

#[test]
fn subtitles_become_ass_events() {
    let err = subtitle_dialogue(MediaType::VIDEO, "hi").unwrap_err();
    assert!(err.is_unsupported());
    assert!(
        matches!(err, RsmediaError::Unsupported(ref m) if m == "encode_subtitle_segment requires a subtitle encoder, got media type: VIDEO"),
        "{err:?}"
    );
    assert_eq!(subtitle_dialogue(MediaType::SUBTITLE, "").unwrap(), None);
    assert_eq!(subtitle_dialogue(MediaType::SUBTITLE, "Hello, world").unwrap().as_deref(), Some("0,0,Default,,0,0,0,,Hello, world"));
    assert_eq!(subtitle_buffer_capacity(10), 276);
    assert_eq!(subtitle_buffer_capacity(usize::MAX / 2), usize::MAX);
    assert_eq!(subtitle_packet_timing(1500, 2000), (1500, 1500, 2000));
    assert_eq!(subtitle_packet_timing(1500, 0), (1500, 1500, 1));
    assert_eq!(subtitle_packet_size(42).unwrap(), 42);
    assert!(subtitle_packet_size(i32::MAX as usize + 1).is_err());
}
