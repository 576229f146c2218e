use rsmedia::codec::{FormatInfo, Profile};
use rsmedia::fmt::{DataLayout, FrameFormat, PixelFormat, SampleFormat};

#[test]
fn test_audio_data_layout() {
    assert_eq!(SampleFormat::FLTP.data_layout(2, 1024), DataLayout::Planar(vec![(1, 1024), (1, 1024)]));
    assert_eq!(SampleFormat::FLTP.data_layout(2, 1024).num_planes(), 2);

    assert_eq!(
        SampleFormat::S16.data_layout(2, 1024),
        DataLayout::Interleaved { rows: 1, cols: 1024, components: 2 }
    );
    assert_eq!(SampleFormat::S16.data_layout(2, 1024).num_planes(), 1);
}

#[test]
fn layout_extents_and_shapes() {
    let packed = DataLayout::Interleaved { rows: 4, cols: 6, components: 3 };
    assert_eq!(packed.plane_row_extent(0), Some((4, 18)));
    assert_eq!(packed.plane_row_extent(1), None);
    assert_eq!(packed.plane_shape(0), Some((4, 6)));
    assert_eq!(packed.shapes(), vec![(4, 6)]);

    let planar = DataLayout::Planar(vec![(48, 64), (24, 32), (24, 32)]);
    assert_eq!(planar.num_planes(), 3);
    assert_eq!(planar.plane_row_extent(1), Some((24, 32)));
    assert_eq!(planar.plane_row_extent(3), None);
    assert_eq!(planar.shapes(), vec![(48, 64), (24, 32), (24, 32)]);
    assert_ne!(planar, DataLayout::Planar(vec![(48, 64)]));
}

#[test]
fn sample_format_table() {
    assert_eq!(SampleFormat::FLTP.get_sample_fmt_name(), "fltp");
    assert_eq!(SampleFormat::NONE.get_sample_fmt_name(), "Unknown");
    assert_eq!(SampleFormat::S64.get_bytes_per_sample(), Some(8));
    assert_eq!(SampleFormat::NONE.get_bytes_per_sample(), None);
    assert!(SampleFormat::S16P.is_planar());
    assert!(!SampleFormat::S16.is_planar());
    assert_eq!(SampleFormat::S16P.get_packed_sample_fmt(), Some(SampleFormat::S16));
    assert_eq!(SampleFormat::S16.get_packed_sample_fmt(), Some(SampleFormat::S16));
    assert_eq!(SampleFormat::FLT.get_planar_sample_fmt(), Some(SampleFormat::FLTP));
    assert_eq!(SampleFormat::NONE.get_planar_sample_fmt(), None);
    assert_eq!(SampleFormat::from_raw(8), Some(SampleFormat::FLTP));
    assert_eq!(SampleFormat::from_raw(12), None);
    assert_eq!(SampleFormat::DBLP.raw(), 9);
}

#[test]
fn frame_format_parts() {
    let p = FrameFormat::from(PixelFormat(2));
    assert_eq!(p.into_pixel(), Some(PixelFormat(2)));
    assert_eq!(p.into_sample(), None);
    assert_eq!(p.raw(), 2);
    let s = FrameFormat::from(SampleFormat::S32);
    assert_eq!(s.into_sample(), Some(SampleFormat::S32));
    assert_eq!(s.raw(), 2);
}

fn format(name: &str, extensions: &[&str]) -> FormatInfo {
    FormatInfo {
        name: name.to_string(),
        long_name: String::new(),
        extensions: extensions.iter().map(|e| e.to_string()).collect(),
    }
}

#[test]
fn formats_are_found_by_any_alias() {
    let demuxers = vec![format("mp3", &["mp3"]), format("mov,mp4,m4a,3gp,3g2,mj2", &["mov", "mp4"]), format("matroska,webm", &["mkv"])];
    assert_eq!(FormatInfo::find_demuxer(demuxers.clone(), "mov").map(|f| f.name), Some("mov,mp4,m4a,3gp,3g2,mj2".to_string()));
    let mkv = FormatInfo::find_demuxer(demuxers.clone(), "matroska").expect("matroska demuxer");
    assert_eq!(mkv.short_name(), "matroska");
    assert!(mkv.extensions.contains(&"mkv".to_string()));
    assert!(FormatInfo::find_demuxer(demuxers, "avi").is_none());

    let muxers = vec![format("mp4", &["mp4"]), format("ipod", &["m4v"])];
    let mp4 = FormatInfo::find_muxer(muxers, "mp4").expect("mp4 muxer");
    assert_eq!(mp4.name, "mp4");
    assert_eq!(mp4.short_name(), "mp4");
}

#[test]
fn aliases_are_trimmed() {
    assert!(FormatInfo::name_matches("matroska, webm", "webm"));
    assert!(FormatInfo::name_matches("a,\tb ,c", "b"));
    assert!(!FormatInfo::name_matches("matroska,webm", "web"));
    assert!(FormatInfo::name_matches("", ""));
    assert!(FormatInfo::name_matches("x,,y", ""));
}

#[test]
fn profiles_read_as_their_name_or_number() {
    let high = Profile { id: 100, name: "High".to_string() };
    assert_eq!(high.display_text(), "High");
    let unnamed = Profile { id: -99, name: String::new() };
    assert_eq!(unnamed.display_text(), "-99");
    assert_eq!(high.clone(), high);
}
