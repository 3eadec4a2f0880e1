use mosaic::video_info::{
    displayed_dims, parse, parse_sar, round_even, ProbeParseError, RawFormat, RawRoot,
    RawSideData, RawStream,
};
use mosaic::video_info_test_hook_parse;

fn video(codec: &str, w: u32, h: u32, fps_centi: u64) -> RawStream {
    RawStream {
        codec_type: "video".into(),
        codec_name: Some(codec.into()),
        profile: None,
        width: Some(w),
        height: Some(h),
        fps_centi: Some(fps_centi),
        sample_rate: None,
        channels: None,
        bit_rate: None,
        color_transfer: None,
        sample_aspect_ratio: None,
        side_data_list: None,
    }
}

fn side(kind: &str, dv_profile: Option<u8>, rotation: Option<i32>) -> RawSideData {
    RawSideData { side_data_type: Some(kind.into()), dv_profile, rotation }
}

fn root(streams: Vec<RawStream>, duration_ms: Option<u64>) -> RawRoot {
    RawRoot {
        streams,
        format: RawFormat { filename: None, duration_ms, size: None, bit_rate: None },
    }
}

#[test]
fn round_even_floors_to_even_and_minimum_two() {
    assert_eq!(round_even(607.5f64 as u64), 606);
    assert_eq!(round_even(607.9f64 as u64), 606);
    assert_eq!(round_even(608.0f64 as u64), 608);
    assert_eq!(round_even(1.0f64 as u64), 2);
    assert_eq!(round_even(0.0f64 as u64), 2);
}

#[test]
fn round_even_saturates_at_largest_even_u32() {
    assert_eq!(round_even(u64::MAX), u32::MAX - 1);
}

#[test]
fn fails_when_duration_missing() {
    let err = parse(&root(vec![video("h264", 1920, 1080, 2400)], None)).unwrap_err();
    assert_eq!(err, ProbeParseError::MissingDuration);
    assert_eq!(err.message(), "missing duration");
}

#[test]
fn fails_without_video_stream() {
    let mut a = video("aac", 0, 0, 0);
    a.codec_type = "audio".into();
    let err = parse(&root(vec![a], Some(10_000))).unwrap_err();
    assert_eq!(err, ProbeParseError::NoVideo);
    assert_eq!(err.message(), "no video stream");
    assert_eq!(ProbeParseError::Json("eof".into()).message(), "invalid ffprobe JSON: eof");
}

#[test]
fn parses_format_and_audio_fields() {
    let mut a = video("aac", 0, 0, 0);
    a.codec_type = "audio".into();
    a.width = None;
    a.height = None;
    a.sample_rate = Some("48000".into());
    a.channels = Some(2);
    a.bit_rate = Some("192000".into());
    let mut v = video("h264", 1920, 1080, 2398);
    v.profile = Some("High".into());
    v.bit_rate = Some("5000000".into());
    let r = RawRoot {
        streams: vec![v, a],
        format: RawFormat {
            filename: Some("/tmp/movie.mkv".into()),
            duration_ms: Some(7_234_500),
            size: Some("5368709120".into()),
            bit_rate: Some("5200000".into()),
        },
    };
    let info = parse(&r).unwrap();
    assert_eq!(info.filename, "/tmp/movie.mkv");
    assert_eq!(info.duration_ms, 7_234_500);
    assert_eq!(info.size_bytes, Some(5368709120));
    assert_eq!(info.bit_rate, Some(5200000));
    assert_eq!(info.video.codec, "h264");
    assert_eq!(info.video.profile.as_deref(), Some("High"));
    assert_eq!((info.video.width, info.video.height), (1920, 1080));
    assert_eq!(info.video.fps_centi, 2398);
    assert_eq!(info.video.bit_rate, Some(5000000));
    assert!(!info.video.is_hdr);
    let audio = info.audio.unwrap();
    assert_eq!(audio.codec, "aac");
    assert_eq!(audio.sample_rate, Some(48000));
    assert_eq!(audio.channels, Some(2));
    assert_eq!(audio.bit_rate, Some(192000));
    assert!(info.enrichment.is_none());
}

#[test]
fn detects_dolby_vision_from_side_data() {
    let mut v = video("hevc", 1920, 1080, 2400);
    v.side_data_list = Some(vec![side("DOVI configuration record", None, None)]);
    let info = parse(&root(vec![v], Some(100_000))).unwrap();
    assert!(info.video.is_hdr);
    assert_eq!(info.video.dv_profile, None);
}

#[test]
fn detects_dv_profile_5() {
    let mut v = video("hevc", 1920, 1080, 2400);
    v.side_data_list = Some(vec![side("DOVI configuration record", Some(5), None)]);
    let info = parse(&root(vec![v], Some(100_000))).unwrap();
    assert!(info.video.is_hdr);
    assert_eq!(info.video.dv_profile, Some(5));
}

#[test]
fn detects_hlg_from_color_transfer() {
    let mut v = video("hevc", 3840, 2160, 5000);
    v.color_transfer = Some("arib-std-b67".into());
    let info = parse(&root(vec![v], Some(60_000))).unwrap();
    assert!(info.video.is_hdr);
}

#[test]
fn detects_hdr10_from_color_transfer() {
    let mut v = video("hevc", 3840, 2160, 2400);
    v.color_transfer = Some("smpte2084".into());
    let info = parse(&root(vec![v], Some(100_000))).unwrap();
    assert!(info.video.is_hdr);
    assert_eq!(info.video.color_transfer.as_deref(), Some("smpte2084"));
}

#[test]
fn sdr_is_not_hdr() {
    let mut v = video("h264", 1920, 1080, 2400);
    v.color_transfer = Some("bt709".into());
    let info = parse(&root(vec![v], Some(100_000))).unwrap();
    assert!(!info.video.is_hdr);
}

#[test]
fn sar_9_16_multiplies_width() {
    let mut v = video("h264", 1080, 1080, 3000);
    v.sample_aspect_ratio = Some("9:16".into());
    let info = parse(&root(vec![v], Some(100_000))).unwrap();
    assert_eq!(info.video.width, 606);
    assert_eq!(info.video.height, 1080);
    assert_eq!(info.video.sar, Some((9, 16)));
    assert_eq!(info.video.rotation, None);
}

#[test]
fn rotation_minus_90_swaps_width_height() {
    let mut v = video("h264", 1920, 1080, 3000);
    v.side_data_list = Some(vec![side("Display Matrix", None, Some(-90))]);
    let info = parse(&root(vec![v], Some(100_000))).unwrap();
    assert_eq!(info.video.width, 1080);
    assert_eq!(info.video.height, 1920);
    assert_eq!(info.video.rotation, Some(-90));
}

#[test]
fn rotation_plus_90_also_swaps() {
    let mut v = video("h264", 1920, 1080, 3000);
    v.side_data_list = Some(vec![side("Display Matrix", None, Some(90))]);
    let info = parse(&root(vec![v], Some(100_000))).unwrap();
    assert_eq!((info.video.width, info.video.height), (1080, 1920));
}

#[test]
fn rotation_180_does_not_swap() {
    let mut v = video("h264", 1920, 1080, 3000);
    v.side_data_list = Some(vec![side("Display Matrix", None, Some(180))]);
    let info = parse(&root(vec![v], Some(100_000))).unwrap();
    assert_eq!((info.video.width, info.video.height), (1920, 1080));
    assert_eq!(info.video.rotation, Some(180));
}

#[test]
fn sar_1_1_is_noop() {
    let mut v = video("h264", 1920, 1080, 3000);
    v.sample_aspect_ratio = Some("1:1".into());
    let info = parse(&root(vec![v], Some(100_000))).unwrap();
    assert_eq!((info.video.width, info.video.height), (1920, 1080));
    assert_eq!(info.video.sar, None);
}

#[test]
fn sar_na_is_ignored() {
    let mut v = video("h264", 1920, 1080, 3000);
    v.sample_aspect_ratio = Some("N/A".into());
    let info = parse(&root(vec![v], Some(100_000))).unwrap();
    assert_eq!((info.video.width, info.video.height), (1920, 1080));
    assert_eq!(info.video.sar, None);
}

#[test]
fn rotation_and_sar_both_applied() {
    let mut v = video("h264", 1080, 1080, 3000);
    v.sample_aspect_ratio = Some("9:16".into());
    v.side_data_list = Some(vec![side("Display Matrix", None, Some(90))]);
    let info = parse(&root(vec![v], Some(100_000))).unwrap();
    assert_eq!((info.video.width, info.video.height), (1080, 606));
}

#[test]
fn rotation_and_dv_coexist_independently() {
    let mut v = video("hevc", 3840, 2160, 2400);
    v.side_data_list = Some(vec![
        side("DOVI configuration record", Some(8), None),
        side("Display Matrix", None, Some(-90)),
    ]);
    let info = parse(&root(vec![v], Some(100_000))).unwrap();
    assert_eq!(info.video.dv_profile, Some(8));
    assert_eq!(info.video.rotation, Some(-90));
    assert_eq!((info.video.width, info.video.height), (2160, 3840));
}

#[test]
fn skips_zero_dim_video_stream_prefers_real_one() {
    let first = video("h264", 0, 0, 9000000);
    let mut second = video("h264", 1920, 1080, 2398);
    second.profile = Some("High".into());
    let info = video_info_test_hook_parse(&root(vec![first, second], Some(60_000))).unwrap();
    assert_eq!((info.video.width, info.video.height), (1920, 1080));
    assert_eq!(info.video.profile.as_deref(), Some("High"));
}

#[test]
fn falls_back_to_first_video_stream_without_dims() {
    let mut first = video("mpeg2video", 0, 0, 2500);
    first.width = None;
    let second = video("h264", 0, 0, 2400);
    let info = parse(&root(vec![first, second], Some(60_000))).unwrap();
    assert_eq!(info.video.codec, "mpeg2video");
    assert_eq!((info.video.width, info.video.height), (0, 0));
}

#[test]
fn sar_parsing_edge_cases() {
    assert_eq!(parse_sar(Some("9:16")), Some((9, 16)));
    assert_eq!(parse_sar(Some("0:1")), None);
    assert_eq!(parse_sar(Some("4:0")), None);
    assert_eq!(parse_sar(Some("2:2")), None);
    assert_eq!(parse_sar(Some("N/A")), None);
    assert_eq!(parse_sar(None), None);
}

#[test]
fn displayed_dims_applies_sar_then_rotation() {
    assert_eq!(displayed_dims(1080, 1080, Some((9, 16)), Some(270)), (1080, 606));
    assert_eq!(displayed_dims(720, 576, Some((16, 15)), None), (768, 576));
    assert_eq!(displayed_dims(1, 1, Some((1, 4)), None), (2, 1));
}
