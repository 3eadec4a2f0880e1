use mosaic::header::{build_header_lines, format_gib, format_kbps, format_mbps};
use mosaic::mediainfo::Enrichment;
use mosaic::video_info::{AudioStream, VideoInfo, VideoStream};

fn make_info() -> VideoInfo {
    VideoInfo {
        filename: "/tmp/x.mkv".into(),
        duration_ms: 3723_000,
        size_bytes: Some(1_073_741_824),
        bit_rate: Some(5_000_000),
        video: VideoStream {
            codec: "h264".into(),
            profile: Some("High".into()),
            width: 1920,
            height: 1080,
            fps_centi: 2398,
            bit_rate: Some(4_500_000),
            is_hdr: false,
            color_transfer: None,
            dv_profile: None,
            rotation: None,
            sar: None,
        },
        audio: Some(AudioStream {
            codec: "aac".into(),
            profile: Some("LC".into()),
            sample_rate: Some(48000),
            channels: Some(2),
            bit_rate: Some(128_000),
        }),
        enrichment: None,
    }
}

fn enrichment_full() -> Enrichment {
    Enrichment {
        container_format: Some("Matroska".into()),
        title: Some("My Movie Title".into()),
        video_bit_depth: Some(10),
        video_hdr_format: Some("Dolby Vision / HDR10".into()),
        audio_commercial_name: Some("DTS-HD MA".into()),
        audio_channel_layout: Some("5.1".into()),
        audio_language: Some("en".into()),
    }
}

#[test]
fn filename_line_is_escaped() {
    let lines = build_header_lines(&make_info(), "it's : a test.mkv");
    assert_eq!(lines[0], r"it\'s \: a test.mkv");
}

#[test]
fn file_line_includes_size_duration_bitrate() {
    let lines = build_header_lines(&make_info(), "x.mkv");
    let l = &lines[1];
    assert!(l.contains("Size"));
    assert!(l.contains("1.00 GiB"));
    assert!(l.contains(r"01\:02\:03"));
    assert!(l.contains("5.0 Mb/s"));
}

#[test]
fn video_line_includes_codec_dims_bitrate_fps() {
    let lines = build_header_lines(&make_info(), "x.mkv");
    let l = &lines[2];
    assert!(l.contains("h264 (High)"));
    assert!(l.contains("1920x1080"));
    assert!(l.contains("4500 kb/s"));
    assert!(l.contains("23.98 fps"));
}

#[test]
fn audio_line_includes_codec_rate_layout_bitrate() {
    let lines = build_header_lines(&make_info(), "x.mkv");
    let l = &lines[3];
    assert!(l.contains("aac (LC)"));
    assert!(l.contains("48000 Hz"));
    assert!(l.contains("stereo"));
    assert!(l.contains("128 kb/s"));
}

#[test]
fn audio_line_omitted_when_no_audio() {
    let mut info = make_info();
    info.audio = None;
    let lines = build_header_lines(&info, "x.mkv");
    assert_eq!(lines.len(), 3);
    assert!(!lines.iter().any(|l| l.contains("Audio")));
}

#[test]
fn audio_line_renders_multichannel_count() {
    let mut info = make_info();
    info.audio.as_mut().unwrap().channels = Some(6);
    let lines = build_header_lines(&info, "x.mkv");
    assert!(lines[3].contains("6 ch"));
}

#[test]
fn four_lines_emitted_when_audio_present() {
    let lines = build_header_lines(&make_info(), "x.mkv");
    assert_eq!(lines.len(), 4, "filename + file info + video + audio");
}

#[test]
fn filename_line_uses_title_when_enriched() {
    let mut info = make_info();
    info.enrichment = Some(enrichment_full());
    let lines = build_header_lines(&info, "ignored-filename.mkv");
    assert_eq!(lines[0], "My Movie Title");
}

#[test]
fn filename_line_falls_back_when_enrichment_has_no_title() {
    let mut info = make_info();
    info.enrichment = Some(Enrichment::default());
    let lines = build_header_lines(&info, "fallback.mkv");
    assert_eq!(lines[0], "fallback.mkv");
}

#[test]
fn video_line_injects_bit_depth_and_hdr() {
    let mut info = make_info();
    info.enrichment = Some(enrichment_full());
    let lines = build_header_lines(&info, "x.mkv");
    let l = &lines[2];
    assert!(l.contains("10-bit"));
    assert!(l.contains("Dolby Vision / HDR10"));
    let pos_dims = l.find("1920x1080").unwrap();
    let pos_bit = l.find("10-bit").unwrap();
    let pos_hdr = l.find("Dolby Vision").unwrap();
    assert!(pos_dims < pos_bit && pos_bit < pos_hdr);
}

#[test]
fn audio_line_prefers_commercial_name_and_layout() {
    let mut info = make_info();
    info.enrichment = Some(enrichment_full());
    let lines = build_header_lines(&info, "x.mkv");
    let l = &lines[3];
    assert!(l.contains("DTS-HD MA"));
    assert!(l.contains("5.1"));
    assert!(!l.contains("aac"));
}

#[test]
fn audio_line_appends_language_suffix() {
    let mut info = make_info();
    info.enrichment = Some(enrichment_full());
    let lines = build_header_lines(&info, "x.mkv");
    assert!(lines[3].contains(r"\[en\]"), "language tag should be bracketed, got: {}", lines[3]);
}

#[test]
fn audio_line_preserves_ffprobe_channels_when_enrichment_has_no_layout() {
    let mut info = make_info();
    info.enrichment = Some(Enrichment::default());
    let lines = build_header_lines(&info, "x.mkv");
    assert!(lines[3].contains("stereo"));
}

#[test]
fn no_double_pipe_separator_between_sections() {
    let lines = build_header_lines(&make_info(), "x.mkv");
    for l in &lines {
        assert!(!l.contains(r"  \|  "), "doubled pipe leaked into line: {}", l);
    }
}

#[test]
fn header_lines_exact_text() {
    let lines = build_header_lines(&make_info(), "x.mkv");
    assert_eq!(
        lines,
        vec![
            "x.mkv".to_string(),
            r"Size\: 1.00 GiB | Duration\: 01\:02\:03 | Bitrate\: 5.0 Mb/s".to_string(),
            "Video: h264 (High) | 1920x1080 | 4500 kb/s | 23.98 fps".replace(':', r"\:"),
            "Audio: aac (LC) | 48000 Hz | stereo | 128 kb/s".replace(':', r"\:"),
        ]
    );
}

#[test]
fn header_lines_without_optional_fields() {
    let mut info = make_info();
    info.size_bytes = None;
    info.bit_rate = None;
    info.video.profile = None;
    info.video.bit_rate = None;
    info.audio = Some(AudioStream { codec: "opus".into(), profile: None, sample_rate: None, channels: None, bit_rate: None });
    let lines = build_header_lines(&info, "x.mkv");
    assert_eq!(lines[1], r"Duration\: 01\:02\:03");
    assert_eq!(lines[2], r"Video\: h264 | 1920x1080 | 23.98 fps");
    assert_eq!(lines[3], r"Audio\: opus");
}

#[test]
fn size_and_rate_formatting() {
    assert_eq!(format_gib(0), "0.00 GiB");
    assert_eq!(format_gib(1_073_741_824), "1.00 GiB");
    assert_eq!(format_gib(5_368_709_120), "5.00 GiB");
    assert_eq!(format_mbps(5_200_000), "5.2 Mb/s");
    assert_eq!(format_mbps(999), "0.0 Mb/s");
    assert_eq!(format_kbps(128_999), "128 kb/s");
}

#[test]
fn gib_formatting_matches_float_formatting() {
    let samples: [u64; 10] = [1, 10_737_418, 536_870_912, 1_610_612_736, 3_355_443_200, 123_456_789_012, 4_294_967_295, 999_999_999, 53_687_091, 7];
    for b in samples {
        assert_eq!(format_gib(b), format!("{:.2} GiB", b as f64 / 1_073_741_824.0), "bytes {}", b);
    }
}

#[test]
fn mbps_formatting_matches_float_formatting_off_ties() {
    for bps in [0u64, 1, 49_999, 51_000, 1_234_567, 5_000_000, 12_345_678, 99_999_999] {
        assert_eq!(format_mbps(bps), format!("{:.1} Mb/s", bps as f64 / 1_000_000.0), "bps {}", bps);
    }
}

fn sample_values() -> Vec<u64> {
    let mut v: Vec<u64> = vec![
        0, 1, 49_999, 50_000, 50_001, 150_000, 250_000, 350_000, 450_000, 1_050_000, 5_200_000,
        134_217_728, 402_653_184, 1 << 52, (1 << 53) - 1, 1 << 53, (1 << 53) + 1, (1 << 53) + 3,
        (1 << 54) + 2, 1_000_000_000_050_000, u64::MAX, u64::MAX - 1024, u64::MAX / 3,
    ];
    let mut x: u64 = 0x2545_f491_4f6c_dd1d;
    for _ in 0..2000 {
        x = x.wrapping_mul(6364136223846793005).wrapping_add(1442695040888963407);
        v.push(x >> (x % 60));
        v.push((x % 1_000_000) * 100_000 + 50_000);
        v.push((x % 100_000_000) * 1_000_000 / 1000 * 1000 + 500);
    }
    v
}

#[test]
fn mbps_matches_float_formatting() {
    assert_eq!(format_mbps(50_000), "0.1 Mb/s");
    assert_eq!(format_mbps(150_000), "0.1 Mb/s");
    for v in sample_values() {
        assert_eq!(format_mbps(v), format!("{:.1} Mb/s", v as f64 / 1_000_000.0), "bps = {}", v);
    }
}

#[test]
fn gib_matches_float_formatting() {
    for v in sample_values() {
        assert_eq!(format_gib(v), format!("{:.2} GiB", v as f64 / 1_073_741_824.0), "bytes = {}", v);
    }
}
