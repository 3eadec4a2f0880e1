use mosaic::output_path::{jpeg_qv, vp9_crf, ReelFormat};
use mosaic::preview_reel::{build_extract_args, build_stitch_args, render_concat_list};
use mosaic::video_info::{VideoInfo, VideoStream};

fn sample_info(duration_ms: u64, height: u32) -> VideoInfo {
    VideoInfo {
        filename: String::new(),
        duration_ms,
        size_bytes: None,
        bit_rate: None,
        video: VideoStream {
            codec: String::new(),
            profile: None,
            width: 1920,
            height,
            fps_centi: 3000,
            bit_rate: None,
            is_hdr: false,
            color_transfer: None,
            dv_profile: None,
            rotation: None,
            sar: None,
        },
        audio: None,
        enrichment: None,
    }
}

fn has_pair(args: &[String], a: &str, b: &str) -> bool {
    args.windows(2).any(|w| w[0] == a && w[1] == b)
}

#[test]
fn extract_args_basic() {
    let info = sample_info(60_000, 1080);
    let args = build_extract_args("/v/movie.mkv", &info, 12_500, 5, 480, false, "/tmp/out/clip_01.mp4");
    assert_eq!(args[0], "-hide_banner");
    assert!(args.iter().any(|a| a == "-an"));
    assert!(!args.iter().any(|a| a == "-copyts"));
    assert!(has_pair(&args, "-ss", "12.500"));
    assert!(has_pair(&args, "-i", "/v/movie.mkv"));
    assert!(has_pair(&args, "-t", "5.000"));
    assert!(has_pair(&args, "-vf", "scale=-2:480"));
    assert_eq!(args.last().unwrap(), "/tmp/out/clip_01.mp4");
}

#[test]
fn extract_args_skips_scale_when_source_smaller_or_equal() {
    let info = sample_info(60_000, 480);
    let args = build_extract_args("/v/movie.mkv", &info, 12_000, 5, 480, false, "/tmp/out/clip_01.mp4");
    assert!(!args.iter().any(|a| a == "-vf"));
}

#[test]
fn extract_args_clamps_duration_when_overshoots_end() {
    let info = sample_info(10_000, 1080);
    let args = build_extract_args("/v/movie.mkv", &info, 8_000, 5, 480, false, "/tmp/out/clip_03.mp4");
    assert!(has_pair(&args, "-t", "2.000"));
}

#[test]
fn extract_args_tonemaps_before_scaling() {
    let mut info = sample_info(60_000, 2160);
    info.video.color_transfer = Some("smpte2084".into());
    let args = build_extract_args("/v/hdr.mkv", &info, 0, 3, 480, true, "/tmp/c.mp4");
    let vf_pos = args.iter().position(|a| a == "-vf").unwrap();
    assert!(args[vf_pos + 1].starts_with("zscale=tin=smpte2084"));
    assert!(args[vf_pos + 1].ends_with(",scale=-2:480"));
    assert_eq!(
        args[args.len() - 9..].to_vec(),
        vec!["-c:v", "libx264", "-preset", "veryfast", "-crf", "23", "-pix_fmt", "yuv420p", "/tmp/c.mp4"]
    );
}

#[test]
fn extract_args_exact_sequence_past_end() {
    let info = sample_info(4_000, 720);
    let args = build_extract_args("s.mp4", &info, 6_000, 2, 720, false, "o.mp4");
    assert_eq!(
        args,
        vec![
            "-hide_banner", "-loglevel", "error", "-y", "-ss", "6.000", "-i", "s.mp4", "-an", "-t",
            "0.000", "-c:v", "libx264", "-preset", "veryfast", "-crf", "23", "-pix_fmt", "yuv420p",
            "o.mp4"
        ]
    );
}

#[test]
fn stitch_args_uses_concat_demuxer_and_libwebp() {
    let args = build_stitch_args("/tmp/concat.txt", 24, 75, ReelFormat::Webp, "/out/movie - reel.webp");
    assert_eq!(args[0], "-hide_banner");
    assert!(has_pair(&args, "-f", "concat"));
    assert!(has_pair(&args, "-safe", "0"));
    assert!(has_pair(&args, "-i", "/tmp/concat.txt"));
    assert!(has_pair(&args, "-vf", "fps=24"));
    assert!(has_pair(&args, "-c:v", "libwebp"));
    assert!(has_pair(&args, "-loop", "0"));
    assert!(has_pair(&args, "-quality", "75"));
    assert_eq!(args.last().unwrap(), "/out/movie - reel.webp");
}

#[test]
fn stitch_args_webm_uses_libvpx_vp9_crf_mode() {
    let args = build_stitch_args("/tmp/concat.txt", 24, 75, ReelFormat::Webm, "/out/movie - reel.webm");
    assert!(has_pair(&args, "-vf", "fps=24"));
    assert!(has_pair(&args, "-c:v", "libvpx-vp9"));
    assert!(has_pair(&args, "-b:v", "0"));
    assert!(args.windows(2).any(|w| w[0] == "-crf"));
    assert!(has_pair(&args, "-pix_fmt", "yuv420p"));
    assert!(!args.iter().any(|a| a == "-loop"));
    assert!(!args.iter().any(|a| a == "-quality"));
    assert_eq!(args.last().unwrap(), "/out/movie - reel.webm");
}

#[test]
fn stitch_args_webm_crf_follows_quality() {
    let args = build_stitch_args("l.txt", 24, 75, ReelFormat::Webm, "o.webm");
    assert!(has_pair(&args, "-crf", &vp9_crf(75).to_string()));
    assert_eq!(vp9_crf(75), 15);
    assert_eq!(vp9_crf(100), 0);
    assert_eq!(vp9_crf(0), 63);
    assert_eq!(vp9_crf(250), 0);
    assert_eq!(jpeg_qv(100), 2);
    assert_eq!(jpeg_qv(50), 31);
    assert_eq!(jpeg_qv(92), 6);
    assert_eq!(jpeg_qv(10), 31);
}

#[test]
fn stitch_args_gif_uses_filter_complex_palettegen() {
    let args = build_stitch_args("/tmp/concat.txt", 12, 75, ReelFormat::Gif, "/out/movie - reel.gif");
    assert!(!args.iter().any(|a| a == "-vf"));
    let fc_pos = args.iter().position(|a| a == "-filter_complex").expect("gif branch must use -filter_complex");
    let graph = &args[fc_pos + 1];
    assert!(graph.contains("fps=12"));
    assert!(graph.contains("split"));
    assert!(graph.contains("palettegen=stats_mode=diff"));
    assert!(graph.contains("max_colors=128"));
    assert!(graph.contains("paletteuse=dither=sierra2_4a"));
    assert!(has_pair(&args, "-loop", "0"));
    assert!(!args.iter().any(|a| a == "-c:v"));
    assert_eq!(args.last().unwrap(), "/out/movie - reel.gif");
}

#[test]
fn stitch_args_gif_caps_fps_at_12() {
    let args = build_stitch_args("/tmp/concat.txt", 30, 75, ReelFormat::Gif, "/out/movie - reel.gif");
    let fc_pos = args.iter().position(|a| a == "-filter_complex").unwrap();
    let graph = &args[fc_pos + 1];
    assert!(graph.contains("fps=12"), "expected fps=12 cap, got graph: {}", graph);
    assert!(!graph.contains("fps=30"));
}

#[test]
fn stitch_args_gif_keeps_lower_requested_fps() {
    let args = build_stitch_args("/tmp/concat.txt", 8, 75, ReelFormat::Gif, "/out/movie - reel.gif");
    let fc_pos = args.iter().position(|a| a == "-filter_complex").unwrap();
    let graph = &args[fc_pos + 1];
    assert!(graph.contains("fps=8"), "fps below cap must pass through; got: {}", graph);
}

#[test]
fn concat_list_basic() {
    let list = render_concat_list(&vec!["/tmp/a/clip_01.mp4".to_string(), "/tmp/a/clip_02.mp4".to_string()]);
    assert_eq!(list, "file '/tmp/a/clip_01.mp4'\nfile '/tmp/a/clip_02.mp4'\n");
}

#[test]
fn concat_list_escapes_single_quote_and_backslash() {
    let list = render_concat_list(&vec![r"/tmp/o'brien\videos/clip.mp4".to_string()]);
    assert_eq!(list, "file '/tmp/o\\'brien\\\\videos/clip.mp4'\n");
}

#[test]
fn concat_list_empty() {
    assert_eq!(render_concat_list(&vec![]), "");
}
