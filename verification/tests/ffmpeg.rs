use mosaic::ffmpeg::{
    base_args, fallback_dirs, ffmpeg_test_hook_locate, h264_clip_encoder, priority_dirs,
    tonemap_filter, vf_chain, ToolsError,
};

#[test]
fn base_args_returns_standard_ffmpeg_prelude() {
    let args = base_args();
    assert_eq!(args, vec!["-hide_banner", "-loglevel", "error", "-y"]);
}

#[test]
fn tonemap_filter_returns_chain_for_pq() {
    let chain = tonemap_filter(true, Some("smpte2084"), None).unwrap();
    assert!(chain.contains("tonemap=hable"));
    assert!(chain.contains("tin=smpte2084"));
    assert!(chain.contains("min=bt2020nc"));
    assert!(chain.contains("pin=bt2020"));
}

#[test]
fn tonemap_filter_returns_chain_for_hlg() {
    let chain = tonemap_filter(true, Some("arib-std-b67"), None).unwrap();
    assert!(chain.contains("tin=arib-std-b67"));
}

#[test]
fn tonemap_filter_skips_when_transfer_missing() {
    assert!(tonemap_filter(true, None, None).is_none());
}

#[test]
fn tonemap_filter_skips_when_transfer_unknown() {
    assert!(tonemap_filter(true, Some("unknown"), None).is_none());
}

#[test]
fn tonemap_filter_skips_sdr_transfer() {
    assert!(tonemap_filter(true, Some("bt709"), None).is_none());
}

#[test]
fn tonemap_filter_returns_none_when_zscale_missing() {
    assert!(tonemap_filter(false, Some("smpte2084"), None).is_none());
}

#[test]
fn tonemap_filter_returns_ccm_for_dv_p5() {
    let chain = tonemap_filter(false, None, Some(5)).unwrap();
    assert!(chain.contains("colorchannelmixer"));
    assert!(chain.contains("rr=0.2938"));
    assert!(!chain.contains("tonemap"));
}

#[test]
fn tonemap_filter_dv_p5_ignores_zscale() {
    let a = tonemap_filter(false, None, Some(5)).unwrap();
    let b = tonemap_filter(true, None, Some(5)).unwrap();
    assert_eq!(a, b);
}

#[test]
fn tonemap_filter_full_pq_chain() {
    assert_eq!(
        tonemap_filter(true, Some("smpte2084"), Some(8)).unwrap(),
        "zscale=tin=smpte2084:min=bt2020nc:pin=bt2020:t=linear:npl=100,format=gbrpf32le,zscale=p=bt709,tonemap=hable:desat=0,zscale=t=bt709:m=bt709:r=tv,format=yuv420p"
    );
}

#[test]
fn vf_chain_drops_missing_parts() {
    assert_eq!(vf_chain(&[Some("a"), None, Some("b=1")]), "a,b=1");
    assert_eq!(vf_chain(&[None, None]), "");
    assert_eq!(vf_chain(&[]), "");
}

#[test]
fn h264_clip_encoder_flags() {
    assert_eq!(
        h264_clip_encoder(),
        vec!["-c:v", "libx264", "-preset", "veryfast", "-crf", "23", "-pix_fmt", "yuv420p"]
    );
}

#[test]
fn search_dirs_by_platform() {
    assert_eq!(priority_dirs(true), vec!["/opt/homebrew/opt/ffmpeg-full/bin", "/usr/local/opt/ffmpeg-full/bin"]);
    assert!(priority_dirs(false).is_empty());
    assert_eq!(fallback_dirs(true), vec!["/opt/homebrew/bin", "/usr/local/bin"]);
    assert!(fallback_dirs(false).is_empty());
}

#[test]
fn locate_reports_first_missing_tool() {
    let s = |x: &str| Some(x.to_string());
    let t = ffmpeg_test_hook_locate(s("/a/ffmpeg"), s("/a/ffprobe"), s("/a/mediainfo")).unwrap();
    assert_eq!(t.ffmpeg, "/a/ffmpeg");
    assert_eq!(t.ffprobe, "/a/ffprobe");
    assert_eq!(t.mediainfo, "/a/mediainfo");
    assert_eq!(ffmpeg_test_hook_locate(None, None, None).unwrap_err(), ToolsError::Ffmpeg);
    assert_eq!(ffmpeg_test_hook_locate(s("f"), None, None).unwrap_err(), ToolsError::Ffprobe);
    assert_eq!(ffmpeg_test_hook_locate(s("f"), s("p"), None).unwrap_err(), ToolsError::MediaInfo);
    assert_eq!(ToolsError::MediaInfo.message(), "mediainfo not found on PATH");
}

#[test]
fn seek_input_args_produces_dual_ss_with_copyts() {
    let args = mosaic::ffmpeg::seek_input_args("/v/movie.mkv", 42_500);
    assert_eq!(args, vec!["-ss", "42.500", "-copyts", "-i", "/v/movie.mkv", "-ss", "42.500", "-an"]);
}

#[test]
fn seek_input_args_clip_has_no_copyts() {
    let args = mosaic::ffmpeg::seek_input_args_clip("/v/movie.mkv", 42_500);
    assert_eq!(args, vec!["-ss", "42.500", "-i", "/v/movie.mkv", "-an"]);
}

#[test]
fn filter_listing_is_read_by_second_field() {
    let listing = " Filters:\n  T.. = Timeline support\n ... zscale            V->V       Apply resizing.\r\n TS. scale             V->V       Scale the input video size.\n";
    assert!(mosaic::ffmpeg::lists_filter(listing, "zscale"));
    assert!(mosaic::ffmpeg::lists_filter(listing, "scale"));
    assert!(!mosaic::ffmpeg::lists_filter(listing, "V->V"));
    assert!(!mosaic::ffmpeg::lists_filter(listing, "drawtext"));
    assert!(!mosaic::ffmpeg::lists_filter("", "zscale"));
}

#[test]
fn secs3_renders_milliseconds() {
    assert_eq!(mosaic::ffmpeg::secs3_string(0), "0.000");
    assert_eq!(mosaic::ffmpeg::secs3_string(7), "0.007");
    assert_eq!(mosaic::ffmpeg::secs3_string(3_723_042), "3723.042");
}
