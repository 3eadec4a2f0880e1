use mosaic::cli::{AnimatedSheetArgs, ImgFormat, ReelArgs, ReelFormat as ReelFlag, ScreenshotsArgs, Shared, SheetArgs, Theme};
use mosaic::config::Config;
use mosaic::format::{resolve_bool, resolve_img_format, resolve_reel_format, resolve_theme};
use mosaic::options::{
    exit_code, resolve_animated_sheet_options, resolve_reel_options, resolve_screenshots_options,
    resolve_sheet_options, summary_line,
};
use mosaic::output_path::{OutputFormat, ReelFormat, SheetTheme};

fn shared() -> Shared {
    Shared { output: None, quiet: false, verbose: false, no_recursive: false, inputs: vec!["a.mkv".into()] }
}

fn sheet_args() -> SheetArgs {
    SheetArgs {
        cols: Some(2),
        rows: Some(2),
        width: None,
        gap: None,
        thumb_font: None,
        header_font: None,
        timestamps: false,
        no_timestamps: false,
        header: false,
        no_header: false,
        format: None,
        quality: None,
        theme: None,
        suffix: None,
        shared: shared(),
    }
}

#[test]
fn config_file_provides_default_suffix() {
    let mut cfg = Config::default();
    cfg.sheet.suffix = Some("_fromconfig".into());
    let o = resolve_sheet_options(&sheet_args(), &cfg).unwrap();
    assert_eq!(o.suffix, "_fromconfig");
}

#[test]
fn cli_flag_suffix_overrides_config() {
    let mut cfg = Config::default();
    cfg.sheet.suffix = Some("_fromconfig".into());
    let mut args = sheet_args();
    args.suffix = Some("_fromflag".into());
    let o = resolve_sheet_options(&args, &cfg).unwrap();
    assert_eq!(o.suffix, "_fromflag");
}

#[test]
fn builtin_defaults_used_when_config_empty() {
    let o = resolve_sheet_options(&sheet_args(), &Config::default()).unwrap();
    assert_eq!(o.suffix, "_sheet");
    assert_eq!((o.cols, o.rows, o.width, o.gap), (2, 2, 1920, 10));
    assert_eq!((o.thumb_font_size, o.header_font_size, o.jpeg_quality), (18, 20, 92));
    assert!(o.show_timestamps && o.show_header);
    assert_eq!(o.format, OutputFormat::Png);
    assert_eq!(o.theme, SheetTheme::Dark);
}

#[test]
fn rejected_suffix_is_an_error() {
    let mut args = sheet_args();
    args.suffix = Some("../x".into());
    let e = resolve_sheet_options(&args, &Config::default()).unwrap_err();
    assert!(e.starts_with("suffix must not contain path separators"));
}

#[test]
fn config_switches_and_formats_apply_without_flags() {
    let mut cfg = Config::default();
    cfg.sheet.show_header = Some(false);
    cfg.sheet.format = Some("JPEG".into());
    cfg.sheet.theme = Some("light".into());
    cfg.sheet.cols = Some(5);
    let mut args = sheet_args();
    args.cols = None;
    let o = resolve_sheet_options(&args, &cfg).unwrap();
    assert!(!o.show_header);
    assert_eq!(o.cols, 5);
    assert_eq!(o.format, OutputFormat::Jpeg);
    assert_eq!(o.theme, SheetTheme::Light);
    args.header = true;
    args.format = Some(ImgFormat::Png);
    args.theme = Some(Theme::Dark);
    let o = resolve_sheet_options(&args, &cfg).unwrap();
    assert!(o.show_header);
    assert_eq!(o.format, OutputFormat::Png);
    assert_eq!(o.theme, SheetTheme::Dark);
}

#[test]
fn other_subcommands_resolve_their_defaults() {
    let cfg = Config::default();
    let s = resolve_screenshots_options(
        &ScreenshotsArgs { count: None, format: None, quality: None, suffix: None, shared: shared() },
        &cfg,
    )
    .unwrap();
    assert_eq!((s.count, s.jpeg_quality, s.format), (8, 92, OutputFormat::Png));
    assert_eq!(s.suffix, "_screens_");
    let r = resolve_reel_options(
        &ReelArgs { count: None, clip_length: None, height: None, fps: None, quality: None, format: Some(ReelFlag::Gif), suffix: None, shared: shared() },
        &cfg,
    )
    .unwrap();
    assert_eq!((r.count, r.clip_length_secs, r.height, r.fps, r.quality), (15, 2, 360, 24, 75));
    assert_eq!(r.format, ReelFormat::Gif);
    assert_eq!(r.suffix, "_reel");
    let a = resolve_animated_sheet_options(
        &AnimatedSheetArgs {
            cols: None, rows: None, width: None, gap: None, clip_length: None, fps: None, quality: None,
            thumb_font: None, header_font: None, timestamps: false, no_timestamps: true, header: false,
            no_header: false, theme: None, suffix: None, shared: shared(),
        },
        &cfg,
    )
    .unwrap();
    assert_eq!((a.cols, a.rows, a.width, a.gap, a.clip_length_secs, a.fps), (3, 6, 1280, 8, 2, 12));
    assert!(!a.show_timestamps && a.show_header);
    assert_eq!(a.suffix, "_animated_sheet");
}

#[test]
fn bool_resolution_precedence() {
    assert!(!resolve_bool(true, true, Some(true), true));
    assert!(resolve_bool(true, false, Some(false), false));
    assert!(!resolve_bool(false, false, Some(false), true));
    assert!(resolve_bool(false, false, None, true));
}

#[test]
fn format_and_theme_resolution() {
    assert_eq!(resolve_img_format(&None, Some("Jpeg"), "png"), OutputFormat::Jpeg);
    assert_eq!(resolve_img_format(&None, Some("gif"), "png"), OutputFormat::Png);
    assert_eq!(resolve_img_format(&Some(ImgFormat::Jpeg), Some("png"), "png"), OutputFormat::Jpeg);
    assert_eq!(resolve_theme(&None, Some("Light"), "dark"), SheetTheme::Light);
    assert_eq!(resolve_theme(&None, None, "dark"), SheetTheme::Dark);
    assert_eq!(resolve_reel_format(&None, Some("webm"), "webp"), ReelFormat::Webm);
    assert_eq!(resolve_reel_format(&None, Some("mp4"), "webp"), ReelFormat::Webp);
}

#[test]
fn exit_codes_and_summary() {
    assert_eq!(exit_code(true, 3), 130);
    assert_eq!(exit_code(false, 1), 1);
    assert_eq!(exit_code(false, 0), 0);
    assert_eq!(summary_line(2, 1, 5, true), "2 done · 1 failed · 2 cancelled");
    assert_eq!(summary_line(2, 1, 5, false), "2 done · 1 failed · 0 cancelled");
}
