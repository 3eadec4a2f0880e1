//! Options of each pipeline, and how a command-line run resolves them from its flags, the
//! configuration file and the built-in defaults.

use vstd::prelude::*;
use crate::cli::{AnimatedSheetArgs, ReelArgs, ScreenshotsArgs, SheetArgs};
use crate::config::Config;
use crate::defaults;
use crate::format::{
    opt_view, resolve_bool, resolve_img_format, resolve_reel_format, resolve_theme,
    spec_resolve_img_format, spec_resolve_reel_format, spec_resolve_theme,
};
use crate::output_path::{
    OutputFormat, ReelFormat, SheetTheme, DEFAULT_ANIMATED_SUFFIX, DEFAULT_PREVIEW_SUFFIX,
    DEFAULT_SHEET_SUFFIX, DEFAULT_SHOTS_SUFFIX,
};
use crate::suffix::{spec_validate_suffix, validate};
use crate::text::{dec, push_dec};

verus! {

/// Options of the screenshots pipeline.
#[derive(Debug, Clone, PartialEq, Eq)]
pub struct ScreenshotsOptions {
    pub count: u32,
    pub format: OutputFormat,
    pub jpeg_quality: u32,
    pub suffix: String,
}

/// Options of the contact-sheet pipeline.
#[derive(Debug, Clone, PartialEq, Eq)]
pub struct SheetOptions {
    pub cols: u32,
    pub rows: u32,
    pub width: u32,
    pub gap: u32,
    pub thumb_font_size: u32,
    pub header_font_size: u32,
    pub show_timestamps: bool,
    pub show_header: bool,
    pub format: OutputFormat,
    pub jpeg_quality: u32,
    pub suffix: String,
    pub theme: SheetTheme,
}

/// Options of the preview-reel pipeline.
#[derive(Debug, Clone, PartialEq, Eq)]
pub struct PreviewOptions {
    pub count: u32,
    pub clip_length_secs: u32,
    pub height: u32,
    pub fps: u32,
    pub quality: u32,
    pub suffix: String,
    pub format: ReelFormat,
}

/// Options of the animated-sheet pipeline.
#[derive(Debug, Clone, PartialEq, Eq)]
pub struct AnimatedSheetOptions {
    pub cols: u32,
    pub rows: u32,
    pub width: u32,
    pub gap: u32,
    pub clip_length_secs: u32,
    pub fps: u32,
    pub quality: u32,
    pub thumb_font_size: u32,
    pub header_font_size: u32,
    pub show_timestamps: bool,
    pub show_header: bool,
    pub suffix: String,
    pub theme: SheetTheme,
}

/// A numeric setting: the flag, else the configured value, else the default.
pub open spec fn pick(flag: Option<u32>, cfg: Option<u32>, default: u32) -> u32 {
    match flag {
        Some(v) => v,
        None => match cfg { Some(v) => v, None => default },
    }
}

fn pick_exec(flag: Option<u32>, cfg: Option<u32>, default: u32) -> (v: u32)
    ensures
        v == pick(flag, cfg, default),
{
    match flag {
        Some(v) => v,
        None => match cfg {
            Some(v) => v,
            None => default,
        },
    }
}

/// The suffix a run uses before validation: the flag, else the configured one, else
/// `default`.
pub open spec fn pick_suffix(flag: Option<String>, cfg: Option<String>, default: Seq<char>) -> Seq<char> {
    match flag {
        Some(s) => s@,
        None => match cfg { Some(s) => s@, None => default },
    }
}

fn pick_suffix_exec(flag: &Option<String>, cfg: &Option<String>, default: &str) -> (s: String)
    ensures
        s@ == pick_suffix(*flag, *cfg, default@),
{
    match flag {
        Some(s) => s.clone(),
        None => match cfg {
            Some(s) => s.clone(),
            None => String::from_str(default),
        },
    }
}

/// The view of an optional string.
pub open spec fn opt_string_view(s: Option<String>) -> Option<Seq<char>> {
    match s { Some(x) => Some(x@), None => None }
}

fn as_str_opt(s: &Option<String>) -> (r: Option<&str>)
    ensures
        opt_view(r) == opt_string_view(*s),
{
    match s {
        Some(x) => Some(x.as_str()),
        None => None,
    }
}

/// What `resolve_screenshots_options` yields: the validated suffix, or its error.
pub open spec fn screenshots_options_ok(o: ScreenshotsOptions, args: ScreenshotsArgs, cfg: Config) -> bool {
    &&& o.count == pick(args.count, cfg.screenshots.count, defaults::screenshots::COUNT)
    &&& o.format == spec_resolve_img_format(args.format, opt_string_view(cfg.screenshots.format), defaults::screenshots::FORMAT@)
    &&& o.jpeg_quality == pick(args.quality, cfg.screenshots.quality, defaults::screenshots::JPEG_QUALITY)
    &&& Ok::<Seq<char>, Seq<char>>(o.suffix@) == spec_validate_suffix(pick_suffix(args.suffix, cfg.screenshots.suffix, DEFAULT_SHOTS_SUFFIX@))
}

/// Resolves the screenshots options of a command-line run; fails with the suffix error
/// when the chosen suffix is rejected.
pub fn resolve_screenshots_options(args: &ScreenshotsArgs, cfg: &Config) -> (r: Result<ScreenshotsOptions, String>)
    ensures
        match r {
            Ok(o) => screenshots_options_ok(o, *args, *cfg),
            Err(e) => spec_validate_suffix(pick_suffix(args.suffix, cfg.screenshots.suffix, DEFAULT_SHOTS_SUFFIX@)) == Err::<Seq<char>, Seq<char>>(e@),
        },
{
    let count = pick_exec(args.count, cfg.screenshots.count, defaults::screenshots::COUNT);
    proof {
        reveal_strlit("png");
    }
    let format = resolve_img_format(&args.format, as_str_opt(&cfg.screenshots.format), defaults::screenshots::FORMAT);
    let jpeg_quality = pick_exec(args.quality, cfg.screenshots.quality, defaults::screenshots::JPEG_QUALITY);
    let raw = pick_suffix_exec(&args.suffix, &cfg.screenshots.suffix, DEFAULT_SHOTS_SUFFIX);
    let suffix = match validate(raw.as_str()) {
        Ok(s) => s,
        Err(e) => return Err(e),
    };
    Ok(ScreenshotsOptions { count, format, jpeg_quality, suffix })
}

/// What `resolve_sheet_options` yields.
pub open spec fn sheet_options_ok(o: SheetOptions, args: SheetArgs, cfg: Config) -> bool {
    &&& o.cols == pick(args.cols, cfg.sheet.cols, defaults::sheet::COLS)
    &&& o.rows == pick(args.rows, cfg.sheet.rows, defaults::sheet::ROWS)
    &&& o.width == pick(args.width, cfg.sheet.width, defaults::sheet::WIDTH)
    &&& o.gap == pick(args.gap, cfg.sheet.gap, defaults::sheet::GAP)
    &&& o.thumb_font_size == pick(args.thumb_font, cfg.sheet.thumb_font, defaults::sheet::THUMB_FONT)
    &&& o.header_font_size == pick(args.header_font, cfg.sheet.header_font, defaults::sheet::HEADER_FONT)
    &&& o.show_timestamps == (if args.no_timestamps { false } else if args.timestamps { true } else {
        match cfg.sheet.show_timestamps { Some(v) => v, None => true } })
    &&& o.show_header == (if args.no_header { false } else if args.header { true } else {
        match cfg.sheet.show_header { Some(v) => v, None => true } })
    &&& o.format == spec_resolve_img_format(args.format, opt_string_view(cfg.sheet.format), defaults::sheet::FORMAT@)
    &&& o.jpeg_quality == pick(args.quality, cfg.sheet.quality, defaults::sheet::JPEG_QUALITY)
    &&& o.theme == spec_resolve_theme(args.theme, opt_string_view(cfg.sheet.theme), defaults::sheet::THEME@)
    &&& Ok::<Seq<char>, Seq<char>>(o.suffix@) == spec_validate_suffix(pick_suffix(args.suffix, cfg.sheet.suffix, DEFAULT_SHEET_SUFFIX@))
}

/// Resolves the contact-sheet options of a command-line run; fails with the suffix error
/// when the chosen suffix is rejected.
pub fn resolve_sheet_options(args: &SheetArgs, cfg: &Config) -> (r: Result<SheetOptions, String>)
    ensures
        match r {
            Ok(o) => sheet_options_ok(o, *args, *cfg),
            Err(e) => spec_validate_suffix(pick_suffix(args.suffix, cfg.sheet.suffix, DEFAULT_SHEET_SUFFIX@)) == Err::<Seq<char>, Seq<char>>(e@),
        },
{
    let raw = pick_suffix_exec(&args.suffix, &cfg.sheet.suffix, DEFAULT_SHEET_SUFFIX);
    let suffix = match validate(raw.as_str()) {
        Ok(s) => s,
        Err(e) => return Err(e),
    };
    proof {
        reveal_strlit("png");
        reveal_strlit("dark");
    }
    Ok(SheetOptions {
        cols: pick_exec(args.cols, cfg.sheet.cols, defaults::sheet::COLS),
        rows: pick_exec(args.rows, cfg.sheet.rows, defaults::sheet::ROWS),
        width: pick_exec(args.width, cfg.sheet.width, defaults::sheet::WIDTH),
        gap: pick_exec(args.gap, cfg.sheet.gap, defaults::sheet::GAP),
        thumb_font_size: pick_exec(args.thumb_font, cfg.sheet.thumb_font, defaults::sheet::THUMB_FONT),
        header_font_size: pick_exec(args.header_font, cfg.sheet.header_font, defaults::sheet::HEADER_FONT),
        show_timestamps: resolve_bool(args.timestamps, args.no_timestamps, cfg.sheet.show_timestamps, true),
        show_header: resolve_bool(args.header, args.no_header, cfg.sheet.show_header, true),
        format: resolve_img_format(&args.format, as_str_opt(&cfg.sheet.format), defaults::sheet::FORMAT),
        jpeg_quality: pick_exec(args.quality, cfg.sheet.quality, defaults::sheet::JPEG_QUALITY),
        suffix,
        theme: resolve_theme(&args.theme, as_str_opt(&cfg.sheet.theme), defaults::sheet::THEME),
    })
}

/// What `resolve_reel_options` yields.
pub open spec fn reel_options_ok(o: PreviewOptions, args: ReelArgs, cfg: Config) -> bool {
    &&& o.count == pick(args.count, cfg.reel.count, defaults::reel::COUNT)
    &&& o.clip_length_secs == pick(args.clip_length, cfg.reel.clip_length_secs, defaults::reel::CLIP_LENGTH_SECS)
    &&& o.height == pick(args.height, cfg.reel.height, defaults::reel::HEIGHT)
    &&& o.fps == pick(args.fps, cfg.reel.fps, defaults::reel::FPS)
    &&& o.quality == pick(args.quality, cfg.reel.quality, defaults::reel::QUALITY)
    &&& o.format == spec_resolve_reel_format(args.format, opt_string_view(cfg.reel.format), defaults::reel::FORMAT@)
    &&& Ok::<Seq<char>, Seq<char>>(o.suffix@) == spec_validate_suffix(pick_suffix(args.suffix, cfg.reel.suffix, DEFAULT_PREVIEW_SUFFIX@))
}

/// Resolves the preview-reel options of a command-line run; fails with the suffix error
/// when the chosen suffix is rejected.
pub fn resolve_reel_options(args: &ReelArgs, cfg: &Config) -> (r: Result<PreviewOptions, String>)
    ensures
        match r {
            Ok(o) => reel_options_ok(o, *args, *cfg),
            Err(e) => spec_validate_suffix(pick_suffix(args.suffix, cfg.reel.suffix, DEFAULT_PREVIEW_SUFFIX@)) == Err::<Seq<char>, Seq<char>>(e@),
        },
{
    let raw = pick_suffix_exec(&args.suffix, &cfg.reel.suffix, DEFAULT_PREVIEW_SUFFIX);
    let suffix = match validate(raw.as_str()) {
        Ok(s) => s,
        Err(e) => return Err(e),
    };
    proof {
        reveal_strlit("webp");
    }
    Ok(PreviewOptions {
        count: pick_exec(args.count, cfg.reel.count, defaults::reel::COUNT),
        clip_length_secs: pick_exec(args.clip_length, cfg.reel.clip_length_secs, defaults::reel::CLIP_LENGTH_SECS),
        height: pick_exec(args.height, cfg.reel.height, defaults::reel::HEIGHT),
        fps: pick_exec(args.fps, cfg.reel.fps, defaults::reel::FPS),
        quality: pick_exec(args.quality, cfg.reel.quality, defaults::reel::QUALITY),
        suffix,
        format: resolve_reel_format(&args.format, as_str_opt(&cfg.reel.format), defaults::reel::FORMAT),
    })
}

/// What `resolve_animated_sheet_options` yields.
pub open spec fn animated_sheet_options_ok(o: AnimatedSheetOptions, args: AnimatedSheetArgs, cfg: Config) -> bool {
    &&& o.cols == pick(args.cols, cfg.animated_sheet.cols, defaults::animated_sheet::COLS)
    &&& o.rows == pick(args.rows, cfg.animated_sheet.rows, defaults::animated_sheet::ROWS)
    &&& o.width == pick(args.width, cfg.animated_sheet.width, defaults::animated_sheet::WIDTH)
    &&& o.gap == pick(args.gap, cfg.animated_sheet.gap, defaults::animated_sheet::GAP)
    &&& o.clip_length_secs == pick(args.clip_length, cfg.animated_sheet.clip_length_secs, defaults::animated_sheet::CLIP_LENGTH_SECS)
    &&& o.fps == pick(args.fps, cfg.animated_sheet.fps, defaults::animated_sheet::FPS)
    &&& o.quality == pick(args.quality, cfg.animated_sheet.quality, defaults::animated_sheet::QUALITY)
    &&& o.thumb_font_size == pick(args.thumb_font, cfg.animated_sheet.thumb_font, defaults::animated_sheet::THUMB_FONT)
    &&& o.header_font_size == pick(args.header_font, cfg.animated_sheet.header_font, defaults::animated_sheet::HEADER_FONT)
    &&& o.show_timestamps == (if args.no_timestamps { false } else if args.timestamps { true } else {
        match cfg.animated_sheet.show_timestamps { Some(v) => v, None => true } })
    &&& o.show_header == (if args.no_header { false } else if args.header { true } else {
        match cfg.animated_sheet.show_header { Some(v) => v, None => true } })
    &&& o.theme == spec_resolve_theme(args.theme, opt_string_view(cfg.animated_sheet.theme), defaults::animated_sheet::THEME@)
    &&& Ok::<Seq<char>, Seq<char>>(o.suffix@) == spec_validate_suffix(pick_suffix(args.suffix, cfg.animated_sheet.suffix, DEFAULT_ANIMATED_SUFFIX@))
}

/// Resolves the animated-sheet options of a command-line run; fails with the suffix error
/// when the chosen suffix is rejected.
pub fn resolve_animated_sheet_options(args: &AnimatedSheetArgs, cfg: &Config) -> (r: Result<AnimatedSheetOptions, String>)
    ensures
        match r {
            Ok(o) => animated_sheet_options_ok(o, *args, *cfg),
            Err(e) => spec_validate_suffix(pick_suffix(args.suffix, cfg.animated_sheet.suffix, DEFAULT_ANIMATED_SUFFIX@)) == Err::<Seq<char>, Seq<char>>(e@),
        },
{
    let raw = pick_suffix_exec(&args.suffix, &cfg.animated_sheet.suffix, DEFAULT_ANIMATED_SUFFIX);
    let suffix = match validate(raw.as_str()) {
        Ok(s) => s,
        Err(e) => return Err(e),
    };
    proof {
        reveal_strlit("dark");
    }
    Ok(AnimatedSheetOptions {
        cols: pick_exec(args.cols, cfg.animated_sheet.cols, defaults::animated_sheet::COLS),
        rows: pick_exec(args.rows, cfg.animated_sheet.rows, defaults::animated_sheet::ROWS),
        width: pick_exec(args.width, cfg.animated_sheet.width, defaults::animated_sheet::WIDTH),
        gap: pick_exec(args.gap, cfg.animated_sheet.gap, defaults::animated_sheet::GAP),
        clip_length_secs: pick_exec(args.clip_length, cfg.animated_sheet.clip_length_secs, defaults::animated_sheet::CLIP_LENGTH_SECS),
        fps: pick_exec(args.fps, cfg.animated_sheet.fps, defaults::animated_sheet::FPS),
        quality: pick_exec(args.quality, cfg.animated_sheet.quality, defaults::animated_sheet::QUALITY),
        thumb_font_size: pick_exec(args.thumb_font, cfg.animated_sheet.thumb_font, defaults::animated_sheet::THUMB_FONT),
        header_font_size: pick_exec(args.header_font, cfg.animated_sheet.header_font, defaults::animated_sheet::HEADER_FONT),
        show_timestamps: resolve_bool(args.timestamps, args.no_timestamps, cfg.animated_sheet.show_timestamps, true),
        show_header: resolve_bool(args.header, args.no_header, cfg.animated_sheet.show_header, true),
        suffix,
        theme: resolve_theme(&args.theme, as_str_opt(&cfg.animated_sheet.theme), defaults::animated_sheet::THEME),
    })
}

/// The exit status of a generating run: 130 after a cancellation, 1 when a file failed,
/// 0 otherwise.
pub fn exit_code(cancelled: bool, failed: u64) -> (code: i32)
    ensures
        code == if cancelled { 130i32 } else if failed > 0 { 1i32 } else { 0i32 },
{
    if cancelled {
        130
    } else if failed > 0 {
        1
    } else {
        0
    }
}

/// The run summary: `<done> done · <failed> failed · <n> cancelled`, where `n` is the
/// number of files neither done nor failed when the run was cancelled, and 0 otherwise.
pub fn summary_line(done: u64, failed: u64, total: u64, cancelled: bool) -> (s: String)
    requires
        done + failed <= total,
    ensures
        s@ == dec(done as nat) + " done \u{b7} "@ + dec(failed as nat) + " failed \u{b7} "@
            + dec((if cancelled { total - done - failed } else { 0 }) as nat) + " cancelled"@,
{
    let mut s = String::new();
    push_dec(&mut s, done);
    s.append(" done \u{b7} ");
    push_dec(&mut s, failed);
    s.append(" failed \u{b7} ");
    push_dec(&mut s, if cancelled { total - done - failed } else { 0 });
    s.append(" cancelled");
    s
}

/// Settings resolve by precedence: a command-line flag overrides the configuration file,
/// which overrides the built-in default. For a resolved contact sheet this holds of the
/// grid size and of the filename suffix (an accepted suffix is used unchanged), and the
/// on/off flags override the configured switches.
pub proof fn lemma_flag_overrides_config(o: SheetOptions, args: SheetArgs, cfg: Config)
    requires
        sheet_options_ok(o, args, cfg),
    ensures
        args.cols matches Some(c) ==> o.cols == c,
        args.cols is None && cfg.sheet.cols is Some ==> o.cols == cfg.sheet.cols->Some_0,
        args.cols is None && cfg.sheet.cols is None ==> o.cols == defaults::sheet::COLS,
        args.suffix matches Some(sf) ==> o.suffix@ == sf@,
        args.suffix is None && cfg.sheet.suffix is Some ==> o.suffix@ == cfg.sheet.suffix->Some_0@,
        args.suffix is None && cfg.sheet.suffix is None ==> o.suffix@ == DEFAULT_SHEET_SUFFIX@,
        args.no_header ==> !o.show_header,
        args.header && !args.no_header ==> o.show_header,
        !args.header && !args.no_header && cfg.sheet.show_header is Some ==> o.show_header == cfg.sheet.show_header->Some_0,
        !args.header && !args.no_header && cfg.sheet.show_header is None ==> o.show_header,
{
    crate::suffix::lemma_accepted_suffix_stays_in_place(pick_suffix(args.suffix, cfg.sheet.suffix, DEFAULT_SHEET_SUFFIX@));
}

} // verus!
