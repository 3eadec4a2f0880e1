//! Command-line arguments of the `mosaic-cli` subcommands, as plain values.

use vstd::prelude::*;

verus! {

/// Options shared by every generating subcommand.
#[derive(Debug, Clone, PartialEq, Eq)]
pub struct Shared {
    /// Output directory (defaults to next to each source file).
    pub output: Option<String>,
    /// Suppress progress bars.
    pub quiet: bool,
    /// Print ffmpeg arguments before each invocation.
    pub verbose: bool,
    /// Do not descend into subdirectories when inputs are directories.
    pub no_recursive: bool,
    /// Input files or directories.
    pub inputs: Vec<String>,
}

/// Still-image format flag.
#[derive(Debug, Clone, Copy, PartialEq, Eq, Structural)]
pub enum ImgFormat {
    Png,
    Jpeg,
}

/// Reel container format flag.
#[derive(Debug, Clone, Copy, PartialEq, Eq, Structural)]
pub enum ReelFormat {
    Webp,
    Webm,
    Gif,
}

/// Colour theme flag.
#[derive(Debug, Clone, Copy, PartialEq, Eq, Structural)]
pub enum Theme {
    Dark,
    Light,
}

/// Arguments of `screenshots`.
#[derive(Debug, Clone, PartialEq, Eq)]
pub struct ScreenshotsArgs {
    pub count: Option<u32>,
    pub format: Option<ImgFormat>,
    pub quality: Option<u32>,
    pub suffix: Option<String>,
    pub shared: Shared,
}

/// Arguments of `sheet`.
#[derive(Debug, Clone, PartialEq, Eq)]
pub struct SheetArgs {
    pub cols: Option<u32>,
    pub rows: Option<u32>,
    pub width: Option<u32>,
    pub gap: Option<u32>,
    pub thumb_font: Option<u32>,
    pub header_font: Option<u32>,
    pub timestamps: bool,
    pub no_timestamps: bool,
    pub header: bool,
    pub no_header: bool,
    pub format: Option<ImgFormat>,
    pub quality: Option<u32>,
    pub theme: Option<Theme>,
    pub suffix: Option<String>,
    pub shared: Shared,
}

/// Arguments of `reel`.
#[derive(Debug, Clone, PartialEq, Eq)]
pub struct ReelArgs {
    pub count: Option<u32>,
    pub clip_length: Option<u32>,
    pub height: Option<u32>,
    pub fps: Option<u32>,
    pub quality: Option<u32>,
    pub format: Option<ReelFormat>,
    pub suffix: Option<String>,
    pub shared: Shared,
}

/// Arguments of `animated-sheet`.
#[derive(Debug, Clone, PartialEq, Eq)]
pub struct AnimatedSheetArgs {
    pub cols: Option<u32>,
    pub rows: Option<u32>,
    pub width: Option<u32>,
    pub gap: Option<u32>,
    pub clip_length: Option<u32>,
    pub fps: Option<u32>,
    pub quality: Option<u32>,
    pub thumb_font: Option<u32>,
    pub header_font: Option<u32>,
    pub timestamps: bool,
    pub no_timestamps: bool,
    pub header: bool,
    pub no_header: bool,
    pub theme: Option<Theme>,
    pub suffix: Option<String>,
    pub shared: Shared,
}

/// Arguments of `probe`.
#[derive(Debug, Clone, PartialEq, Eq)]
pub struct ProbeArgs {
    /// Also include raw mediainfo output under a "mediainfo" key.
    pub mediainfo: bool,
    /// Video file to inspect.
    pub input: String,
}

} // verus!
