//! Still contact sheets: the ffmpeg invocations of each step. Thumbnails are extracted
//! one per timestamp, tiled into a grid, optionally topped by a header panel, and
//! encoded in the requested image format.

use vstd::prelude::*;
use crate::drawtext::{format_hms_escaped, spec_hms, spec_timestamp_overlay, timestamp_overlay};
use crate::ffmpeg::{
    append_args, base_args, seek_input_args, spec_base_args, spec_seek_input_args,
};
use crate::output_path::{jpeg_qv, spec_image_ext, spec_jpeg_qv, OutputFormat, SheetTheme};
use crate::text::{dec, dec_padded, push_dec, push_dec_padded, string_views};

verus! {

/// Input frame rate of the still thumbnails fed to the `tile` filter.
pub const TILE_INPUT_FPS: &'static str = "1";

/// The background colour of a theme.
pub open spec fn theme_bg(t: SheetTheme) -> Seq<char> {
    match t { SheetTheme::Dark => "0x000000"@, SheetTheme::Light => "0xFFFFFF"@ }
}

/// The text colour of a theme.
pub open spec fn theme_fontcolor(t: SheetTheme) -> Seq<char> {
    match t { SheetTheme::Dark => "white"@, SheetTheme::Light => "black"@ }
}

/// The text-shadow colour of a theme.
pub open spec fn theme_shadowcolor(t: SheetTheme) -> Seq<char> {
    match t { SheetTheme::Dark => "black"@, SheetTheme::Light => "white"@ }
}

/// The timestamp stamped on a thumbnail taken at `timestamp_ms`: its whole seconds as
/// escaped `HH:MM:SS` in the theme's colours.
pub open spec fn spec_thumb_stamp(timestamp_ms: nat, font_ffmpeg: Seq<char>, font_size: u32, theme: SheetTheme) -> Seq<char> {
    spec_timestamp_overlay(
        spec_hms(timestamp_ms / 1000, seq!['\\', ':']), font_ffmpeg, font_size,
        theme_fontcolor(theme), theme_shadowcolor(theme))
}

/// Renders the timestamp overlay of a thumbnail taken at `timestamp_ms`.
pub fn thumb_stamp(timestamp_ms: u64, font_ffmpeg: &str, font_size: u32, theme: SheetTheme) -> (s: String)
    ensures
        s@ == spec_thumb_stamp(timestamp_ms as nat, font_ffmpeg@, font_size, theme),
{
    let hms = format_hms_escaped(timestamp_ms / 1000);
    timestamp_overlay(hms.as_str(), font_ffmpeg, font_size, theme.fontcolor(), theme.shadowcolor())
}

/// The `-vf` value of a thumbnail: the tonemap filter if any, the scale to the cell size,
/// then the timestamp stamp if any.
pub open spec fn spec_thumb_filter(tonemap: Option<Seq<char>>, thumb_w: nat, thumb_h: nat, stamp: Option<Seq<char>>) -> Seq<char> {
    (match tonemap { Some(tm) => tm + seq![','], None => Seq::empty() })
        + "scale="@ + dec(thumb_w) + seq![':'] + dec(thumb_h)
        + (match stamp { Some(o) => seq![','] + o, None => Seq::empty() })
}

/// Builds the `-vf` value of a thumbnail.
pub fn thumb_filter(tonemap: Option<&str>, thumb_w: u32, thumb_h: u32, stamp: Option<&str>) -> (vf: String)
    ensures
        vf@ == spec_thumb_filter(
            match tonemap { Some(t) => Some(t@), None => None },
            thumb_w as nat, thumb_h as nat,
            match stamp { Some(o) => Some(o@), None => None }),
{
    let mut vf = String::new();
    if let Some(tm) = tonemap {
        vf.append(tm);
        vf.push(',');
    }
    vf.append("scale=");
    push_dec(&mut vf, thumb_w as u64);
    vf.push(':');
    push_dec(&mut vf, thumb_h as u64);
    if let Some(o) = stamp {
        vf.push(',');
        vf.append(o);
    }
    assert(vf@ =~= spec_thumb_filter(
        match tonemap { Some(t) => Some(t@), None => None },
        thumb_w as nat, thumb_h as nat,
        match stamp { Some(o) => Some(o@), None => None }));
    vf
}

/// The arguments that extract one thumbnail.
pub open spec fn spec_thumb_extract_args(source: Seq<char>, timestamp_ms: nat, vf: Seq<char>, output: Seq<char>) -> Seq<Seq<char>> {
    spec_base_args() + spec_seek_input_args(source, timestamp_ms) + seq!["-frames:v"@, "1"@, "-vf"@, vf, output]
}

/// Builds the invocation that extracts the single frame at `timestamp_ms`, filtered by
/// `vf`, into `output`.
pub fn thumb_extract_args(source: &str, timestamp_ms: u64, vf: String, output: &str) -> (args: Vec<String>)
    ensures
        string_views(args@) == spec_thumb_extract_args(source@, timestamp_ms as nat, vf@, output@),
{
    let ghost vfv = vf@;
    let mut args = base_args();
    append_args(&mut args, seek_input_args(source, timestamp_ms));
    append_args(&mut args, vec![
        String::from_str("-frames:v"), String::from_str("1"),
        String::from_str("-vf"), vf,
        String::from_str(output),
    ]);
    assert(string_views(args@) =~= spec_thumb_extract_args(source@, timestamp_ms as nat, vfv, output@));
    args
}

/// File name of the `index`-th thumbnail, the index zero-padded to `width` digits.
pub open spec fn spec_thumb_name(index: nat, width: nat) -> Seq<char> {
    "thumb_"@ + dec_padded(index, width) + ".png"@
}

/// Names the `index`-th thumbnail file.
pub fn thumb_name(index: u32, width: usize) -> (s: String)
    ensures
        s@ == spec_thumb_name(index as nat, width as nat),
{
    let mut s = String::from_str("thumb_");
    push_dec_padded(&mut s, index as u64, width);
    s.append(".png");
    s
}

/// The image-sequence pattern that reads the thumbnails back in order.
pub open spec fn spec_tile_pattern(width: nat) -> Seq<char> {
    "thumb_%0"@ + dec(width) + "d.png"@
}

/// Names the thumbnail sequence for the `tile` input.
pub fn tile_pattern(width: usize) -> (s: String)
    ensures
        s@ == spec_tile_pattern(width as nat),
{
    let mut s = String::from_str("thumb_%0");
    push_dec(&mut s, width as u64);
    s.append("d.png");
    s
}

/// The `tile` filter of a grid of `cols` by `rows` with `gap` pixels of margin and
/// padding on the theme's background.
pub open spec fn spec_tile_filter(cols: nat, rows: nat, gap: nat, theme: SheetTheme) -> Seq<char> {
    "tile="@ + dec(cols) + seq!['x'] + dec(rows) + ":margin="@ + dec(gap) + ":padding="@ + dec(gap)
        + ":color="@ + theme_bg(theme)
}

/// The arguments that tile the thumbnails into the grid image.
pub open spec fn spec_tile_args(pattern: Seq<char>, cols: nat, rows: nat, gap: nat, theme: SheetTheme, grid: Seq<char>) -> Seq<Seq<char>> {
    spec_base_args() + seq![
        "-framerate"@, TILE_INPUT_FPS@, "-start_number"@, "1"@, "-i"@, pattern,
        "-vf"@, spec_tile_filter(cols, rows, gap, theme), "-frames:v"@, "1"@, grid]
}

/// Builds the invocation that tiles the numbered thumbnails into one grid image.
pub fn tile_args(pattern: &str, cols: u32, rows: u32, gap: u32, theme: SheetTheme, grid: &str) -> (args: Vec<String>)
    ensures
        string_views(args@) == spec_tile_args(pattern@, cols as nat, rows as nat, gap as nat, theme, grid@),
{
    let mut vf = String::from_str("tile=");
    push_dec(&mut vf, cols as u64);
    vf.push('x');
    push_dec(&mut vf, rows as u64);
    vf.append(":margin=");
    push_dec(&mut vf, gap as u64);
    vf.append(":padding=");
    push_dec(&mut vf, gap as u64);
    vf.append(":color=");
    vf.append(theme.bg());
    assert(vf@ =~= spec_tile_filter(cols as nat, rows as nat, gap as nat, theme));
    let mut args = base_args();
    append_args(&mut args, vec![
        String::from_str("-framerate"), String::from_str(TILE_INPUT_FPS),
        String::from_str("-start_number"), String::from_str("1"),
        String::from_str("-i"), String::from_str(pattern),
        String::from_str("-vf"), vf,
        String::from_str("-frames:v"), String::from_str("1"),
        String::from_str(grid),
    ]);
    assert(string_views(args@) =~= spec_tile_args(pattern@, cols as nat, rows as nat, gap as nat, theme, grid@));
    args
}

/// The lavfi colour source of the header panel: the theme's background, `width` by
/// `height`, one second long.
pub open spec fn spec_header_canvas(theme: SheetTheme, width: nat, height: nat) -> Seq<char> {
    "color=c="@ + theme_bg(theme) + ":s="@ + dec(width) + seq!['x'] + dec(height) + ":d=1"@
}

/// The arguments that render the header panel.
pub open spec fn spec_header_args(theme: SheetTheme, width: nat, height: nat, vf: Seq<char>, output: Seq<char>) -> Seq<Seq<char>> {
    spec_base_args() + seq![
        "-f"@, "lavfi"@, "-i"@, spec_header_canvas(theme, width, height),
        "-vf"@, vf, "-frames:v"@, "1"@, output]
}

/// Builds the invocation that draws the header lines (the drawtext chain `vf`) on a
/// panel as wide as the grid.
pub fn header_args(theme: SheetTheme, width: u32, height: u32, vf: String, output: &str) -> (args: Vec<String>)
    ensures
        string_views(args@) == spec_header_args(theme, width as nat, height as nat, vf@, output@),
{
    let ghost vfv = vf@;
    let mut canvas = String::from_str("color=c=");
    canvas.append(theme.bg());
    canvas.append(":s=");
    push_dec(&mut canvas, width as u64);
    canvas.push('x');
    push_dec(&mut canvas, height as u64);
    canvas.append(":d=1");
    assert(canvas@ =~= spec_header_canvas(theme, width as nat, height as nat));
    let mut args = base_args();
    append_args(&mut args, vec![
        String::from_str("-f"), String::from_str("lavfi"),
        String::from_str("-i"), canvas,
        String::from_str("-vf"), vf,
        String::from_str("-frames:v"), String::from_str("1"),
        String::from_str(output),
    ]);
    assert(string_views(args@) =~= spec_header_args(theme, width as nat, height as nat, vfv, output@));
    args
}

/// The JPEG quality arguments of an output format: `-q:v` for JPEG, none for PNG.
pub open spec fn quality_args(format: OutputFormat, jpeg_quality: nat) -> Seq<Seq<char>> {
    match format {
        OutputFormat::Jpeg => seq!["-q:v"@, dec(spec_jpeg_qv(jpeg_quality))],
        OutputFormat::Png => Seq::empty(),
    }
}

fn jpeg_quality_arg(jpeg_quality: u32) -> (s: String)
    ensures
        s@ == dec(spec_jpeg_qv(jpeg_quality as nat)),
{
    let mut s = String::new();
    push_dec(&mut s, jpeg_qv(jpeg_quality) as u64);
    assert(s@ =~= dec(spec_jpeg_qv(jpeg_quality as nat)));
    s
}

/// The arguments that stack the header above the grid into the final image.
pub open spec fn spec_compose_args(header: Seq<char>, grid: Seq<char>, format: OutputFormat, jpeg_quality: nat, output: Seq<char>) -> Seq<Seq<char>> {
    spec_base_args()
        + seq!["-i"@, header, "-i"@, grid, "-filter_complex"@, "vstack"@, "-frames:v"@, "1"@]
        + quality_args(format, jpeg_quality)
        + seq![output]
}

/// Builds the invocation that stacks the header panel on top of the grid, with the JPEG
/// quality when the output is JPEG.
pub fn compose_args(header: &str, grid: &str, format: OutputFormat, jpeg_quality: u32, output: &str) -> (args: Vec<String>)
    ensures
        string_views(args@) == spec_compose_args(header@, grid@, format, jpeg_quality as nat, output@),
{
    let mut args = base_args();
    append_args(&mut args, vec![
        String::from_str("-i"), String::from_str(header),
        String::from_str("-i"), String::from_str(grid),
        String::from_str("-filter_complex"), String::from_str("vstack"),
        String::from_str("-frames:v"), String::from_str("1"),
    ]);
    let ghost mid = string_views(args@);
    match format {
        OutputFormat::Jpeg => {
            append_args(&mut args, vec![String::from_str("-q:v"), jpeg_quality_arg(jpeg_quality)]);
        },
        OutputFormat::Png => {},
    }
    assert(string_views(args@) =~= mid + quality_args(format, jpeg_quality as nat));
    append_args(&mut args, vec![String::from_str(output)]);
    assert(string_views(args@) =~= spec_compose_args(header@, grid@, format, jpeg_quality as nat, output@));
    args
}

/// The arguments that re-encode the PNG grid as a JPEG.
pub open spec fn spec_jpeg_convert_args(grid: Seq<char>, jpeg_quality: nat, output: Seq<char>) -> Seq<Seq<char>> {
    spec_base_args() + seq!["-i"@, grid, "-frames:v"@, "1"@, "-q:v"@, dec(spec_jpeg_qv(jpeg_quality)), output]
}

/// Builds the invocation that converts the grid to JPEG at the requested quality (a sheet
/// without header in PNG needs no final encode: the grid is the result).
pub fn jpeg_convert_args(grid: &str, jpeg_quality: u32, output: &str) -> (args: Vec<String>)
    ensures
        string_views(args@) == spec_jpeg_convert_args(grid@, jpeg_quality as nat, output@),
{
    let mut args = base_args();
    append_args(&mut args, vec![
        String::from_str("-i"), String::from_str(grid),
        String::from_str("-frames:v"), String::from_str("1"),
        String::from_str("-q:v"), jpeg_quality_arg(jpeg_quality),
        String::from_str(output),
    ]);
    assert(string_views(args@) =~= spec_jpeg_convert_args(grid@, jpeg_quality as nat, output@));
    args
}

/// Name of the final image before it is moved into place.
pub open spec fn spec_final_name(format: OutputFormat) -> Seq<char> {
    "final."@ + spec_image_ext(format)
}

/// Names the final image in the work directory.
pub fn final_name(format: OutputFormat) -> (s: String)
    ensures
        s@ == spec_final_name(format),
{
    let mut s = String::from_str("final.");
    s.append(format.ext());
    s
}

/// Progress steps of a contact sheet: one per thumbnail, the tiling, the finishing encode,
/// and the header when there is one.
pub fn total_steps(total: u32, show_header: bool) -> (n: u32)
    requires
        total + 3 <= u32::MAX,
    ensures
        n == total + 2 + (if show_header { 1int } else { 0int }),
{
    total + 2 + if show_header { 1 } else { 0 }
}

/// The final image stacks its first input above its second: the header panel is the
/// first input and the grid the second, joined by one `vstack`, then the quality options
/// of the format, then the output last.
pub proof fn lemma_compose_header_above_grid(header: Seq<char>, grid: Seq<char>, format: OutputFormat, jpeg_quality: nat, output: Seq<char>)
    ensures
        ({
            let a = spec_compose_args(header, grid, format, jpeg_quality, output);
            let p = spec_base_args().len() as int;
            &&& a[p] == "-i"@ && a[p + 1] == header
            &&& a[p + 2] == "-i"@ && a[p + 3] == grid
            &&& a[p + 4] == "-filter_complex"@ && a[p + 5] == "vstack"@
            &&& a.last() == output
            &&& format is Png ==> a.len() == p + 9
        }),
{
}

} // verus!
