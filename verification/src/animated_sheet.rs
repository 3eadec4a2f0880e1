//! Animated contact sheets: a grid of short looping clips, one per cell, stitched into
//! one animated WebP with `xstack`, optionally topped by a header panel.

use vstd::prelude::*;
use crate::contact_sheet::{spec_thumb_stamp, theme_bg};
use crate::drawtext::{header_overlay, spec_header_overlay, views};
use crate::ffmpeg::{
    append_args, base_args, h264_clip_encoder, secs3, secs3_string, spec_base_args,
    spec_h264_clip_encoder,
};
use crate::layout::{spec_xstack_layout, xstack_inputs_ok, xstack_layout, SheetLayout};
use crate::output_path::SheetTheme;
use crate::text::{dec, push_dec, string_views};

verus! {

/// Fewest cells `xstack` accepts.
pub const MIN_CELLS: u32 = 2;
/// Most cells `xstack` accepts.
pub const MAX_CELLS: u32 = 32;

/// The refusal of a grid size outside what `xstack` accepts.
pub open spec fn spec_cell_count_error(total: nat, cols: nat, rows: nat) -> Seq<char> {
    "animated contact sheet requires "@ + dec(MIN_CELLS as nat) + "..="@ + dec(MAX_CELLS as nat)
        + " cells; requested "@ + dec(total) + " (cols="@ + dec(cols) + ", rows="@ + dec(rows) + ")"@
}

/// Checks that the grid has between [`MIN_CELLS`] and [`MAX_CELLS`] cells, failing fast
/// with a readable message rather than letting ffmpeg fail cryptically.
pub fn check_cell_count(layout: &SheetLayout) -> (r: Result<(), String>)
    ensures
        r is Ok <==> MIN_CELLS <= layout.total <= MAX_CELLS,
        r matches Err(e) ==> e@ == spec_cell_count_error(layout.total as nat, layout.cols as nat, layout.rows as nat),
{
    if layout.total < MIN_CELLS || layout.total > MAX_CELLS {
        let mut e = String::from_str("animated contact sheet requires ");
        push_dec(&mut e, MIN_CELLS as u64);
        e.append("..=");
        push_dec(&mut e, MAX_CELLS as u64);
        e.append(" cells; requested ");
        push_dec(&mut e, layout.total as u64);
        e.append(" (cols=");
        push_dec(&mut e, layout.cols as u64);
        e.append(", rows=");
        push_dec(&mut e, layout.rows as u64);
        e.append(")");
        return Err(e);
    }
    Ok(())
}

/// The `-vf` value of a cell: scale to the cell, the timestamp stamp if any, then pad by
/// half the gap on every side in the theme's background.
pub open spec fn spec_cell_filter(thumb_w: nat, thumb_h: nat, gap: nat, stamp: Option<Seq<char>>, theme: SheetTheme) -> Seq<char> {
    "scale="@ + dec(thumb_w) + seq![':'] + dec(thumb_h)
        + (match stamp { Some(o) => seq![','] + o, None => Seq::empty() })
        + ",pad="@ + dec(thumb_w + gap) + seq![':'] + dec(thumb_h + gap) + seq![':'] + dec(gap / 2)
        + seq![':'] + dec(gap / 2) + seq![':'] + theme_bg(theme)
}

/// The arguments that cut one cell's clip.
pub open spec fn spec_cell_extract_args(
    source: Seq<char>,
    timestamp_ms: nat,
    clip_length_secs: nat,
    fps: nat,
    vf: Seq<char>,
    output: Seq<char>,
) -> Seq<Seq<char>> {
    spec_base_args()
        + seq!["-ss"@, secs3(timestamp_ms), "-i"@, source, "-t"@, dec(clip_length_secs), "-an"@, "-vf"@, vf, "-r"@, dec(fps)]
        + spec_h264_clip_encoder()
        + seq![output]
}

/// Builds the invocation that cuts the clip of one cell: `clip_length_secs` seconds from
/// `timestamp_ms`, scaled to the cell, stamped with its timestamp when `show_timestamps`
/// (in the theme's colours, with the font already rendered for ffmpeg), padded by half
/// the gap, resampled to `fps` and encoded as an intermediate H.264 clip.
pub fn build_extract_args(
    source: &str,
    timestamp_ms: u64,
    thumb_w: u32,
    thumb_h: u32,
    gap: u32,
    fps: u32,
    clip_length_secs: u32,
    show_timestamps: bool,
    thumb_font_size: u32,
    theme: SheetTheme,
    font_ffmpeg: &str,
    output: &str,
) -> (args: Vec<String>)
    requires
        thumb_w + gap <= u32::MAX,
        thumb_h + gap <= u32::MAX,
    ensures
        string_views(args@) == spec_cell_extract_args(
            source@, timestamp_ms as nat, clip_length_secs as nat, fps as nat,
            spec_cell_filter(thumb_w as nat, thumb_h as nat, gap as nat,
                if show_timestamps { Some(spec_thumb_stamp(timestamp_ms as nat, font_ffmpeg@, thumb_font_size, theme)) } else { None },
                theme),
            output@),
{
    let ghost stamp = if show_timestamps {
        Some(spec_thumb_stamp(timestamp_ms as nat, font_ffmpeg@, thumb_font_size, theme))
    } else {
        None
    };
    let mut vf = String::from_str("scale=");
    push_dec(&mut vf, thumb_w as u64);
    vf.push(':');
    push_dec(&mut vf, thumb_h as u64);
    if show_timestamps {
        vf.push(',');
        let o = crate::contact_sheet::thumb_stamp(timestamp_ms, font_ffmpeg, thumb_font_size, theme);
        vf.append(o.as_str());
    }
    vf.append(",pad=");
    push_dec(&mut vf, (thumb_w + gap) as u64);
    vf.push(':');
    push_dec(&mut vf, (thumb_h + gap) as u64);
    vf.push(':');
    push_dec(&mut vf, (gap / 2) as u64);
    vf.push(':');
    push_dec(&mut vf, (gap / 2) as u64);
    vf.push(':');
    vf.append(theme.bg());
    let ghost vfv = vf@;
    assert(vfv =~= spec_cell_filter(thumb_w as nat, thumb_h as nat, gap as nat, stamp, theme));
    let mut args = base_args();
    let mut clip = String::new();
    push_dec(&mut clip, clip_length_secs as u64);
    let mut rate = String::new();
    push_dec(&mut rate, fps as u64);
    assert(clip@ =~= dec(clip_length_secs as nat));
    assert(rate@ =~= dec(fps as nat));
    append_args(&mut args, vec![
        String::from_str("-ss"), secs3_string(timestamp_ms),
        String::from_str("-i"), String::from_str(source),
        String::from_str("-t"), clip,
        String::from_str("-an"),
        String::from_str("-vf"), vf,
        String::from_str("-r"), rate,
    ]);
    append_args(&mut args, h264_clip_encoder());
    append_args(&mut args, vec![String::from_str(output)]);
    assert(string_views(args@) =~= spec_cell_extract_args(
        source@, timestamp_ms as nat, clip_length_secs as nat, fps as nat, vfv, output@));
    args
}

/// The header panel of an animated sheet: its drawtext lines (already escaped), height,
/// line height, font size and the font as ffmpeg reads it.
#[derive(Debug, Clone, PartialEq, Eq)]
pub struct HeaderParams {
    pub lines: Vec<String>,
    pub height: u32,
    pub line_h: u32,
    pub font_size: u32,
    pub font_ffmpeg: String,
}

/// `[0:v][1:v]...` for `n` inputs.
pub open spec fn input_tags(n: nat) -> Seq<char>
    decreases n,
{
    if n == 0 {
        Seq::empty()
    } else {
        input_tags((n - 1) as nat) + seq!['['] + dec((n - 1) as nat) + ":v]"@
    }
}

/// `-i <clip>` for each clip, in order.
pub open spec fn input_args(clips: Seq<Seq<char>>) -> Seq<Seq<char>>
    decreases clips.len(),
{
    if clips.len() == 0 {
        Seq::empty()
    } else {
        input_args(clips.drop_last()) + seq!["-i"@, clips.last()]
    }
}

/// Whether the grid arithmetic of an animated sheet stays within `u32`.
pub open spec fn stitch_inputs_ok(layout: SheetLayout, thumb_h: u32, gap: u32) -> bool {
    &&& layout.thumb_w + gap <= u32::MAX
    &&& thumb_h + gap <= u32::MAX
    &&& layout.rows * (thumb_h + gap) + gap <= u32::MAX
    &&& xstack_inputs_ok(layout.cols, layout.rows, (layout.thumb_w + gap) as u32, (thumb_h + gap) as u32)
}

/// Whether a header's drawtext arithmetic stays within `u32`.
pub open spec fn header_ok(h: HeaderParams, gap: u32) -> bool {
    &&& h.lines@.len() <= u32::MAX
    &&& h.lines@.len() > 0 ==> gap + (h.lines@.len() - 1) * h.line_h <= u32::MAX
}

/// The filter graph of an animated sheet: the clips `xstack`ed into the grid, padded by
/// half the gap all round (`[grid]`); with a header, a colour panel carrying the header
/// text lasting the clip length is stacked on top (`[out]`).
pub open spec fn spec_stitch_graph(
    n: nat,
    layout: SheetLayout,
    thumb_h: nat,
    gap: nat,
    theme: SheetTheme,
    header: Option<HeaderParams>,
    clip_length_secs: nat,
    fps: nat,
) -> Seq<char> {
    spec_grid_graph(n, layout, thumb_h, gap, theme) + match header {
        Some(h) => spec_header_graph(layout, gap, theme, h, clip_length_secs, fps),
        None => Seq::empty(),
    }
}

/// The arguments that stitch the cell clips into the animated sheet.
pub open spec fn spec_stitch_args(
    clips: Seq<Seq<char>>,
    layout: SheetLayout,
    thumb_h: nat,
    gap: nat,
    theme: SheetTheme,
    header: Option<HeaderParams>,
    clip_length_secs: nat,
    fps: nat,
    quality: nat,
    output: Seq<char>,
) -> Seq<Seq<char>> {
    spec_base_args() + input_args(clips)
        + seq![
            "-filter_complex"@, spec_stitch_graph(clips.len(), layout, thumb_h, gap, theme, header, clip_length_secs, fps),
            "-map"@, if header is Some { "[out]"@ } else { "[grid]"@ },
            "-c:v"@, "libwebp"@, "-loop"@, "0"@, "-quality"@, dec(quality), output]
}

fn push_input_tags(out: &mut String, n: u32)
    ensures
        final(out)@ == old(out)@ + input_tags(n as nat),
{
    let ghost start = out@;
    let mut i: u32 = 0;
    while i < n
        invariant
            i <= n,
            out@ == start + input_tags(i as nat),
        decreases n - i,
    {
        let ghost before = out@;
        out.push('[');
        push_dec(out, i as u64);
        out.append(":v]");
        assert(out@ =~= before + seq!['['] + dec(i as nat) + ":v]"@);
        i = i + 1;
    }
}

fn clip_input_args(clips: &Vec<String>) -> (args: Vec<String>)
    ensures
        string_views(args@) == input_args(string_views(clips@)),
{
    let ghost cv = string_views(clips@);
    let mut args: Vec<String> = Vec::new();
    let mut i: usize = 0;
    while i < clips.len()
        invariant
            i <= clips@.len(),
            cv == string_views(clips@),
            string_views(args@) == input_args(cv.take(i as int)),
        decreases clips.len() - i,
    {
        append_args(&mut args, vec![String::from_str("-i"), clips[i].clone()]);
        proof {
            assert(cv[i as int] == clips@[i as int]@);
            assert(cv.take(i + 1).drop_last() =~= cv.take(i as int));
            assert(string_views(args@) =~= input_args(cv.take(i + 1)));
        }
        i = i + 1;
    }
    assert(cv.take(clips.len() as int) =~= cv);
    args
}

/// The grid part of the stitch graph, up to `[grid]`.
pub open spec fn spec_grid_graph(n: nat, layout: SheetLayout, thumb_h: nat, gap: nat, theme: SheetTheme) -> Seq<char> {
    let step_w = layout.thumb_w + gap;
    let step_h = thumb_h + gap;
    let grid_h = layout.rows * step_h + gap;
    input_tags(n) + "xstack=inputs="@ + dec(n) + ":layout="@
        + spec_xstack_layout(layout.cols, layout.rows, step_w as u32, step_h as u32)
        + "[xs];[xs]pad="@ + dec(layout.grid_w as nat) + seq![':'] + dec(grid_h as nat) + seq![':'] + dec(gap / 2)
        + seq![':'] + dec(gap / 2) + seq![':'] + theme_bg(theme) + "[grid]"@
}

fn grid_graph(n: u32, layout: &SheetLayout, thumb_h: u32, gap: u32, theme: SheetTheme) -> (g: String)
    requires
        stitch_inputs_ok(*layout, thumb_h, gap),
    ensures
        g@ == spec_grid_graph(n as nat, *layout, thumb_h as nat, gap as nat, theme),
{
    let step_w = layout.thumb_w + gap;
    let step_h = thumb_h + gap;
    let grid_h = layout.rows * step_h + gap;
    let mut graph = String::new();
    push_input_tags(&mut graph, n);
    graph.append("xstack=inputs=");
    push_dec(&mut graph, n as u64);
    graph.append(":layout=");
    let layout_expr = xstack_layout(layout.cols, layout.rows, step_w, step_h);
    graph.append(layout_expr.as_str());
    graph.append("[xs];[xs]pad=");
    push_dec(&mut graph, layout.grid_w as u64);
    graph.push(':');
    push_dec(&mut graph, grid_h as u64);
    graph.push(':');
    push_dec(&mut graph, (gap / 2) as u64);
    graph.push(':');
    push_dec(&mut graph, (gap / 2) as u64);
    graph.push(':');
    graph.append(theme.bg());
    graph.append("[grid]");
    assert(graph@ =~= spec_grid_graph(n as nat, *layout, thumb_h as nat, gap as nat, theme));
    graph
}

/// The header part of the stitch graph: the colour panel with the header text, stacked
/// above the grid.
pub open spec fn spec_header_graph(layout: SheetLayout, gap: nat, theme: SheetTheme, h: HeaderParams, clip_length_secs: nat, fps: nat) -> Seq<char> {
    ";color=c="@ + theme_bg(theme) + ":s="@ + dec(layout.grid_w as nat) + seq!['x'] + dec(h.height as nat)
        + ":d="@ + dec(clip_length_secs) + ":r="@ + dec(fps) + seq![',']
        + spec_header_overlay(views(h.lines@), h.font_ffmpeg@, h.font_size,
            match theme { SheetTheme::Dark => "white"@, SheetTheme::Light => "black"@ },
            gap, h.line_h as nat)
        + "[hdr];[hdr][grid]vstack[out]"@
}

fn header_graph(layout: &SheetLayout, gap: u32, theme: SheetTheme, h: &HeaderParams, clip_length_secs: u32, fps: u32) -> (g: String)
    requires
        header_ok(*h, gap),
    ensures
        g@ == spec_header_graph(*layout, gap as nat, theme, *h, clip_length_secs as nat, fps as nat),
{
    let draw = header_overlay(h.lines.as_slice(), h.font_ffmpeg.as_str(), h.font_size, theme.fontcolor(), gap, h.line_h);
    let mut graph = String::from_str(";color=c=");
    graph.append(theme.bg());
    graph.append(":s=");
    push_dec(&mut graph, layout.grid_w as u64);
    graph.push('x');
    push_dec(&mut graph, h.height as u64);
    graph.append(":d=");
    push_dec(&mut graph, clip_length_secs as u64);
    graph.append(":r=");
    push_dec(&mut graph, fps as u64);
    graph.push(',');
    graph.append(draw.as_str());
    graph.append("[hdr];[hdr][grid]vstack[out]");
    assert(graph@ =~= spec_header_graph(*layout, gap as nat, theme, *h, clip_length_secs as nat, fps as nat));
    graph
}

/// Builds the invocation that stitches the cell clips into one looping animated WebP:
/// every clip as an input, the `xstack` grid padded to the sheet width, the optional
/// header panel stacked on top, and the WebP encoder at `quality`.
pub fn build_stitch_args(
    clips: &Vec<String>,
    layout: &SheetLayout,
    thumb_h: u32,
    gap: u32,
    theme: SheetTheme,
    header: Option<&HeaderParams>,
    clip_length_secs: u32,
    fps: u32,
    quality: u32,
    output: &str,
) -> (args: Vec<String>)
    requires
        clips@.len() <= u32::MAX,
        stitch_inputs_ok(*layout, thumb_h, gap),
        header matches Some(h) ==> header_ok(*h, gap),
    ensures
        string_views(args@) == spec_stitch_args(
            string_views(clips@), *layout, thumb_h as nat, gap as nat, theme,
            match header { Some(h) => Some(*h), None => None },
            clip_length_secs as nat, fps as nat, quality as nat, output@),
{
    let n = clips.len() as u32;
    let mut args = base_args();
    append_args(&mut args, clip_input_args(clips));
    let mut graph = grid_graph(n, layout, thumb_h, gap, theme);
    let label = match header {
        Some(h) => {
            let hg = header_graph(layout, gap, theme, h, clip_length_secs, fps);
            graph.append(hg.as_str());
            "[out]"
        },
        None => "[grid]",
    };
    assert(graph@ =~= spec_stitch_graph(
        n as nat, *layout, thumb_h as nat, gap as nat, theme,
        match header { Some(h) => Some(*h), None => None }, clip_length_secs as nat, fps as nat));
    let mut q = String::new();
    push_dec(&mut q, quality as u64);
    assert(q@ =~= dec(quality as nat));
    append_args(&mut args, vec![
        String::from_str("-filter_complex"), graph,
        String::from_str("-map"), String::from_str(label),
        String::from_str("-c:v"), String::from_str("libwebp"),
        String::from_str("-loop"), String::from_str("0"),
        String::from_str("-quality"), q,
        String::from_str(output),
    ]);
    assert(string_views(args@) =~= spec_stitch_args(
        string_views(clips@), *layout, thumb_h as nat, gap as nat, theme,
        match header { Some(h) => Some(*h), None => None },
        clip_length_secs as nat, fps as nat, quality as nat, output@));
    args
}

/// Progress steps of an animated sheet: one per cell and the stitch.
pub fn total_steps(total: u32) -> (n: u32)
    requires
        total < u32::MAX,
    ensures
        n == total + 1,
{
    total + 1
}

/// Whether `s` ends with `t`.
pub open spec fn ends_with(s: Seq<char>, t: Seq<char>) -> bool {
    s.len() >= t.len() && s.subrange(s.len() - t.len(), s.len() as int) == t
}

proof fn lemma_concat_ends_with(a: Seq<char>, t: Seq<char>)
    ensures
        ends_with(a + t, t),
{
    assert((a + t).subrange(a.len() as int, (a + t).len() as int) =~= t);
}

/// Where the stitch invocation puts its filter graph and which label it maps. With a
/// header, the graph ends by stacking the header panel `[hdr]` above the grid `[grid]`
/// into `[out]`, which is the stream encoded; without one, the padded grid `[grid]` is
/// encoded as it is.
pub proof fn lemma_stitch_header_on_top(
    clips: Seq<Seq<char>>,
    layout: SheetLayout,
    thumb_h: nat,
    gap: nat,
    theme: SheetTheme,
    header: Option<HeaderParams>,
    clip_length_secs: nat,
    fps: nat,
    quality: nat,
    output: Seq<char>,
)
    ensures
        ({
            let a = spec_stitch_args(clips, layout, thumb_h, gap, theme, header, clip_length_secs, fps, quality, output);
            let p = (spec_base_args().len() + input_args(clips).len()) as int;
            let graph = spec_stitch_graph(clips.len(), layout, thumb_h, gap, theme, header, clip_length_secs, fps);
            &&& a[p] == "-filter_complex"@
            &&& a[p + 1] == graph
            &&& a[p + 2] == "-map"@
            &&& ends_with(spec_grid_graph(clips.len(), layout, thumb_h, gap, theme), "[grid]"@)
            &&& header is Some ==> a[p + 3] == "[out]"@ && ends_with(graph, "[hdr][grid]vstack[out]"@)
            &&& header is None ==> a[p + 3] == "[grid]"@ && ends_with(graph, "[grid]"@)
        }),
{
    let g = spec_grid_graph(clips.len(), layout, thumb_h, gap, theme);
    let step_w = layout.thumb_w + gap;
    let step_h = thumb_h + gap;
    let grid_h = layout.rows * step_h + gap;
    let pre = input_tags(clips.len()) + "xstack=inputs="@ + dec(clips.len()) + ":layout="@
        + spec_xstack_layout(layout.cols, layout.rows, step_w as u32, step_h as u32)
        + "[xs];[xs]pad="@ + dec(layout.grid_w as nat) + seq![':'] + dec(grid_h as nat) + seq![':'] + dec(gap / 2)
        + seq![':'] + dec(gap / 2) + seq![':'] + theme_bg(theme);
    assert(g == pre + "[grid]"@);
    lemma_concat_ends_with(pre, "[grid]"@);
    match header {
        Some(h) => {
            let hg = spec_header_graph(layout, gap, theme, h, clip_length_secs, fps);
            let hpre = ";color=c="@ + theme_bg(theme) + ":s="@ + dec(layout.grid_w as nat) + seq!['x'] + dec(h.height as nat)
                + ":d="@ + dec(clip_length_secs) + ":r="@ + dec(fps) + seq![',']
                + spec_header_overlay(views(h.lines@), h.font_ffmpeg@, h.font_size,
                    match theme { SheetTheme::Dark => "white"@, SheetTheme::Light => "black"@ },
                    gap, h.line_h as nat);
            reveal_strlit("[hdr];[hdr][grid]vstack[out]");
            reveal_strlit("[hdr];");
            reveal_strlit("[hdr][grid]vstack[out]");
            let tail = "[hdr][grid]vstack[out]"@;
            assert(hg =~= (hpre + "[hdr];"@) + tail);
            assert(g + hg =~= (g + hpre + "[hdr];"@) + tail);
            lemma_concat_ends_with(g + hpre + "[hdr];"@, tail);
        },
        None => {
            assert(g + Seq::<char>::empty() =~= g);
        },
    }
}

} // verus!
