//! Preview reels: the ffmpeg invocations that cut short clips out of a source and
//! stitch them into one looping reel, and the concat list that joins the clips.

use vstd::prelude::*;
use crate::ffmpeg::{
    append_args, base_args, h264_clip_encoder, opt_string_view, secs3, secs3_string,
    seek_input_args_clip, spec_base_args, spec_h264_clip_encoder, spec_seek_input_args_clip,
    spec_tonemap_filter, tonemap_filter,
};
use crate::output_path::{spec_vp9_crf, vp9_crf, ReelFormat};
use crate::text::{dec, push_dec, string_views};
use crate::video_info::VideoInfo;

verus! {

/// Hard cap on the frame rate of a GIF reel (GIF has no inter-frame compression).
pub const GIF_FPS_CAP: u32 = 12;
/// Palette size of a GIF reel.
pub const GIF_MAX_COLORS: u32 = 128;

/// How long a clip starting at `timestamp_ms` runs: the requested clip length, cut short
/// at the end of the source.
pub open spec fn clip_duration_ms(source_ms: nat, timestamp_ms: nat, clip_length_secs: nat) -> nat {
    let remaining: nat = if source_ms > timestamp_ms { (source_ms - timestamp_ms) as nat } else { 0 };
    let desired = clip_length_secs * 1000;
    if desired < remaining { desired } else { remaining }
}

/// The downscale filter to a target height, keeping the aspect ratio with an even width.
pub open spec fn scale_to(height: nat) -> Seq<char> {
    "scale=-2:"@ + dec(height)
}

/// The `-vf` value of a clip: the tonemap filter if any, then a downscale when the source
/// is taller than the target; nothing when neither applies.
pub open spec fn clip_filter(tonemap: Option<Seq<char>>, source_h: nat, target_h: nat) -> Option<Seq<char>> {
    let tm = match tonemap { Some(t) => t, None => Seq::empty() };
    if tonemap is None && source_h <= target_h {
        None
    } else if source_h > target_h {
        Some(tm + (if tm.len() == 0 { Seq::empty() } else { seq![','] }) + scale_to(target_h))
    } else {
        Some(tm)
    }
}

/// The arguments that cut one clip out of the source.
pub open spec fn spec_build_extract_args(
    source: Seq<char>,
    info: VideoInfo,
    timestamp_ms: nat,
    clip_length_secs: nat,
    target_height: nat,
    has_zscale: bool,
    output: Seq<char>,
) -> Seq<Seq<char>> {
    let tonemap = spec_tonemap_filter(has_zscale, opt_string_view(info.video.color_transfer), info.video.dv_profile);
    spec_base_args()
        + spec_seek_input_args_clip(source, timestamp_ms)
        + seq!["-t"@, secs3(clip_duration_ms(info.duration_ms as nat, timestamp_ms, clip_length_secs))]
        + match clip_filter(tonemap, info.video.height as nat, target_height) {
            Some(vf) => seq!["-vf"@, vf],
            None => Seq::empty(),
        }
        + spec_h264_clip_encoder()
        + seq![output]
}

/// Builds the ffmpeg invocation that cuts the clip starting at `timestamp_ms` out of the
/// source: fast seeking, the clip length (cut short at the end of the source), tonemapping
/// and a downscale to `target_height` where they apply, and the intermediate H.264
/// encoder.
pub fn build_extract_args(
    source: &str,
    info: &VideoInfo,
    timestamp_ms: u64,
    clip_length_secs: u32,
    target_height: u32,
    has_zscale: bool,
    output: &str,
) -> (args: Vec<String>)
    ensures
        string_views(args@) == spec_build_extract_args(
            source@, *info, timestamp_ms as nat, clip_length_secs as nat, target_height as nat, has_zscale, output@),
{
    let remaining: u64 = if info.duration_ms > timestamp_ms { info.duration_ms - timestamp_ms } else { 0 };
    let desired: u64 = clip_length_secs as u64 * 1000;
    let duration: u64 = if desired < remaining { desired } else { remaining };

    let mut args = base_args();
    append_args(&mut args, seek_input_args_clip(source, timestamp_ms));
    append_args(&mut args, vec![String::from_str("-t"), secs3_string(duration)]);
    let transfer = match &info.video.color_transfer {
        Some(t) => Some(t.as_str()),
        None => None,
    };
    let tonemap = tonemap_filter(has_zscale, transfer, info.video.dv_profile);
    let ghost tm_spec = spec_tonemap_filter(has_zscale, opt_string_view(info.video.color_transfer), info.video.dv_profile);
    assert(opt_string_view(tonemap) == tm_spec);
    let ghost head = string_views(args@);
    assert(head =~= spec_base_args() + spec_seek_input_args_clip(source@, timestamp_ms as nat)
        + seq!["-t"@, secs3(clip_duration_ms(info.duration_ms as nat, timestamp_ms as nat, clip_length_secs as nat))]);
    let ghost filter = clip_filter(tm_spec, info.video.height as nat, target_height as nat);
    let scale = info.video.height > target_height;
    if tonemap.is_some() || scale {
        let mut vf = match tonemap {
            Some(t) => t,
            None => String::new(),
        };
        let ghost tm = vf@;
        assert(tm == match tm_spec { Some(t) => t, None => Seq::<char>::empty() });
        if scale {
            if vf.unicode_len() > 0 {
                vf.push(',');
            }
            vf.append("scale=-2:");
            push_dec(&mut vf, target_height as u64);
            assert(vf@ =~= tm + (if tm.len() == 0 { Seq::<char>::empty() } else { seq![','] }) + scale_to(target_height as nat));
        }
        assert(filter == Some(vf@));
        append_args(&mut args, vec![String::from_str("-vf"), vf]);
        assert(string_views(args@) =~= head + seq!["-vf"@, filter->Some_0]);
    } else {
        assert(filter is None);
    }
    let ghost mid = string_views(args@);
    assert(mid =~= head + match filter { Some(vf) => seq!["-vf"@, vf], None => Seq::<Seq<char>>::empty() });
    append_args(&mut args, h264_clip_encoder());
    append_args(&mut args, vec![String::from_str(output)]);
    assert(string_views(args@) =~= mid + spec_h264_clip_encoder() + seq![output@]);
    assert(string_views(args@) =~= spec_build_extract_args(
        source@, *info, timestamp_ms as nat, clip_length_secs as nat, target_height as nat, has_zscale, output@));
    args
}

/// The filter graph of a GIF reel: frame rate, then a diff-mode palette of
/// [`GIF_MAX_COLORS`] colours applied with Sierra dithering.
pub open spec fn gif_graph(fps: nat) -> Seq<char> {
    "fps="@ + dec(fps) + ",split[a][b];[a]palettegen=stats_mode=diff:max_colors="@ + dec(GIF_MAX_COLORS as nat)
        + "[p];[b][p]paletteuse=dither=sierra2_4a"@
}

/// The encoder arguments of each reel format.
pub open spec fn reel_encoder_args(fps: nat, quality: nat, format: ReelFormat) -> Seq<Seq<char>> {
    match format {
        ReelFormat::Webp => seq![
            "-vf"@, "fps="@ + dec(fps), "-c:v"@, "libwebp"@, "-loop"@, "0"@, "-quality"@, dec(quality)],
        ReelFormat::Webm => seq![
            "-vf"@, "fps="@ + dec(fps), "-c:v"@, "libvpx-vp9"@, "-b:v"@, "0"@,
            "-crf"@, dec(spec_vp9_crf(quality)), "-pix_fmt"@, "yuv420p"@],
        ReelFormat::Gif => seq![
            "-filter_complex"@, gif_graph(if fps < GIF_FPS_CAP { fps } else { GIF_FPS_CAP as nat }),
            "-loop"@, "0"@],
    }
}

/// The arguments that stitch the clips listed in `concat_list` into the reel.
pub open spec fn spec_build_stitch_args(
    concat_list: Seq<char>,
    fps: nat,
    quality: nat,
    format: ReelFormat,
    output: Seq<char>,
) -> Seq<Seq<char>> {
    spec_base_args()
        + seq!["-f"@, "concat"@, "-safe"@, "0"@, "-i"@, concat_list]
        + reel_encoder_args(fps, quality, format)
        + seq![output]
}

fn fps_filter(fps: u32) -> (s: String)
    ensures
        s@ == "fps="@ + dec(fps as nat),
{
    let mut s = String::from_str("fps=");
    push_dec(&mut s, fps as u64);
    s
}

fn dec_arg(n: u32) -> (s: String)
    ensures
        s@ == dec(n as nat),
{
    let mut s = String::new();
    push_dec(&mut s, n as u64);
    assert(s@ =~= dec(n as nat));
    s
}

/// Builds the final encode of the reel from the concat list of clips. WebP maps the
/// quality to `-quality` and loops forever; WebM uses VP9 in pure CRF mode with the
/// quality mapped by [`vp9_crf`] (browsers loop it natively); GIF builds a palette in a
/// single `-filter_complex` graph, its frame rate capped at [`GIF_FPS_CAP`], and ignores
/// the quality.
pub fn build_stitch_args(
    concat_list: &str,
    fps: u32,
    quality: u32,
    format: ReelFormat,
    output: &str,
) -> (args: Vec<String>)
    ensures
        string_views(args@) == spec_build_stitch_args(concat_list@, fps as nat, quality as nat, format, output@),
{
    let mut args = base_args();
    append_args(&mut args, vec![
        String::from_str("-f"), String::from_str("concat"),
        String::from_str("-safe"), String::from_str("0"),
        String::from_str("-i"), String::from_str(concat_list),
    ]);
    let enc: Vec<String> = match format {
        ReelFormat::Webp => vec![
            String::from_str("-vf"), fps_filter(fps),
            String::from_str("-c:v"), String::from_str("libwebp"),
            String::from_str("-loop"), String::from_str("0"),
            String::from_str("-quality"), dec_arg(quality),
        ],
        ReelFormat::Webm => vec![
            String::from_str("-vf"), fps_filter(fps),
            String::from_str("-c:v"), String::from_str("libvpx-vp9"),
            String::from_str("-b:v"), String::from_str("0"),
            String::from_str("-crf"), dec_arg(vp9_crf(quality)),
            String::from_str("-pix_fmt"), String::from_str("yuv420p"),
        ],
        ReelFormat::Gif => {
            let gif_fps: u32 = if fps < GIF_FPS_CAP { fps } else { GIF_FPS_CAP };
            let mut graph = fps_filter(gif_fps);
            graph.append(",split[a][b];[a]palettegen=stats_mode=diff:max_colors=");
            push_dec(&mut graph, GIF_MAX_COLORS as u64);
            graph.append("[p];[b][p]paletteuse=dither=sierra2_4a");
            vec![
                String::from_str("-filter_complex"), graph,
                String::from_str("-loop"), String::from_str("0"),
            ]
        },
    };
    assert(string_views(enc@) =~= reel_encoder_args(fps as nat, quality as nat, format));
    append_args(&mut args, enc);
    append_args(&mut args, vec![String::from_str(output)]);
    assert(string_views(args@) =~= spec_build_stitch_args(concat_list@, fps as nat, quality as nat, format, output@));
    args
}

/// The concat-demuxer escaping of one character inside a single-quoted value.
pub open spec fn concat_escape_char(c: char) -> Seq<char> {
    if c == '\\' {
        seq!['\\', '\\']
    } else if c == '\'' {
        seq!['\\', '\'']
    } else {
        seq![c]
    }
}

/// A path escaped for a single-quoted concat-demuxer value: backslash and single quote
/// each get a backslash in front.
pub open spec fn concat_escape(s: Seq<char>) -> Seq<char>
    decreases s.len(),
{
    if s.len() == 0 {
        Seq::empty()
    } else {
        concat_escape(s.drop_last()) + concat_escape_char(s.last())
    }
}

/// One line of the concat list.
pub open spec fn concat_entry(path: Seq<char>) -> Seq<char> {
    "file '"@ + concat_escape(path) + "'\n"@
}

/// The concat list of the clips: one `file '<path>'` line per clip, in order.
pub open spec fn spec_concat_list(paths: Seq<Seq<char>>) -> Seq<char>
    decreases paths.len(),
{
    if paths.len() == 0 {
        Seq::empty()
    } else {
        spec_concat_list(paths.drop_last()) + concat_entry(paths.last())
    }
}

fn push_concat_escaped(out: &mut String, s: &str)
    ensures
        final(out)@ == old(out)@ + concat_escape(s@),
{
    let ghost start = out@;
    let n = s.unicode_len();
    let mut i: usize = 0;
    while i < n
        invariant
            n == s@.len(),
            i <= n,
            out@ == start + concat_escape(s@.take(i as int)),
        decreases n - i,
    {
        let ch = s.get_char(i);
        if ch == '\\' || ch == '\'' {
            out.push('\\');
        }
        out.push(ch);
        proof {
            assert(s@.take(i + 1).drop_last() =~= s@.take(i as int));
            assert(out@ =~= start + concat_escape(s@.take(i + 1)));
        }
        i = i + 1;
    }
    assert(s@.take(n as int) =~= s@);
}

/// Renders the ffmpeg concat-demuxer list of the clips, one `file '<path>'` line each,
/// with backslashes and single quotes in the paths escaped.
pub fn render_concat_list(paths: &Vec<String>) -> (out: String)
    ensures
        out@ == spec_concat_list(string_views(paths@)),
{
    let ghost pv = string_views(paths@);
    let mut out = String::new();
    let mut i: usize = 0;
    while i < paths.len()
        invariant
            i <= paths@.len(),
            pv == string_views(paths@),
            out@ == spec_concat_list(pv.take(i as int)),
        decreases paths.len() - i,
    {
        let ghost before = out@;
        out.append("file '");
        push_concat_escaped(&mut out, paths[i].as_str());
        out.append("'\n");
        proof {
            assert(pv[i as int] == paths@[i as int]@);
            assert(pv.take(i + 1).drop_last() =~= pv.take(i as int));
            assert(out@ =~= before + concat_entry(pv[i as int]));
        }
        i = i + 1;
    }
    assert(pv.take(paths.len() as int) =~= pv);
    out
}

/// How the concat demuxer reads a single-quoted value back: a backslash takes the next
/// character literally.
pub open spec fn concat_unescape(s: Seq<char>) -> Seq<char>
    decreases s.len(),
{
    if s.len() == 0 {
        Seq::empty()
    } else if s[0] == '\\' && s.len() >= 2 {
        seq![s[1]] + concat_unescape(s.skip(2))
    } else {
        seq![s[0]] + concat_unescape(s.skip(1))
    }
}

proof fn lemma_concat_escape_append(a: Seq<char>, b: Seq<char>)
    ensures
        concat_escape(a + b) == concat_escape(a) + concat_escape(b),
    decreases b.len(),
{
    if b.len() == 0 {
        assert(a + b =~= a);
    } else {
        lemma_concat_escape_append(a, b.drop_last());
        assert((a + b).drop_last() =~= a + b.drop_last());
    }
}

/// Reading an escaped path back gives the path: the escaping loses nothing, and no quote
/// inside a path can end the quoted value early.
pub proof fn lemma_concat_escape_roundtrip(s: Seq<char>)
    ensures
        concat_unescape(concat_escape(s)) == s,
    decreases s.len(),
{
    if s.len() > 0 {
        let head = seq![s[0]];
        let rest = s.skip(1);
        assert(s =~= head + rest);
        lemma_concat_escape_append(head, rest);
        assert(head.drop_last() =~= Seq::<char>::empty());
        assert(head.last() == s[0]);
        assert(concat_escape(Seq::<char>::empty()) =~= Seq::<char>::empty());
        assert(concat_escape(head) =~= concat_escape_char(s[0]));
        lemma_concat_escape_roundtrip(rest);
        let e = concat_escape(s);
        assert(e =~= concat_escape_char(s[0]) + concat_escape(rest));
        if s[0] == '\\' || s[0] == '\'' {
            assert(e.skip(2) =~= concat_escape(rest));
        } else {
            assert(e.skip(1) =~= concat_escape(rest));
        }
    }
}

/// A clip runs for the requested length unless the source ends first: it never runs past
/// the end of the source, never exceeds `clip_length_secs`, and is one of the two.
pub proof fn lemma_clip_duration_fits(source_ms: nat, timestamp_ms: nat, clip_length_secs: nat)
    ensures
        timestamp_ms + clip_duration_ms(source_ms, timestamp_ms, clip_length_secs) <= source_ms
            || clip_duration_ms(source_ms, timestamp_ms, clip_length_secs) == 0,
        clip_duration_ms(source_ms, timestamp_ms, clip_length_secs) <= clip_length_secs * 1000,
        timestamp_ms + clip_length_secs * 1000 <= source_ms
            ==> clip_duration_ms(source_ms, timestamp_ms, clip_length_secs) == clip_length_secs * 1000,
        timestamp_ms + clip_length_secs * 1000 > source_ms && timestamp_ms < source_ms
            ==> timestamp_ms + clip_duration_ms(source_ms, timestamp_ms, clip_length_secs) == source_ms,
{
}

} // verus!
