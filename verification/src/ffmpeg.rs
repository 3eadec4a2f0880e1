//! The ffmpeg command lines the pipelines use, the HDR tonemapping filter, and the
//! decision of which external tools were found.

use vstd::prelude::*;
use crate::config::str_eq;
use crate::text::{fixed_point, join, join_strings, push_fixed_point, string_views};
use crate::chars::{split_whitespace, ws_tokens};
use crate::video_info::{split_on, split_str};

verus! {

/// Leading arguments of every ffmpeg invocation.
pub open spec fn spec_base_args() -> Seq<Seq<char>> {
    seq!["-hide_banner"@, "-loglevel"@, "error"@, "-y"@]
}

/// The standard ffmpeg prelude: no banner, errors only, overwrite outputs.
pub fn base_args() -> (v: Vec<String>)
    ensures
        string_views(v@) == spec_base_args(),
{
    let v = vec![
        String::from_str("-hide_banner"),
        String::from_str("-loglevel"),
        String::from_str("error"),
        String::from_str("-y"),
    ];
    assert(string_views(v@) =~= spec_base_args());
    v
}

/// The present filter components, in order.
pub open spec fn present_parts(parts: Seq<Option<&str>>) -> Seq<Seq<char>>
    decreases parts.len(),
{
    if parts.len() == 0 {
        Seq::empty()
    } else {
        present_parts(parts.drop_last()) + match parts.last() {
            Some(p) => seq![p@],
            None => Seq::empty(),
        }
    }
}

/// Joins the present filter components into one `-vf` value, dropping the absent ones.
pub fn vf_chain(parts: &[Option<&str>]) -> (s: String)
    ensures
        s@ == join(present_parts(parts@), ","@),
{
    let mut present: Vec<String> = Vec::new();
    let mut i: usize = 0;
    while i < parts.len()
        invariant
            i <= parts@.len(),
            string_views(present@) == present_parts(parts@.take(i as int)),
        decreases parts.len() - i,
    {
        let ghost before = string_views(present@);
        match parts[i] {
            Some(p) => {
                present.push(String::from_str(p));
                assert(string_views(present@) =~= before + seq![p@]);
            },
            None => {
                assert(string_views(present@) =~= before + Seq::<Seq<char>>::empty());
            },
        }
        assert(parts@.take(i + 1).drop_last() =~= parts@.take(i as int));
        i = i + 1;
    }
    assert(parts@.take(parts.len() as int) =~= parts@);
    join_strings(&present, ",")
}

/// The IPT-PQ-C2 to BT.709 colour matrix applied to Dolby Vision profile 5 sources.
pub open spec fn dv_p5_color_matrix() -> Seq<char> {
    "colorchannelmixer=rr=0.2938:rg=0.3557:rb=0.3504:gr=0.3508:gg=0.7312:gb=-0.0821:br=-0.1610:bg=1.0337:bb=0.1275"@
}

/// The zscale tonemap chain for an HDR transfer function `tin`.
pub open spec fn zscale_chain(tin: Seq<char>) -> Seq<char> {
    "zscale=tin="@ + tin + ":min=bt2020nc:pin=bt2020:t=linear:npl=100,format=gbrpf32le,zscale=p=bt709,tonemap=hable:desat=0,zscale=t=bt709:m=bt709:r=tv,format=yuv420p"@
}

/// The PQ (HDR10) transfer function tag.
pub const PQ_TRANSFER: &'static str = "smpte2084";
/// The HLG transfer function tag.
pub const HLG_TRANSFER: &'static str = "arib-std-b67";

/// What `tonemap_filter` returns: the colour matrix for Dolby Vision profile 5; the zscale
/// chain for PQ or HLG when zscale is available; nothing otherwise.
pub open spec fn spec_tonemap_filter(has_zscale: bool, color_transfer: Option<Seq<char>>, dv_profile: Option<u8>) -> Option<Seq<char>> {
    if dv_profile == Some(5u8) {
        Some(dv_p5_color_matrix())
    } else if !has_zscale {
        None
    } else {
        match color_transfer {
            Some(t) => if t == PQ_TRANSFER@ || t == HLG_TRANSFER@ { Some(zscale_chain(t)) } else { None },
            None => None,
        }
    }
}

/// The view of an optional string slice.
pub open spec fn opt_str_view(s: Option<&str>) -> Option<Seq<char>> {
    match s { Some(x) => Some(x@), None => None }
}

/// The view of an optional string.
pub open spec fn opt_string_view(s: Option<String>) -> Option<Seq<char>> {
    match s { Some(x) => Some(x@), None => None }
}

/// The video filter for HDR / Dolby Vision colour correction, or `None` for SDR.
pub fn tonemap_filter(has_zscale: bool, color_transfer: Option<&str>, dv_profile: Option<u8>) -> (r: Option<String>)
    ensures
        opt_string_view(r) == spec_tonemap_filter(has_zscale, opt_str_view(color_transfer), dv_profile),
{
    if dv_profile == Some(5u8) {
        return Some(String::from_str("colorchannelmixer=rr=0.2938:rg=0.3557:rb=0.3504:gr=0.3508:gg=0.7312:gb=-0.0821:br=-0.1610:bg=1.0337:bb=0.1275"));
    }
    if !has_zscale {
        return None;
    }
    let tin = match color_transfer {
        Some(t) => {
            if str_eq(t, PQ_TRANSFER) {
                PQ_TRANSFER
            } else if str_eq(t, HLG_TRANSFER) {
                HLG_TRANSFER
            } else {
                return None;
            }
        },
        None => return None,
    };
    let mut s = String::from_str("zscale=tin=");
    s.append(tin);
    s.append(":min=bt2020nc:pin=bt2020:t=linear:npl=100,format=gbrpf32le,zscale=p=bt709,tonemap=hable:desat=0,zscale=t=bt709:m=bt709:r=tv,format=yuv420p");
    Some(s)
}

/// Encoder arguments of every intermediate H.264 clip.
pub open spec fn spec_h264_clip_encoder() -> Seq<Seq<char>> {
    seq!["-c:v"@, "libx264"@, "-preset"@, "veryfast"@, "-crf"@, "23"@, "-pix_fmt"@, "yuv420p"@]
}

/// Encoder arguments of intermediate clips: libx264, veryfast, CRF 23, yuv420p.
pub fn h264_clip_encoder() -> (v: Vec<String>)
    ensures
        string_views(v@) == spec_h264_clip_encoder(),
{
    let v = vec![
        String::from_str("-c:v"), String::from_str("libx264"),
        String::from_str("-preset"), String::from_str("veryfast"),
        String::from_str("-crf"), String::from_str("23"),
        String::from_str("-pix_fmt"), String::from_str("yuv420p"),
    ];
    assert(string_views(v@) =~= spec_h264_clip_encoder());
    v
}

/// Where the three external tools were found.
#[derive(Debug, Clone, PartialEq, Eq)]
pub struct Tools {
    pub ffmpeg: String,
    pub ffprobe: String,
    pub mediainfo: String,
}

/// The first required tool that was not found.
#[derive(Debug, Clone, Copy, PartialEq, Eq, Structural)]
pub enum ToolsError {
    Ffmpeg,
    Ffprobe,
    MediaInfo,
}

impl ToolsError {
    /// The error message: `<tool> not found on PATH`.
    pub fn message(&self) -> (m: &'static str)
        ensures
            m@ == match *self {
                ToolsError::Ffmpeg => "ffmpeg not found on PATH"@,
                ToolsError::Ffprobe => "ffprobe not found on PATH"@,
                ToolsError::MediaInfo => "mediainfo not found on PATH"@,
            },
    {
        match self {
            ToolsError::Ffmpeg => "ffmpeg not found on PATH",
            ToolsError::Ffprobe => "ffprobe not found on PATH",
            ToolsError::MediaInfo => "mediainfo not found on PATH",
        }
    }
}

/// Directories searched before `PATH`: on macOS the keg-only `ffmpeg-full` builds, which
/// carry the drawtext filter; nothing elsewhere.
pub fn priority_dirs(macos: bool) -> (v: Vec<&'static str>)
    ensures
        macos ==> v@.map_values(|d: &str| d@) == seq!["/opt/homebrew/opt/ffmpeg-full/bin"@, "/usr/local/opt/ffmpeg-full/bin"@],
        !macos ==> v@.len() == 0,
{
    if macos {
        let v = vec!["/opt/homebrew/opt/ffmpeg-full/bin", "/usr/local/opt/ffmpeg-full/bin"];
        assert(v@.map_values(|d: &str| d@) =~= seq!["/opt/homebrew/opt/ffmpeg-full/bin"@, "/usr/local/opt/ffmpeg-full/bin"@]);
        v
    } else {
        Vec::new()
    }
}

/// Directories searched after `PATH`: the Homebrew prefixes on macOS, nothing elsewhere.
pub fn fallback_dirs(macos: bool) -> (v: Vec<&'static str>)
    ensures
        macos ==> v@.map_values(|d: &str| d@) == seq!["/opt/homebrew/bin"@, "/usr/local/bin"@],
        !macos ==> v@.len() == 0,
{
    if macos {
        let v = vec!["/opt/homebrew/bin", "/usr/local/bin"];
        assert(v@.map_values(|d: &str| d@) =~= seq!["/opt/homebrew/bin"@, "/usr/local/bin"@]);
        v
    } else {
        Vec::new()
    }
}

/// Assembles the located tools from where each was found, reporting the first one missing
/// in the order ffmpeg, ffprobe, mediainfo.
pub fn ffmpeg_test_hook_locate(
    ffmpeg: Option<String>,
    ffprobe: Option<String>,
    mediainfo: Option<String>,
) -> (r: Result<Tools, ToolsError>)
    ensures
        match r {
            Ok(t) => ffmpeg == Some(t.ffmpeg) && ffprobe == Some(t.ffprobe) && mediainfo == Some(t.mediainfo),
            Err(e) => e == if ffmpeg is None {
                ToolsError::Ffmpeg
            } else if ffprobe is None {
                ToolsError::Ffprobe
            } else {
                ToolsError::MediaInfo
            } && (ffmpeg is None || ffprobe is None || mediainfo is None),
        },
{
    let ffmpeg = match ffmpeg {
        Some(p) => p,
        None => return Err(ToolsError::Ffmpeg),
    };
    let ffprobe = match ffprobe {
        Some(p) => p,
        None => return Err(ToolsError::Ffprobe),
    };
    let mediainfo = match mediainfo {
        Some(p) => p,
        None => return Err(ToolsError::MediaInfo),
    };
    Ok(Tools { ffmpeg, ffprobe, mediainfo })
}

/// `ms` milliseconds written as seconds with three decimals, e.g. `42.500`.
pub open spec fn secs3(ms: nat) -> Seq<char> {
    fixed_point(ms, 1000, 3)
}

/// Renders `ms` milliseconds as seconds with three decimals.
pub fn secs3_string(ms: u64) -> (s: String)
    ensures
        s@ == secs3(ms as nat),
{
    let mut s = String::new();
    push_fixed_point(&mut s, ms, 1000, 3);
    assert(s@ =~= secs3(ms as nat));
    s
}

/// Frame-accurate seeking arguments for single-frame extraction.
pub open spec fn spec_seek_input_args(source: Seq<char>, timestamp_ms: nat) -> Seq<Seq<char>> {
    seq!["-ss"@, secs3(timestamp_ms), "-copyts"@, "-i"@, source, "-ss"@, secs3(timestamp_ms), "-an"@]
}

/// Seeking for single-frame extraction (contact sheets, screenshots): a fast input-level
/// `-ss`, `-copyts` to keep the stream timestamps, an exact output-level `-ss`, and `-an`.
pub fn seek_input_args(source: &str, timestamp_ms: u64) -> (v: Vec<String>)
    ensures
        string_views(v@) == spec_seek_input_args(source@, timestamp_ms as nat),
{
    let v = vec![
        String::from_str("-ss"), secs3_string(timestamp_ms),
        String::from_str("-copyts"),
        String::from_str("-i"), String::from_str(source),
        String::from_str("-ss"), secs3_string(timestamp_ms),
        String::from_str("-an"),
    ];
    assert(string_views(v@) =~= spec_seek_input_args(source@, timestamp_ms as nat));
    v
}

/// Seeking arguments for multi-second clip extraction.
pub open spec fn spec_seek_input_args_clip(source: Seq<char>, timestamp_ms: nat) -> Seq<Seq<char>> {
    seq!["-ss"@, secs3(timestamp_ms), "-i"@, source, "-an"@]
}

/// Seeking for clip extraction (preview reels, animated sheets): a single input-level
/// `-ss` without `-copyts`, which keeps reference frames on sparse-keyframe containers.
pub fn seek_input_args_clip(source: &str, timestamp_ms: u64) -> (v: Vec<String>)
    ensures
        string_views(v@) == spec_seek_input_args_clip(source@, timestamp_ms as nat),
{
    let v = vec![
        String::from_str("-ss"), secs3_string(timestamp_ms),
        String::from_str("-i"), String::from_str(source),
        String::from_str("-an"),
    ];
    assert(string_views(v@) =~= spec_seek_input_args_clip(source@, timestamp_ms as nat));
    v
}

/// Whether a line of `ffmpeg -filters` output names the filter: its second
/// whitespace-separated field is the name.
pub open spec fn line_names_filter(line: Seq<char>, name: Seq<char>) -> bool {
    ws_tokens(line).len() > 1 && ws_tokens(line)[1] == name
}

/// Whether the `ffmpeg -filters` listing contains the filter `name`.
pub open spec fn spec_lists_filter(listing: Seq<char>, name: Seq<char>) -> bool {
    exists|i: int| 0 <= i < split_on(listing, '\n').len() && line_names_filter(#[trigger] split_on(listing, '\n')[i], name)
}

/// Reads the output of `ffmpeg -filters`: whether some line's second field is `name`.
pub fn lists_filter(listing: &str, name: &str) -> (b: bool)
    ensures
        b == spec_lists_filter(listing@, name@),
{
    let lines = split_str(listing, '\n');
    let ghost lv = string_views(lines@);
    let mut i: usize = 0;
    while i < lines.len()
        invariant
            i <= lines@.len(),
            lv == string_views(lines@),
            lv == split_on(listing@, '\n'),
            forall|k: int| 0 <= k < i ==> !line_names_filter(#[trigger] lv[k], name@),
        decreases lines.len() - i,
    {
        let toks = split_whitespace(lines[i].as_str());
        assert(lv[i as int] == lines@[i as int]@);
        if toks.len() > 1 {
            assert(string_views(toks@)[1] == toks@[1]@);
            if str_eq(toks[1].as_str(), name) {
                assert(line_names_filter(lv[i as int], name@));
                return true;
            }
        }
        i = i + 1;
    }
    false
}

/// Appends the arguments `more` to `args`.
pub fn append_args(args: &mut Vec<String>, more: Vec<String>)
    ensures
        string_views(final(args)@) == string_views(old(args)@) + string_views(more@),
{
    let mut more = more;
    let ghost a = old(args)@;
    let ghost b = more@;
    args.append(&mut more);
    assert(string_views(a + b) =~= string_views(a) + string_views(b));
}

/// Colour correction by source: Dolby Vision profile 5 always gets the colour matrix; with
/// zscale available, a PQ (`smpte2084`) or HLG (`arib-std-b67`) source gets a tonemap chain
/// that reads the source's own transfer function; any other source, or HDR without
/// zscale, gets nothing.
pub proof fn lemma_tonemap_follows_transfer(has_zscale: bool, transfer: Option<Seq<char>>, dv_profile: Option<u8>)
    ensures
        dv_profile == Some(5u8) ==> spec_tonemap_filter(has_zscale, transfer, dv_profile) == Some(dv_p5_color_matrix()),
        dv_profile != Some(5u8) && has_zscale && (transfer == Some("smpte2084"@) || transfer == Some("arib-std-b67"@)) ==> ({
            let r = spec_tonemap_filter(has_zscale, transfer, dv_profile);
            &&& r is Some
            &&& r->Some_0.subrange(0, 11) == "zscale=tin="@
            &&& r->Some_0.subrange(11, 11 + transfer->Some_0.len() as int) == transfer->Some_0
        }),
        dv_profile != Some(5u8) && !(transfer == Some("smpte2084"@) || transfer == Some("arib-std-b67"@))
            ==> spec_tonemap_filter(has_zscale, transfer, dv_profile) is None,
        dv_profile != Some(5u8) && !has_zscale ==> spec_tonemap_filter(has_zscale, transfer, dv_profile) is None,
{
    reveal_strlit("zscale=tin=");
    reveal_strlit("smpte2084");
    reveal_strlit("arib-std-b67");
    if let Some(t) = transfer {
        let c = zscale_chain(t);
        let tail = ":min=bt2020nc:pin=bt2020:t=linear:npl=100,format=gbrpf32le,zscale=p=bt709,tonemap=hable:desat=0,zscale=t=bt709:m=bt709:r=tv,format=yuv420p"@;
        assert(c == "zscale=tin="@ + t + tail);
        assert(c.subrange(0, 11) =~= "zscale=tin="@);
        assert(c.subrange(11, 11 + t.len() as int) =~= t);
    }
}

} // verus!
