//! The probed description of a video file, and how it is derived from ffprobe's report.

use vstd::prelude::*;
use crate::mediainfo::Enrichment;
use crate::chars::{parse_unsigned, parse_unsigned_str};
use crate::config::str_eq;
use crate::ffmpeg::{HLG_TRANSFER, PQ_TRANSFER};

verus! {

/// The video stream of a file.
#[derive(Debug, Clone, PartialEq, Eq)]
pub struct VideoStream {
    pub codec: String,
    pub profile: Option<String>,
    /// Displayed (square-pixel) width: SAR applied, swapped for quarter-turn rotations.
    pub width: u32,
    /// Displayed (square-pixel) height.
    pub height: u32,
    /// Frame rate in hundredths of a frame per second (rounded to two decimals).
    pub fps_centi: u64,
    pub bit_rate: Option<u64>,
    pub is_hdr: bool,
    /// Raw `color_transfer` tag, e.g. "smpte2084".
    pub color_transfer: Option<String>,
    /// Dolby Vision profile number, e.g. 5, 7, 8.
    pub dv_profile: Option<u8>,
    /// Display Matrix rotation in degrees.
    pub rotation: Option<i32>,
    /// Sample aspect ratio when pixels are not square.
    pub sar: Option<(u32, u32)>,
}

/// The first audio stream of a file.
#[derive(Debug, Clone, PartialEq, Eq)]
pub struct AudioStream {
    pub codec: String,
    pub profile: Option<String>,
    pub sample_rate: Option<u32>,
    pub channels: Option<u32>,
    pub bit_rate: Option<u64>,
}

/// Everything the pipelines need to know about a source file.
#[derive(Debug, Clone, PartialEq, Eq)]
pub struct VideoInfo {
    pub filename: String,
    /// Duration in milliseconds.
    pub duration_ms: u64,
    pub size_bytes: Option<u64>,
    pub bit_rate: Option<u64>,
    pub video: VideoStream,
    pub audio: Option<AudioStream>,
    /// Best-effort MediaInfo enrichment.
    pub enrichment: Option<Enrichment>,
}


/// Why an ffprobe report could not be turned into a [`VideoInfo`].
#[derive(Debug, Clone, PartialEq, Eq)]
pub enum ProbeParseError {
    /// The report is not valid JSON of the expected shape.
    Json(String),
    /// No video stream.
    NoVideo,
    /// The duration is missing, not a number, or not positive.
    MissingDuration,
}

impl ProbeParseError {
    /// The error message.
    pub fn message(&self) -> (m: String)
        ensures
            m@ == match *self {
                ProbeParseError::Json(e) => "invalid ffprobe JSON: "@ + e@,
                ProbeParseError::NoVideo => "no video stream"@,
                ProbeParseError::MissingDuration => "missing duration"@,
            },
    {
        match self {
            ProbeParseError::Json(e) => {
                let mut m = String::from_str("invalid ffprobe JSON: ");
                m.append(e.as_str());
                m
            },
            ProbeParseError::NoVideo => String::from_str("no video stream"),
            ProbeParseError::MissingDuration => String::from_str("missing duration"),
        }
    }
}

/// One side-data record of a stream.
#[derive(Debug, Clone, PartialEq, Eq)]
pub struct RawSideData {
    pub side_data_type: Option<String>,
    pub dv_profile: Option<u8>,
    pub rotation: Option<i32>,
}

/// One stream of an ffprobe report.
#[derive(Debug, Clone, PartialEq, Eq)]
pub struct RawStream {
    pub codec_type: String,
    pub codec_name: Option<String>,
    pub profile: Option<String>,
    pub width: Option<u32>,
    pub height: Option<u32>,
    /// `r_frame_rate` as a rate in hundredths of a frame per second, when it parses.
    pub fps_centi: Option<u64>,
    pub sample_rate: Option<String>,
    pub channels: Option<u32>,
    pub bit_rate: Option<String>,
    pub color_transfer: Option<String>,
    pub sample_aspect_ratio: Option<String>,
    pub side_data_list: Option<Vec<RawSideData>>,
}

/// The `format` section of an ffprobe report.
#[derive(Debug, Clone, PartialEq, Eq)]
pub struct RawFormat {
    pub filename: Option<String>,
    /// The duration in milliseconds, present only when the reported duration is a
    /// positive number.
    pub duration_ms: Option<u64>,
    pub size: Option<String>,
    pub bit_rate: Option<String>,
}

/// An ffprobe report.
#[derive(Debug, Clone, PartialEq, Eq)]
pub struct RawRoot {
    pub streams: Vec<RawStream>,
    pub format: RawFormat,
}

/// ffprobe's side-data tag for the Dolby Vision configuration record.
pub const SIDE_DATA_DOVI: &'static str = "DOVI configuration record";
/// ffprobe's side-data tag for rotation metadata.
pub const SIDE_DATA_DISPLAY_MATRIX: &'static str = "Display Matrix";

/// The view of an optional string.
pub open spec fn ostr(s: Option<String>) -> Option<Seq<char>> {
    match s { Some(x) => Some(x@), None => None }
}

/// Whether a stream is a video stream with both dimensions non-zero.
pub open spec fn has_real_dims(s: RawStream) -> bool {
    &&& s.codec_type@ == "video"@
    &&& match s.width { Some(w) => w > 0, None => false }
    &&& match s.height { Some(h) => h > 0, None => false }
}

/// Index of the first stream satisfying `p`.
pub open spec fn first_index(streams: Seq<RawStream>, p: spec_fn(RawStream) -> bool) -> Option<int> {
    if exists|i: int| 0 <= i < streams.len() && p(streams[i]) {
        Some(choose|i: int| 0 <= i < streams.len() && p(streams[i]) && forall|j: int| 0 <= j < i ==> !p(streams[j]))
    } else {
        None
    }
}

/// Whether `i` is the first index of a stream satisfying `p`.
pub open spec fn is_first(streams: Seq<RawStream>, p: spec_fn(RawStream) -> bool, i: int) -> bool {
    &&& 0 <= i < streams.len()
    &&& p(streams[i])
    &&& forall|j: int| 0 <= j < i ==> !p(#[trigger] streams[j])
}

/// Whether no stream satisfies `p`.
pub open spec fn none_satisfy(streams: Seq<RawStream>, p: spec_fn(RawStream) -> bool) -> bool {
    forall|j: int| 0 <= j < streams.len() ==> !p(#[trigger] streams[j])
}

/// The video stream a report's description is taken from: the first video stream with
/// real dimensions, else the first video stream at all.
pub open spec fn is_selected_video(streams: Seq<RawStream>, i: int) -> bool {
    ||| is_first(streams, |s: RawStream| has_real_dims(s), i)
    ||| (none_satisfy(streams, |s: RawStream| has_real_dims(s))
        && is_first(streams, |s: RawStream| s.codec_type@ == "video"@, i))
}

fn is_video(s: &RawStream) -> (b: bool)
    ensures
        b == (s.codec_type@ == "video"@),
{
    str_eq(s.codec_type.as_str(), "video")
}

fn real_dims(s: &RawStream) -> (b: bool)
    ensures
        b == has_real_dims(*s),
{
    is_video(s) && match s.width { Some(w) => w > 0, None => false } && match s.height { Some(h) => h > 0, None => false }
}

/// Picks the video stream to describe. Multi-view 3D streams expose a zero-sized
/// enhancement view first, so the first video stream with real dimensions is preferred;
/// failing that, the first video stream; `None` when there is no video stream.
pub fn select_video_stream(streams: &Vec<RawStream>) -> (r: Option<usize>)
    ensures
        match r {
            Some(i) => is_selected_video(streams@, i as int),
            None => none_satisfy(streams@, |s: RawStream| s.codec_type@ == "video"@),
        },
{
    let mut i: usize = 0;
    while i < streams.len()
        invariant
            i <= streams@.len(),
            forall|j: int| 0 <= j < i ==> !has_real_dims(#[trigger] streams@[j]),
        decreases streams.len() - i,
    {
        if real_dims(&streams[i]) {
            return Some(i);
        }
        i = i + 1;
    }
    let mut k: usize = 0;
    while k < streams.len()
        invariant
            k <= streams@.len(),
            forall|j: int| 0 <= j < streams@.len() ==> !has_real_dims(#[trigger] streams@[j]),
            forall|j: int| 0 <= j < k ==> (#[trigger] streams@[j]).codec_type@ != "video"@,
        decreases streams.len() - k,
    {
        if is_video(&streams[k]) {
            return Some(k);
        }
        k = k + 1;
    }
    None
}

/// The first record of type `ty` in a side-data list.
pub open spec fn find_in_list(list: Seq<RawSideData>, ty: Seq<char>) -> Option<RawSideData>
    decreases list.len(),
{
    if list.len() == 0 {
        None
    } else if ostr(list[0].side_data_type) == Some(ty) {
        Some(list[0])
    } else {
        find_in_list(list.skip(1), ty)
    }
}

/// The first side-data record of type `ty`, if any.
pub open spec fn find_side_data(list: Option<Vec<RawSideData>>, ty: Seq<char>) -> Option<RawSideData> {
    match list {
        None => None,
        Some(l) => find_in_list(l@, ty),
    }
}

proof fn lemma_find_skip(list: Seq<RawSideData>, ty: Seq<char>, i: int)
    requires
        0 <= i <= list.len(),
        forall|j: int| 0 <= j < i ==> ostr((#[trigger] list[j]).side_data_type) != Some(ty),
    ensures
        find_in_list(list, ty) == find_in_list(list.skip(i), ty),
    decreases i,
{
    if i > 0 {
        lemma_find_skip(list.skip(1), ty, i - 1);
        assert(list.skip(1).skip(i - 1) =~= list.skip(i));
    } else {
        assert(list.skip(0) =~= list);
    }
}

fn find_side_data_exec<'a>(list: &'a Option<Vec<RawSideData>>, ty: &str) -> (r: Option<&'a RawSideData>)
    ensures
        match r { Some(x) => Some(*x), None => None::<RawSideData> } == find_side_data(*list, ty@),
{
    match list {
        None => None,
        Some(l) => {
            let mut i: usize = 0;
            while i < l.len()
                invariant
                    *list == Some(*l),
                    i <= l@.len(),
                    forall|j: int| 0 <= j < i ==> ostr((#[trigger] l@[j]).side_data_type) != Some(ty@),
                decreases l.len() - i,
            {
                let matches = match &l[i].side_data_type {
                    Some(t) => str_eq(t.as_str(), ty),
                    None => false,
                };
                if matches {
                    proof {
                        lemma_find_skip(l@, ty@, i as int);
                        assert(l@.skip(i as int)[0] == l@[i as int]);
                    }
                    return Some(&l[i]);
                }
                i = i + 1;
            }
            proof {
                lemma_find_skip(l@, ty@, i as int);
                assert(l@.skip(i as int) =~= Seq::<RawSideData>::empty());
            }
            None
        },
    }
}

/// `ffprobe`'s sample aspect ratio `num:den` (further `:` parts ignored), when both parts
/// parse as `u32` and describe non-square pixels.
pub open spec fn spec_parse_sar(raw: Option<Seq<char>>) -> Option<(u32, u32)> {
    match raw {
        None => None,
        Some(s) => {
            let parts = split_on(s, ':');
            if parts.len() < 2 {
                None
            } else {
                match (parse_unsigned(parts[0], u32::MAX as nat), parse_unsigned(parts[1], u32::MAX as nat)) {
                    (Some(n), Some(d)) => if n == 0 || d == 0 || n == d { None } else { Some((n as u32, d as u32)) },
                    _ => None,
                }
            }
        },
    }
}

/// `s.split(c)`: the pieces between occurrences of `c`.
pub open spec fn split_on(s: Seq<char>, c: char) -> Seq<Seq<char>>
    decreases s.len(),
{
    if s.len() == 0 {
        seq![Seq::empty()]
    } else {
        let rest = split_on(s.drop_last(), c);
        if s.last() == c {
            rest.push(Seq::empty())
        } else {
            rest.drop_last().push(rest.last().push(s.last()))
        }
    }
}

proof fn lemma_split_on_nonempty(s: Seq<char>, c: char)
    ensures
        split_on(s, c).len() >= 1,
    decreases s.len(),
{
    if s.len() > 0 {
        lemma_split_on_nonempty(s.drop_last(), c);
    }
}

/// `str::split`, collected.
pub(crate) fn split_str(s: &str, c: char) -> (v: Vec<String>)
    ensures
        crate::text::string_views(v@) == split_on(s@, c),
{
    let n = s.unicode_len();
    let mut v: Vec<String> = Vec::new();
    v.push(String::new());
    let mut i: usize = 0;
    assert(crate::text::string_views(v@) =~= split_on(s@.take(0), c));
    while i < n
        invariant
            n == s@.len(),
            i <= n,
            crate::text::string_views(v@) == split_on(s@.take(i as int), c),
        decreases n - i,
    {
        proof {
            lemma_split_on_nonempty(s@.take(i as int), c);
        }
        let ch = s.get_char(i);
        let ghost before = crate::text::string_views(v@);
        let ghost pre = s@.take(i + 1);
        assert(pre.drop_last() =~= s@.take(i as int));
        assert(pre.last() == ch);
        if ch == c {
            v.push(String::new());
            assert(crate::text::string_views(v@) =~= before.push(Seq::empty()));
        } else {
            let mut last = v.pop().unwrap();
            last.push(ch);
            v.push(last);
            assert(crate::text::string_views(v@) =~= before.drop_last().push(before.last().push(ch)));
        }
        i = i + 1;
    }
    assert(s@.take(n as int) =~= s@);
    v
}

/// Parses ffprobe's `sample_aspect_ratio` field; `None` for missing, malformed,
/// zero and square-pixel values.
pub fn parse_sar(raw: Option<&str>) -> (r: Option<(u32, u32)>)
    ensures
        r == spec_parse_sar(match raw { Some(x) => Some(x@), None => None }),
{
    let s = match raw {
        Some(s) => s,
        None => return None,
    };
    let parts = split_str(s, ':');
    if parts.len() < 2 {
        return None;
    }
    assert(parts@[0]@ == split_on(s@, ':')[0]);
    assert(parts@[1]@ == split_on(s@, ':')[1]);
    let n = match parse_unsigned_str(parts[0].as_str(), u32::MAX as u64) {
        Some(n) => n as u32,
        None => return None,
    };
    let d = match parse_unsigned_str(parts[1].as_str(), u32::MAX as u64) {
        Some(d) => d as u32,
        None => return None,
    };
    if n == 0 || d == 0 || n == d {
        None
    } else {
        Some((n, d))
    }
}

/// `x` floored to an even number, at least 2, and at most the largest even `u32`.
pub open spec fn spec_round_even(x: nat) -> u32 {
    let n = if x > u32::MAX { u32::MAX as nat } else { x };
    let e = n - n % 2;
    if e < 2 { 2 } else { e as u32 }
}

/// Floors a non-negative quantity to an even pixel count, never below 2, so scaled
/// dimensions stay `yuv420p`-friendly.
pub fn round_even(x: u64) -> (r: u32)
    ensures
        r == spec_round_even(x as nat),
{
    let n: u32 = if x > u32::MAX as u64 { u32::MAX } else { x as u32 };
    let e = n - n % 2;
    if e < 2 { 2 } else { e }
}

/// Whether a rotation turns the picture by a quarter turn (so width and height swap).
pub open spec fn quarter_turn(rotation: Option<i32>) -> bool {
    match rotation {
        Some(r) => (if r < 0 { -r } else { r as int }) % 180 == 90,
        None => false,
    }
}

/// The displayed (square-pixel) dimensions of an encoded picture: the sample aspect ratio
/// scales the width (floored to even, at least 2), then a quarter-turn rotation swaps the
/// axes.
pub open spec fn spec_displayed_dims(w: u32, h: u32, sar: Option<(u32, u32)>, rotation: Option<i32>) -> (u32, u32) {
    let dw = match sar {
        Some((n, d)) => if d > 0 { spec_round_even(((w * n) / (d as int)) as nat) } else { w },
        None => w,
    };
    if quarter_turn(rotation) { (h, dw) } else { (dw, h) }
}

/// Applies the sample aspect ratio and a quarter-turn rotation to encoded dimensions.
pub fn displayed_dims(w: u32, h: u32, sar: Option<(u32, u32)>, rotation: Option<i32>) -> (r: (u32, u32))
    ensures
        r == spec_displayed_dims(w, h, sar, rotation),
{
    let dw = match sar {
        Some((n, d)) => {
            if d > 0 {
                assert((w as u64) * (n as u64) <= u64::MAX) by (nonlinear_arith)
                    requires
                        w <= u32::MAX,
                        n <= u32::MAX;
                let p: u64 = w as u64 * n as u64;
                round_even(p / d as u64)
            } else {
                w
            }
        },
        None => w,
    };
    let swap = match rotation {
        Some(r) => {
            let a: i64 = if r < 0 { -(r as i64) } else { r as i64 };
            a % 180 == 90
        },
        None => false,
    };
    if swap { (h, dw) } else { (dw, h) }
}

/// A numeric string field parsed as an unsigned integer of at most `max`.
pub open spec fn num_field(s: Option<String>, max: nat) -> Option<nat> {
    match s { Some(x) => parse_unsigned(x@, max), None => None }
}

fn num_field_exec(s: &Option<String>, max: u64) -> (r: Option<u64>)
    ensures
        match r {
            Some(v) => num_field(*s, max as nat) == Some(v as nat),
            None => num_field(*s, max as nat) is None,
        },
{
    match s {
        Some(x) => parse_unsigned_str(x.as_str(), max),
        None => None,
    }
}

/// An optional number in `u64`.
pub open spec fn as_u64(x: Option<nat>) -> Option<u64> {
    match x { Some(v) => Some(v as u64), None => None }
}

/// An optional number in `u32`.
pub open spec fn as_u32(x: Option<nat>) -> Option<u32> {
    match x { Some(v) => Some(v as u32), None => None }
}

/// Whether `v` describes the raw video stream `s`.
pub open spec fn video_stream_of(v: VideoStream, s: RawStream) -> bool {
    let dovi = find_side_data(s.side_data_list, SIDE_DATA_DOVI@);
    let rotation = match find_side_data(s.side_data_list, SIDE_DATA_DISPLAY_MATRIX@) {
        Some(sd) => sd.rotation,
        None => None,
    };
    let sar = spec_parse_sar(ostr(s.sample_aspect_ratio));
    let dims = spec_displayed_dims(
        match s.width { Some(w) => w, None => 0 },
        match s.height { Some(h) => h, None => 0 },
        sar,
        rotation,
    );
    &&& v.codec@ == match ostr(s.codec_name) { Some(c) => c, None => Seq::empty() }
    &&& ostr(v.profile) == ostr(s.profile)
    &&& v.width == dims.0
    &&& v.height == dims.1
    &&& v.fps_centi == match s.fps_centi { Some(f) => f, None => 0 }
    &&& v.bit_rate == as_u64(num_field(s.bit_rate, u64::MAX as nat))
    &&& v.is_hdr == (ostr(s.color_transfer) == Some(PQ_TRANSFER@) || ostr(s.color_transfer) == Some(HLG_TRANSFER@) || dovi is Some)
    &&& ostr(v.color_transfer) == ostr(s.color_transfer)
    &&& v.dv_profile == match dovi { Some(sd) => sd.dv_profile, None => None }
    &&& v.rotation == rotation
    &&& v.sar == sar
}

/// Whether `a` describes the raw audio stream `s`.
pub open spec fn audio_stream_of(a: AudioStream, s: RawStream) -> bool {
    &&& a.codec@ == match ostr(s.codec_name) { Some(c) => c, None => Seq::empty() }
    &&& ostr(a.profile) == ostr(s.profile)
    &&& a.sample_rate == as_u32(num_field(s.sample_rate, u32::MAX as nat))
    &&& a.channels == s.channels
    &&& a.bit_rate == as_u64(num_field(s.bit_rate, u64::MAX as nat))
}

/// Whether `info` is the description of the report `root`.
pub open spec fn info_of(info: VideoInfo, root: RawRoot) -> bool {
    let streams = root.streams@;
    &&& root.format.duration_ms == Some(info.duration_ms)
    &&& info.filename@ == match ostr(root.format.filename) { Some(f) => f, None => Seq::empty() }
    &&& info.size_bytes == as_u64(num_field(root.format.size, u64::MAX as nat))
    &&& info.bit_rate == as_u64(num_field(root.format.bit_rate, u64::MAX as nat))
    &&& exists|i: int| is_selected_video(streams, i) && video_stream_of(info.video, #[trigger] streams[i])
    &&& match info.audio {
        Some(a) => exists|i: int| is_first(streams, |s: RawStream| s.codec_type@ == "audio"@, i)
            && audio_stream_of(a, #[trigger] streams[i]),
        None => none_satisfy(streams, |s: RawStream| s.codec_type@ == "audio"@),
    }
    &&& info.enrichment is None
}

fn clone_opt(s: &Option<String>) -> (r: Option<String>)
    ensures
        ostr(r) == ostr(*s),
{
    match s {
        Some(x) => Some(x.clone()),
        None => None,
    }
}

fn string_or_empty(s: &Option<String>) -> (r: String)
    ensures
        r@ == match ostr(*s) { Some(x) => x, None => Seq::empty() },
{
    match s {
        Some(x) => x.clone(),
        None => String::new(),
    }
}

fn describe_video(s: &RawStream) -> (v: VideoStream)
    ensures
        video_stream_of(v, *s),
{
    let dovi = find_side_data_exec(&s.side_data_list, SIDE_DATA_DOVI);
    let dv_profile = match dovi {
        Some(sd) => sd.dv_profile,
        None => None,
    };
    let is_pq_or_hlg = match &s.color_transfer {
        Some(t) => str_eq(t.as_str(), PQ_TRANSFER) || str_eq(t.as_str(), HLG_TRANSFER),
        None => false,
    };
    let is_hdr = is_pq_or_hlg || dovi.is_some();
    let rotation = match find_side_data_exec(&s.side_data_list, SIDE_DATA_DISPLAY_MATRIX) {
        Some(sd) => sd.rotation,
        None => None,
    };
    let sar = parse_sar(match &s.sample_aspect_ratio { Some(x) => Some(x.as_str()), None => None });
    let dims = displayed_dims(
        match s.width { Some(w) => w, None => 0 },
        match s.height { Some(h) => h, None => 0 },
        sar,
        rotation,
    );
    VideoStream {
        codec: string_or_empty(&s.codec_name),
        profile: clone_opt(&s.profile),
        width: dims.0,
        height: dims.1,
        fps_centi: match s.fps_centi { Some(f) => f, None => 0 },
        bit_rate: num_field_exec(&s.bit_rate, u64::MAX),
        is_hdr,
        color_transfer: clone_opt(&s.color_transfer),
        dv_profile,
        rotation,
        sar,
    }
}

/// Index of the first audio stream.
pub fn first_audio_stream(streams: &Vec<RawStream>) -> (r: Option<usize>)
    ensures
        match r {
            Some(i) => is_first(streams@, |s: RawStream| s.codec_type@ == "audio"@, i as int),
            None => none_satisfy(streams@, |s: RawStream| s.codec_type@ == "audio"@),
        },
{
    let mut k: usize = 0;
    while k < streams.len()
        invariant
            k <= streams@.len(),
            forall|j: int| 0 <= j < k ==> (#[trigger] streams@[j]).codec_type@ != "audio"@,
        decreases streams.len() - k,
    {
        if str_eq(streams[k].codec_type.as_str(), "audio") {
            return Some(k);
        }
        k = k + 1;
    }
    None
}

fn describe_audio(s: &RawStream) -> (a: AudioStream)
    ensures
        audio_stream_of(a, *s),
{
    AudioStream {
        codec: string_or_empty(&s.codec_name),
        profile: clone_opt(&s.profile),
        sample_rate: match num_field_exec(&s.sample_rate, u32::MAX as u64) {
            Some(r) => Some(r as u32),
            None => None,
        },
        channels: s.channels,
        bit_rate: num_field_exec(&s.bit_rate, u64::MAX),
    }
}

/// Turns an ffprobe report into the description of the file: the duration (which must be
/// present and positive), the selected video stream with its displayed dimensions, HDR and
/// Dolby Vision detection, and the first audio stream if there is one.
pub fn parse(root: &RawRoot) -> (r: Result<VideoInfo, ProbeParseError>)
    ensures
        root.format.duration_ms is None <==> r == Err::<VideoInfo, ProbeParseError>(ProbeParseError::MissingDuration),
        root.format.duration_ms is Some && none_satisfy(root.streams@, |s: RawStream| s.codec_type@ == "video"@)
            <==> r == Err::<VideoInfo, ProbeParseError>(ProbeParseError::NoVideo),
        match r {
            Ok(info) => info_of(info, *root),
            Err(e) => e == ProbeParseError::MissingDuration || e == ProbeParseError::NoVideo,
        },
{
    let duration_ms = match root.format.duration_ms {
        Some(d) => d,
        None => return Err(ProbeParseError::MissingDuration),
    };
    let vi = match select_video_stream(&root.streams) {
        Some(i) => i,
        None => return Err(ProbeParseError::NoVideo),
    };
    let video = describe_video(&root.streams[vi]);
    let audio = match first_audio_stream(&root.streams) {
        Some(k) => Some(describe_audio(&root.streams[k])),
        None => None,
    };
    let info = VideoInfo {
        filename: string_or_empty(&root.format.filename),
        duration_ms,
        size_bytes: num_field_exec(&root.format.size, u64::MAX),
        bit_rate: num_field_exec(&root.format.bit_rate, u64::MAX),
        video,
        audio,
        enrichment: None,
    };
    proof {
        assert(video_stream_of(info.video, root.streams@[vi as int]));
    }
    Ok(info)
}

} // verus!
