//! MediaInfo enrichment: the subset of MediaInfo metadata the contact-sheet header uses,
//! and how it is read from MediaInfo's tracks.

use vstd::prelude::*;
use crate::chars::{
    ascii_upper, before_char, contains_seq, first_split, parse_unsigned, parse_unsigned_str,
    split_whitespace, str_contains, to_ascii_uppercase, trim, trim_str, ws_tokens,
};
use crate::config::str_eq;
use crate::text::{dec, push_dec, string_views};

verus! {

/// MediaInfo metadata the header consumes. Every field is independently optional; all
/// strings are unescaped.
#[derive(Debug, Clone, Default, PartialEq, Eq)]
pub struct Enrichment {
    /// General-track `Format`: container name like "Matroska".
    pub container_format: Option<String>,
    /// General-track `Title` (or `Movie`): a friendly source title.
    pub title: Option<String>,
    /// Video-track `BitDepth`.
    pub video_bit_depth: Option<u8>,
    /// Displayable HDR format, e.g. "Dolby Vision / HDR10".
    pub video_hdr_format: Option<String>,
    /// Audio commercial name, e.g. "DTS-HD Master Audio".
    pub audio_commercial_name: Option<String>,
    /// Audio channel layout summary: "stereo", "5.1", ... or "<n> ch".
    pub audio_channel_layout: Option<String>,
    /// Audio-track `Language`, e.g. "en".
    pub audio_language: Option<String>,
}


/// Combines MediaInfo's `HDR_Format` with `HDR_Format_Compatibility`: the headline format
/// (the part before the first `/`, trimmed), with ` / HDR10` appended when the
/// compatibility field mentions HDR10 and the headline does not; nothing when there is no
/// headline.
pub open spec fn spec_collapse_hdr_format(hdr: Option<Seq<char>>, compat: Option<Seq<char>>) -> Option<Seq<char>> {
    match hdr {
        None => None,
        Some(h) => {
            let head = trim(before_char(h, '/'));
            if head.len() == 0 {
                None
            } else {
                let hdr10 = match compat { Some(c) => contains_seq(c, "HDR10"@), None => false };
                if hdr10 && !contains_seq(head, "HDR10"@) {
                    Some(head + " / HDR10"@)
                } else {
                    Some(head)
                }
            }
        },
    }
}

/// The view of an optional string slice.
pub open spec fn opt_str(s: Option<&str>) -> Option<Seq<char>> {
    match s { Some(x) => Some(x@), None => None }
}

/// The view of an optional string.
pub open spec fn opt_string(s: Option<String>) -> Option<Seq<char>> {
    match s { Some(x) => Some(x@), None => None }
}

/// Combines `HDR_Format` and `HDR_Format_Compatibility` into a short display string.
pub fn collapse_hdr_format(hdr: Option<&str>, compat: Option<&str>) -> (r: Option<String>)
    ensures
        opt_string(r) == spec_collapse_hdr_format(opt_str(hdr), opt_str(compat)),
{
    let h = match hdr {
        Some(h) => h,
        None => return None,
    };
    let head = trim_str(first_split(h, '/'));
    if head.unicode_len() == 0 {
        return None;
    }
    let hdr10 = match compat {
        Some(c) => str_contains(c, "HDR10"),
        None => false,
    };
    if hdr10 && !str_contains(head.as_str(), "HDR10") {
        let mut out = head;
        out.append(" / HDR10");
        Some(out)
    } else {
        Some(head)
    }
}

/// Number of tokens other than `LFE`.
pub open spec fn count_non_lfe(tokens: Seq<Seq<char>>) -> nat
    decreases tokens.len(),
{
    if tokens.len() == 0 {
        0
    } else {
        count_non_lfe(tokens.drop_last()) + if tokens.last() == "LFE"@ { 0nat } else { 1nat }
    }
}

/// The name a channel layout string maps to, from its spatial channel count (tokens other
/// than `LFE`) and whether it mentions `LFE` (case-insensitively): stereo, 3.0, 5.1, 6.1,
/// 7.1; nothing for other combinations.
pub open spec fn layout_name(layout: Seq<char>) -> Option<Seq<char>> {
    let l = ascii_upper(layout);
    let has_lfe = contains_seq(l, "LFE"@);
    let spatial = count_non_lfe(ws_tokens(l));
    if spatial == 2 && !has_lfe {
        Some("stereo"@)
    } else if spatial == 3 && !has_lfe {
        Some("3.0"@)
    } else if spatial == 5 && has_lfe {
        Some("5.1"@)
    } else if spatial == 6 && has_lfe {
        Some("6.1"@)
    } else if spatial == 7 && has_lfe {
        Some("7.1"@)
    } else {
        None
    }
}

/// A short channel-layout label: the recognised layout if there is one, else from the
/// channel count `mono`, `stereo` or `<n> ch`, else nothing.
pub open spec fn spec_channel_layout_display(channels: Option<u32>, layout: Option<Seq<char>>) -> Option<Seq<char>> {
    let named = match layout { Some(l) => layout_name(l), None => None };
    match named {
        Some(n) => Some(n),
        None => match channels {
            None => None,
            Some(c) => if c == 1 {
                Some("mono"@)
            } else if c == 2 {
                Some("stereo"@)
            } else {
                Some(dec(c as nat) + " ch"@)
            },
        },
    }
}

fn count_non_lfe_tokens(tokens: &Vec<String>) -> (n: usize)
    ensures
        n == count_non_lfe(string_views(tokens@)),
{
    let ghost tv = string_views(tokens@);
    let mut n: usize = 0;
    let mut i: usize = 0;
    while i < tokens.len()
        invariant
            i <= tokens@.len(),
            tv == string_views(tokens@),
            n == count_non_lfe(tv.take(i as int)),
            n <= i,
        decreases tokens.len() - i,
    {
        assert(tv.take(i + 1).drop_last() =~= tv.take(i as int));
        assert(tv[i as int] == tokens@[i as int]@);
        if !str_eq(tokens[i].as_str(), "LFE") {
            n = n + 1;
        }
        i = i + 1;
    }
    assert(tv.take(tokens.len() as int) =~= tv);
    n
}

/// Maps a channel count and a MediaInfo channel layout to a short display string.
pub fn channel_layout_display(channels: Option<u32>, layout: Option<&str>) -> (r: Option<String>)
    ensures
        opt_string(r) == spec_channel_layout_display(channels, opt_str(layout)),
{
    if let Some(layout) = layout {
        let l = to_ascii_uppercase(layout);
        let has_lfe = str_contains(l.as_str(), "LFE");
        let tokens = split_whitespace(l.as_str());
        let spatial = count_non_lfe_tokens(&tokens);
        if spatial == 2 && !has_lfe {
            return Some(String::from_str("stereo"));
        } else if spatial == 3 && !has_lfe {
            return Some(String::from_str("3.0"));
        } else if spatial == 5 && has_lfe {
            return Some(String::from_str("5.1"));
        } else if spatial == 6 && has_lfe {
            return Some(String::from_str("6.1"));
        } else if spatial == 7 && has_lfe {
            return Some(String::from_str("7.1"));
        }
    }
    match channels {
        None => None,
        Some(c) => {
            if c == 1 {
                Some(String::from_str("mono"))
            } else if c == 2 {
                Some(String::from_str("stereo"))
            } else {
                let mut s = String::new();
                push_dec(&mut s, c as u64);
                s.append(" ch");
                Some(s)
            }
        },
    }
}

/// One MediaInfo track: its `@type`, and its string-valued fields.
#[derive(Debug, Clone, PartialEq, Eq)]
pub struct MediaTrack {
    pub kind: Option<String>,
    pub fields: Vec<(String, String)>,
}

/// The value of the first field named `key`.
pub open spec fn lookup(fields: Seq<(String, String)>, key: Seq<char>) -> Option<Seq<char>>
    decreases fields.len(),
{
    if fields.len() == 0 {
        None
    } else if fields[0].0@ == key {
        Some(fields[0].1@)
    } else {
        lookup(fields.skip(1), key)
    }
}

/// A field's value, trimmed; nothing when it is missing or blank.
pub open spec fn spec_str_field(t: MediaTrack, key: Seq<char>) -> Option<Seq<char>> {
    match lookup(t.fields@, key) {
        Some(v) => if trim(v).len() == 0 { None } else { Some(trim(v)) },
        None => None,
    }
}

proof fn lemma_lookup_skip(fields: Seq<(String, String)>, key: Seq<char>, i: int)
    requires
        0 <= i <= fields.len(),
        forall|k: int| 0 <= k < i ==> (#[trigger] fields[k]).0@ != key,
    ensures
        lookup(fields, key) == lookup(fields.skip(i), key),
    decreases i,
{
    if i > 0 {
        lemma_lookup_skip(fields.skip(1), key, i - 1);
        assert(fields.skip(1).skip(i - 1) =~= fields.skip(i));
    } else {
        assert(fields.skip(0) =~= fields);
    }
}

fn str_field(t: &MediaTrack, key: &str) -> (r: Option<String>)
    ensures
        opt_string(r) == spec_str_field(*t, key@),
{
    let mut i: usize = 0;
    while i < t.fields.len()
        invariant
            i <= t.fields@.len(),
            forall|k: int| 0 <= k < i ==> (#[trigger] t.fields@[k]).0@ != key@,
        decreases t.fields.len() - i,
    {
        if str_eq(t.fields[i].0.as_str(), key) {
            proof {
                lemma_lookup_skip(t.fields@, key@, i as int);
                assert(t.fields@.skip(i as int)[0] == t.fields@[i as int]);
            }
            let v = trim_str(t.fields[i].1.as_str());
            if v.unicode_len() == 0 {
                return None;
            }
            return Some(v);
        }
        i = i + 1;
    }
    proof {
        lemma_lookup_skip(t.fields@, key@, i as int);
        assert(t.fields@.skip(i as int) =~= Seq::<(String, String)>::empty());
    }
    None
}

/// The last track whose `@type` is `kind`.
pub open spec fn last_of_kind(tracks: Seq<MediaTrack>, kind: Seq<char>) -> Option<MediaTrack>
    decreases tracks.len(),
{
    if tracks.len() == 0 {
        None
    } else if opt_string(tracks.last().kind) == Some(kind) {
        Some(tracks.last())
    } else {
        last_of_kind(tracks.drop_last(), kind)
    }
}

/// `a`, or `b` when `a` is absent.
pub open spec fn or_else(a: Option<Seq<char>>, b: Option<Seq<char>>) -> Option<Seq<char>> {
    match a { Some(x) => Some(x), None => b }
}

/// What the General track contributes: container format and title.
pub open spec fn general_ok(e: Enrichment, g: Option<MediaTrack>) -> bool {
    match g {
        Some(t) => {
            &&& opt_string(e.container_format) == spec_str_field(t, "Format"@)
            &&& opt_string(e.title) == or_else(spec_str_field(t, "Title"@), spec_str_field(t, "Movie"@))
        },
        None => e.container_format is None && e.title is None,
    }
}

/// A numeric field parsed as an unsigned integer of at most `max`.
pub open spec fn numeric_field(t: MediaTrack, key: Seq<char>, max: nat) -> Option<nat> {
    match spec_str_field(t, key) {
        Some(v) => parse_unsigned(v, max),
        None => None,
    }
}

/// What the Video track contributes: bit depth and HDR format.
pub open spec fn video_ok(e: Enrichment, v: Option<MediaTrack>) -> bool {
    match v {
        Some(t) => {
            &&& match e.video_bit_depth {
                Some(b) => numeric_field(t, "BitDepth"@, 255) == Some(b as nat),
                None => numeric_field(t, "BitDepth"@, 255) is None,
            }
            &&& opt_string(e.video_hdr_format) == spec_collapse_hdr_format(
                spec_str_field(t, "HDR_Format"@), spec_str_field(t, "HDR_Format_Compatibility"@))
        },
        None => e.video_bit_depth is None && e.video_hdr_format is None,
    }
}

/// The channel count of an audio track, when it parses.
pub open spec fn audio_channels(t: MediaTrack) -> Option<u32> {
    match numeric_field(t, "Channels"@, u32::MAX as nat) {
        Some(n) => Some(n as u32),
        None => None,
    }
}

/// What the Audio track contributes: commercial name, language and channel layout.
pub open spec fn audio_ok(e: Enrichment, a: Option<MediaTrack>) -> bool {
    match a {
        Some(t) => {
            &&& opt_string(e.audio_commercial_name) == or_else(spec_str_field(t, "Format_Commercial_IfAny"@), spec_str_field(t, "Format"@))
            &&& opt_string(e.audio_language) == spec_str_field(t, "Language"@)
            &&& opt_string(e.audio_channel_layout) == spec_channel_layout_display(
                audio_channels(t),
                or_else(spec_str_field(t, "ChannelLayout_Original"@), spec_str_field(t, "ChannelLayout"@)))
        },
        None => e.audio_commercial_name is None && e.audio_language is None && e.audio_channel_layout is None,
    }
}

/// Whether `e` is what the tracks yield: each field from the last track of its kind.
pub open spec fn enrichment_of(e: Enrichment, tracks: Seq<MediaTrack>) -> bool {
    &&& general_ok(e, last_of_kind(tracks, "General"@))
    &&& video_ok(e, last_of_kind(tracks, "Video"@))
    &&& audio_ok(e, last_of_kind(tracks, "Audio"@))
}

fn or_else_string(a: Option<String>, b: Option<String>) -> (r: Option<String>)
    ensures
        opt_string(r) == or_else(opt_string(a), opt_string(b)),
{
    match a {
        Some(x) => Some(x),
        None => b,
    }
}

fn kind_is(t: &MediaTrack, kind: &str) -> (b: bool)
    ensures
        b == (opt_string(t.kind) == Some(kind@)),
{
    match &t.kind {
        Some(k) => str_eq(k.as_str(), kind),
        None => false,
    }
}

/// Reads the enrichment out of MediaInfo's tracks: nothing for an empty track list;
/// otherwise the General, Video and Audio tracks each fill their fields (a later track of
/// the same kind replacing an earlier one), and anything unparseable is left out.
pub fn enrichment_from_tracks(tracks: &Vec<MediaTrack>) -> (r: Option<Enrichment>)
    ensures
        tracks@.len() == 0 <==> r is None,
        match r {
            Some(e) => enrichment_of(e, tracks@),
            None => true,
        },
{
    if tracks.len() == 0 {
        return None;
    }
    let mut e = Enrichment {
        container_format: None,
        title: None,
        video_bit_depth: None,
        video_hdr_format: None,
        audio_commercial_name: None,
        audio_channel_layout: None,
        audio_language: None,
    };
    let mut i: usize = 0;
    while i < tracks.len()
        invariant
            i <= tracks@.len(),
            enrichment_of(e, tracks@.take(i as int)),
        decreases tracks.len() - i,
    {
        let t = &tracks[i];
        let ghost pre = tracks@.take(i as int);
        let ghost next = tracks@.take(i + 1);
        assert(next.drop_last() =~= pre);
        assert(next.last() == *t);
        proof {
            reveal_strlit("General");
            reveal_strlit("Video");
            reveal_strlit("Audio");
            assert("General"@.len() == 7);
            assert("Video"@.len() == 5);
            assert("Audio"@.len() == 5);
            assert("Video"@[0] == 'V');
            assert("Audio"@[0] == 'A');
            assert("General"@ != "Video"@);
            assert("General"@ != "Audio"@);
            assert("Video"@ != "Audio"@);
        }
        if kind_is(t, "General") {
            e.container_format = str_field(t, "Format");
            e.title = or_else_string(str_field(t, "Title"), str_field(t, "Movie"));
        } else if kind_is(t, "Video") {
            e.video_bit_depth = match str_field(t, "BitDepth") {
                Some(v) => match parse_unsigned_str(v.as_str(), 255) {
                    Some(b) => {
                        assert(b <= 255);
                        Some(b as u8)
                    },
                    None => None,
                },
                None => None,
            };
            let hdr = str_field(t, "HDR_Format");
            let compat = str_field(t, "HDR_Format_Compatibility");
            e.video_hdr_format = collapse_hdr_format(
                match &hdr { Some(h) => Some(h.as_str()), None => None },
                match &compat { Some(c) => Some(c.as_str()), None => None },
            );
        } else if kind_is(t, "Audio") {
            e.audio_commercial_name = or_else_string(str_field(t, "Format_Commercial_IfAny"), str_field(t, "Format"));
            e.audio_language = str_field(t, "Language");
            let channels: Option<u32> = match str_field(t, "Channels") {
                Some(v) => match parse_unsigned_str(v.as_str(), u32::MAX as u64) {
                    Some(n) => Some(n as u32),
                    None => None,
                },
                None => None,
            };
            let layout = or_else_string(str_field(t, "ChannelLayout_Original"), str_field(t, "ChannelLayout"));
            assert(channels == audio_channels(*t));
            e.audio_channel_layout = channel_layout_display(
                channels,
                match &layout { Some(l) => Some(l.as_str()), None => None },
            );
        }
        proof {
            assert(last_of_kind(next, "General"@) == if opt_string(t.kind) == Some("General"@) { Some(*t) } else { last_of_kind(pre, "General"@) });
            assert(last_of_kind(next, "Video"@) == if opt_string(t.kind) == Some("Video"@) { Some(*t) } else { last_of_kind(pre, "Video"@) });
            assert(last_of_kind(next, "Audio"@) == if opt_string(t.kind) == Some("Audio"@) { Some(*t) } else { last_of_kind(pre, "Audio"@) });
            assert(general_ok(e, last_of_kind(next, "General"@)));
            assert(video_ok(e, last_of_kind(next, "Video"@)));
            assert(audio_ok(e, last_of_kind(next, "Audio"@)));
        }
        i = i + 1;
    }
    assert(tracks@.take(tracks.len() as int) =~= tracks@);
    Some(e)
}


/// The `media` object of a MediaInfo JSON report: its track list, when it has one.
#[derive(Debug, Clone, PartialEq, Eq)]
pub struct MediaInfoMedia {
    pub track: Option<Vec<MediaTrack>>,
}

/// A MediaInfo JSON report, as far as the enrichment reads it.
#[derive(Debug, Clone, PartialEq, Eq)]
pub struct MediaInfoReport {
    pub media: Option<MediaInfoMedia>,
}

/// The report's track list, when it has a `media.track` array.
pub open spec fn report_tracks(report: MediaInfoReport) -> Option<Seq<MediaTrack>> {
    match report.media {
        Some(m) => match m.track {
            Some(ts) => Some(ts@),
            None => None,
        },
        None => None,
    }
}

/// Reads the enrichment out of a MediaInfo report: nothing when it has no `media.track`
/// array or the array is empty (so the caller falls back to ffprobe data); otherwise what
/// the tracks yield, which is the empty enrichment when none of them has a field of
/// interest.
pub fn parse_enrichment(report: &MediaInfoReport) -> (r: Option<Enrichment>)
    ensures
        match report_tracks(*report) {
            None => r is None,
            Some(ts) => (ts.len() == 0 <==> r is None) && match r {
                Some(e) => enrichment_of(e, ts),
                None => true,
            },
        },
{
    match &report.media {
        Some(m) => match &m.track {
            Some(ts) => enrichment_from_tracks(ts),
            None => None,
        },
        None => None,
    }
}

} // verus!
