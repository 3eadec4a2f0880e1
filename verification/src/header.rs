//! The metadata header of a contact sheet: one drawtext-escaped line per section.

use vstd::prelude::*;
use crate::drawtext::{escape_drawtext, spec_escape_drawtext, spec_hms, format_hms_plain};
use crate::mediainfo::Enrichment;
use crate::text::{dec, join, push_dec, push_fixed_point, push_fixed_point_wide, fixed_point, round_half_even, join_strings, string_views};
use crate::video_info::{AudioStream, VideoInfo, VideoStream};

verus! {

/// 2 to the power `k`.
pub open spec fn two_pow(k: nat) -> nat
    decreases k,
{
    if k == 0 { 1 } else { 2 * two_pow((k - 1) as nat) }
}

/// Halvings that bring `n` below 2^53: how many low bits a binary64 cannot hold.
pub open spec fn sig_shift(n: nat) -> nat
    decreases n,
{
    if n < 0x20_0000_0000_0000 { 0 } else { 1 + sig_shift(n / 2) }
}

/// `n as f64`, as the integer it denotes: `n` rounded to 53 significant bits, ties to even.
pub open spec fn f64_of_int(n: nat) -> nat {
    round_half_even(n, two_pow(sig_shift(n))) * two_pow(sig_shift(n))
}

/// 2^52 * 10^6: below it a quotient by 10^6 has not yet reached full binary64 precision.
pub open spec fn mbps_low() -> nat {
    4503599627370496000000
}

/// Doublings that bring `b * 2^k` to at least 2^52 * 10^6, so that `b * 2^k / 10^6`
/// is a 53-bit mantissa.
pub open spec fn up_shift(b: nat) -> nat
    decreases (if b >= mbps_low() { 0int } else { mbps_low() - b }),
{
    if b == 0 || b >= mbps_low() { 0 } else { 1 + up_shift(2 * b) }
}

/// Tenths of `bps as f64 / 1_000_000.0` as `{:.1}` shows them: the binary64 quotient is
/// `m / 2^k` with `m` the correctly rounded mantissa, and the tenths round its exact value
/// to the nearest, ties to even.
pub open spec fn mbps_tenths(bps: nat) -> nat {
    let b = f64_of_int(bps);
    let k = up_shift(b);
    let m = round_half_even(b * two_pow(k), 1000000);
    round_half_even(10 * m, two_pow(k))
}

/// `bytes` in GiB with two decimals, as `{:.2}` renders `bytes as f64 / 2^30` (the
/// division by a power of two is exact).
pub open spec fn spec_format_gib(bytes: nat) -> Seq<char> {
    fixed_point(round_half_even(f64_of_int(bytes) * 100, 1073741824), 100, 2) + " GiB"@
}

/// `bps` in Mb/s with one decimal, as `{:.1}` renders `bps as f64 / 1_000_000.0`.
pub open spec fn spec_format_mbps(bps: nat) -> Seq<char> {
    fixed_point(mbps_tenths(bps), 10, 1) + " Mb/s"@
}

/// `bps` in whole kb/s, truncated.
pub open spec fn spec_format_kbps(bps: nat) -> Seq<char> {
    dec(bps / 1000) + " kb/s"@
}

fn round_div_even(num: u128, den: u128) -> (r: u128)
    requires
        0 < den <= 0x100_0000_0000_0000_0000_0000_0000_0000,
        num <= 0x100_0000_0000_0000_0000_0000_0000_0000,
    ensures
        r == round_half_even(num as nat, den as nat),
        r <= num / den + 1,
{
    let q = num / den;
    let rem = num % den;
    if 2 * rem > den || (2 * rem == den && q % 2 == 1) {
        q + 1
    } else {
        q
    }
}

/// `n as f64`, as the integer it denotes.
fn f64_int(n: u64) -> (r: u128)
    ensures
        r == f64_of_int(n as nat),
        r <= 0x2_0000_0000_0000_0000,
{
    let mut m: u64 = n;
    let mut p: u128 = 1;
    let ghost mut cnt: nat = 0;
    while m >= 0x20_0000_0000_0000
        invariant
            sig_shift(n as nat) == cnt + sig_shift(m as nat),
            p == two_pow(cnt),
            1 <= p <= 0x1000,
            m * p <= n,
        decreases m,
    {
        assert((m / 2) * (2 * p) <= m * p) by (nonlinear_arith);
        assert(p < 0x800) by (nonlinear_arith)
            requires
                m * p <= n,
                m >= 0x20_0000_0000_0000,
                n <= u64::MAX;
        m = m / 2;
        p = p * 2;
        proof {
            cnt = cnt + 1;
        }
    }
    let nn: u128 = n as u128;
    let q = round_div_even(nn, p);
    assert(q * p <= nn + p) by (nonlinear_arith)
        requires
            q <= nn / p + 1,
            p >= 1;
    q * p
}

/// Formats a byte count as GiB with two decimals.
pub fn format_gib(bytes: u64) -> (s: String)
    ensures
        s@ == spec_format_gib(bytes as nat),
{
    let b = f64_int(bytes);
    let r = round_div_even(b * 100, 1073741824);
    let mut s = String::new();
    push_fixed_point_wide(&mut s, r, 100, 2);
    s.append(" GiB");
    assert(s@ =~= spec_format_gib(bytes as nat));
    s
}

/// Formats a bit rate as Mb/s with one decimal.
pub fn format_mbps(bps: u64) -> (s: String)
    ensures
        s@ == spec_format_mbps(bps as nat),
{
    let b = f64_int(bps);
    let low: u128 = 4503599627370496000000;
    let mut x: u128 = b;
    let mut p: u128 = 1;
    let ghost mut k: nat = 0;
    while x != 0 && x < low
        invariant
            low == mbps_low(),
            up_shift(b as nat) == k + up_shift(x as nat),
            x == b * p,
            p == two_pow(k),
            1 <= p,
            x < 2 * low,
            b >= 1 ==> p <= x,
            b == 0 ==> x == 0 && p == 1,
        decreases 2 * low - x,
    {
        assert(b * (2 * p) == 2 * (b * p)) by (nonlinear_arith);
        x = 2 * x;
        p = 2 * p;
        proof {
            k = k + 1;
        }
    }
    proof {
        assert(up_shift(x as nat) == 0);
    }
    let m = round_div_even(x, 1000000);
    let t = round_div_even(10 * m, p);
    let mut s = String::new();
    push_fixed_point_wide(&mut s, t, 10, 1);
    s.append(" Mb/s");
    assert(s@ =~= spec_format_mbps(bps as nat));
    s
}

/// Formats a bit rate as whole kb/s.
pub fn format_kbps(bps: u64) -> (s: String)
    ensures
        s@ == spec_format_kbps(bps as nat),
{
    let mut s = String::new();
    push_dec(&mut s, bps / 1000);
    s.append(" kb/s");
    assert(s@ =~= spec_format_kbps(bps as nat));
    s
}


/// ` (<profile>)` when a profile is known, nothing otherwise.
pub open spec fn profile_suffix(p: Option<String>) -> Seq<char> {
    match p {
        Some(p) => " ("@ + p@ + ")"@,
        None => Seq::empty(),
    }
}

/// The MediaInfo title, if the enrichment has one.
pub open spec fn enrich_title(e: Option<Enrichment>) -> Option<String> {
    match e { Some(e) => e.title, None => None }
}

/// The MediaInfo video bit depth, if any.
pub open spec fn enrich_bit_depth(e: Option<Enrichment>) -> Option<u8> {
    match e { Some(e) => e.video_bit_depth, None => None }
}

/// The MediaInfo HDR format, if any.
pub open spec fn enrich_hdr(e: Option<Enrichment>) -> Option<String> {
    match e { Some(e) => e.video_hdr_format, None => None }
}

/// The MediaInfo audio commercial name, if any.
pub open spec fn enrich_audio_name(e: Option<Enrichment>) -> Option<String> {
    match e { Some(e) => e.audio_commercial_name, None => None }
}

/// The MediaInfo audio channel layout, if any.
pub open spec fn enrich_layout(e: Option<Enrichment>) -> Option<String> {
    match e { Some(e) => e.audio_channel_layout, None => None }
}

/// The MediaInfo audio language, if any.
pub open spec fn enrich_language(e: Option<Enrichment>) -> Option<String> {
    match e { Some(e) => e.audio_language, None => None }
}

/// `[x]` when present, nothing otherwise.
pub open spec fn opt_part(x: Option<Seq<char>>) -> Seq<Seq<char>> {
    match x { Some(x) => seq![x], None => Seq::empty() }
}

/// First header line, unescaped: the MediaInfo title if there is one, else the file name.
pub open spec fn title_text(info: VideoInfo, display_filename: Seq<char>) -> Seq<char> {
    match enrich_title(info.enrichment) {
        Some(t) => t@,
        None => display_filename,
    }
}

/// Sections of the file line: size, duration, overall bit rate.
pub open spec fn file_parts(info: VideoInfo) -> Seq<Seq<char>> {
    opt_part(match info.size_bytes { Some(sz) => Some("Size: "@ + spec_format_gib(sz as nat)), None => None })
        + seq!["Duration: "@ + spec_hms((info.duration_ms / 1000) as nat, seq![':'])]
        + opt_part(match info.bit_rate { Some(br) => Some("Bitrate: "@ + spec_format_mbps(br as nat)), None => None })
}

/// Sections of the video line: codec and profile, dimensions, bit depth, HDR format, bit
/// rate, frame rate.
pub open spec fn video_parts(v: VideoStream, e: Option<Enrichment>) -> Seq<Seq<char>> {
    seq!["Video: "@ + v.codec@ + profile_suffix(v.profile), dec(v.width as nat) + "x"@ + dec(v.height as nat)]
        + opt_part(match enrich_bit_depth(e) { Some(bd) => Some(dec(bd as nat) + "-bit"@), None => None })
        + opt_part(match enrich_hdr(e) { Some(h) => Some(h@), None => None })
        + opt_part(match v.bit_rate { Some(b) => Some(spec_format_kbps(b as nat)), None => None })
        + seq![fixed_point(v.fps_centi as nat, 100, 2) + " fps"@]
}

/// The audio codec label: MediaInfo's commercial name if known, else codec and profile.
pub open spec fn audio_label(a: AudioStream, e: Option<Enrichment>) -> Seq<char> {
    match enrich_audio_name(e) {
        Some(n) => n@,
        None => a.codec@ + profile_suffix(a.profile),
    }
}

/// The channel section: MediaInfo's layout if known, else `stereo` for two channels or
/// `<n> ch`, else nothing.
pub open spec fn channel_part(a: AudioStream, e: Option<Enrichment>) -> Seq<Seq<char>> {
    match enrich_layout(e) {
        Some(l) => seq![l@],
        None => match a.channels {
            Some(n) => if n == 2 { seq!["stereo"@] } else { seq![dec(n as nat) + " ch"@] },
            None => Seq::empty(),
        },
    }
}

/// Sections of the audio line: label, sample rate, channels, bit rate.
pub open spec fn audio_parts(a: AudioStream, e: Option<Enrichment>) -> Seq<Seq<char>> {
    seq!["Audio: "@ + audio_label(a, e)]
        + opt_part(match a.sample_rate { Some(r) => Some(dec(r as nat) + " Hz"@), None => None })
        + channel_part(a, e)
        + opt_part(match a.bit_rate { Some(b) => Some(spec_format_kbps(b as nat)), None => None })
}

/// The audio line, unescaped, with the language as a trailing ` [xx]`.
pub open spec fn audio_text(a: AudioStream, e: Option<Enrichment>) -> Seq<char> {
    join(audio_parts(a, e), " | "@) + match enrich_language(e) {
        Some(l) => " ["@ + l@ + "]"@,
        None => Seq::empty(),
    }
}

/// The header lines, each drawtext-escaped: title, file, video, and audio when present.
pub open spec fn spec_header_lines(info: VideoInfo, display_filename: Seq<char>) -> Seq<Seq<char>> {
    seq![
        spec_escape_drawtext(title_text(info, display_filename)),
        spec_escape_drawtext(join(file_parts(info), " | "@)),
        spec_escape_drawtext(join(video_parts(info.video, info.enrichment), " | "@))
    ] + match info.audio {
        Some(a) => seq![spec_escape_drawtext(audio_text(a, info.enrichment))],
        None => Seq::empty(),
    }
}

fn push_profile_suffix(out: &mut String, p: &Option<String>)
    ensures
        final(out)@ == old(out)@ + profile_suffix(*p),
{
    match p {
        Some(p) => {
            out.append(" (");
            out.append(p.as_str());
            out.append(")");
        },
        None => {
            assert(old(out)@ + Seq::<char>::empty() =~= old(out)@);
        },
    }
}

fn file_line(info: &VideoInfo) -> (s: String)
    ensures
        s@ == join(file_parts(*info), " | "@),
{
    let mut parts: Vec<String> = Vec::new();
    if let Some(sz) = info.size_bytes {
        let mut p = String::from_str("Size: ");
        p.append(format_gib(sz).as_str());
        parts.push(p);
    }
    let mut d = String::from_str("Duration: ");
    d.append(format_hms_plain(info.duration_ms / 1000).as_str());
    parts.push(d);
    if let Some(br) = info.bit_rate {
        let mut p = String::from_str("Bitrate: ");
        p.append(format_mbps(br).as_str());
        parts.push(p);
    }
    assert(string_views(parts@) =~= file_parts(*info));
    join_strings(&parts, " | ")
}

fn video_line(v: &VideoStream, e: Option<&Enrichment>) -> (s: String)
    ensures
        s@ == join(video_parts(*v, match e { Some(x) => Some(*x), None => None }), " | "@),
{
    let ghost eo = match e { Some(x) => Some(*x), None => None::<Enrichment> };
    let mut parts: Vec<String> = Vec::new();
    let mut first = String::from_str("Video: ");
    first.append(v.codec.as_str());
    push_profile_suffix(&mut first, &v.profile);
    parts.push(first);
    let mut dims = String::new();
    push_dec(&mut dims, v.width as u64);
    dims.append("x");
    push_dec(&mut dims, v.height as u64);
    parts.push(dims);
    if let Some(en) = e {
        if let Some(bd) = en.video_bit_depth {
            let mut p = String::new();
            push_dec(&mut p, bd as u64);
            p.append("-bit");
            parts.push(p);
        }
        if let Some(h) = &en.video_hdr_format {
            parts.push(h.clone());
        }
    }
    if let Some(b) = v.bit_rate {
        parts.push(format_kbps(b));
    }
    let mut fps = String::new();
    push_fixed_point(&mut fps, v.fps_centi, 100, 2);
    fps.append(" fps");
    parts.push(fps);
    assert(string_views(parts@) =~= video_parts(*v, eo));
    join_strings(&parts, " | ")
}

fn audio_line(a: &AudioStream, e: Option<&Enrichment>) -> (s: String)
    ensures
        s@ == audio_text(*a, match e { Some(x) => Some(*x), None => None }),
{
    let ghost eo = match e { Some(x) => Some(*x), None => None::<Enrichment> };
    let mut label = String::from_str("Audio: ");
    let mut named = false;
    if let Some(en) = e {
        if let Some(n) = &en.audio_commercial_name {
            label.append(n.as_str());
            named = true;
        }
    }
    if !named {
        label.append(a.codec.as_str());
        push_profile_suffix(&mut label, &a.profile);
    }
    assert(label@ =~= "Audio: "@ + audio_label(*a, eo));
    let mut parts: Vec<String> = Vec::new();
    parts.push(label);
    if let Some(r) = a.sample_rate {
        let mut p = String::new();
        push_dec(&mut p, r as u64);
        p.append(" Hz");
        parts.push(p);
    }
    let mut have_layout = false;
    if let Some(en) = e {
        if let Some(l) = &en.audio_channel_layout {
            parts.push(l.clone());
            have_layout = true;
        }
    }
    if !have_layout {
        match a.channels {
            Some(n) => {
                if n == 2 {
                    parts.push(String::from_str("stereo"));
                } else {
                    let mut p = String::new();
                    push_dec(&mut p, n as u64);
                    p.append(" ch");
                    parts.push(p);
                }
            },
            None => {},
        }
    }
    if let Some(b) = a.bit_rate {
        parts.push(format_kbps(b));
    }
    assert(string_views(parts@) =~= audio_parts(*a, eo));
    let mut line = join_strings(&parts, " | ");
    if let Some(en) = e {
        if let Some(lang) = &en.audio_language {
            line.append(" [");
            line.append(lang.as_str());
            line.append("]");
        }
    }
    assert(line@ =~= audio_text(*a, eo));
    line
}

/// Builds the lines of a contact-sheet header, each fully drawtext-escaped:
/// 1. the MediaInfo title, or else `display_filename`;
/// 2. `Size | Duration | Bitrate`;
/// 3. `Video: codec (profile) | WxH | bit depth | HDR | bitrate | fps`;
/// 4. `Audio: codec (profile) | Hz | channels | bitrate [language]`, only when there is audio.
pub fn build_header_lines(info: &VideoInfo, display_filename: &str) -> (lines: Vec<String>)
    ensures
        string_views(lines@) == spec_header_lines(*info, display_filename@),
{
    let enrich = info.enrichment.as_ref();
    let mut lines: Vec<String> = Vec::new();
    let mut titled = false;
    if let Some(en) = enrich {
        if let Some(t) = &en.title {
            lines.push(escape_drawtext(t.as_str()));
            titled = true;
        }
    }
    if !titled {
        lines.push(escape_drawtext(display_filename));
    }
    lines.push(escape_drawtext(file_line(info).as_str()));
    lines.push(escape_drawtext(video_line(&info.video, enrich).as_str()));
    if let Some(a) = &info.audio {
        lines.push(escape_drawtext(audio_line(a, enrich).as_str()));
    }
    assert(string_views(lines@) =~= spec_header_lines(*info, display_filename@));
    lines
}

/// The header has a title, a file and a video line, plus an audio line exactly when the
/// file has audio; every line is drawtext-safe.
pub proof fn lemma_header_lines_shape(info: VideoInfo, display_filename: Seq<char>)
    ensures
        spec_header_lines(info, display_filename).len() == if info.audio is Some { 4int } else { 3int },
        forall|i: int| 0 <= i < spec_header_lines(info, display_filename).len()
            ==> crate::drawtext::is_drawtext_safe(#[trigger] spec_header_lines(info, display_filename)[i]),
{
    let lines = spec_header_lines(info, display_filename);
    crate::drawtext::lemma_escape_drawtext_safe(title_text(info, display_filename));
    crate::drawtext::lemma_escape_drawtext_safe(join(file_parts(info), " | "@));
    crate::drawtext::lemma_escape_drawtext_safe(join(video_parts(info.video, info.enrichment), " | "@));
    if let Some(a) = info.audio {
        crate::drawtext::lemma_escape_drawtext_safe(audio_text(a, info.enrichment));
    }
}

} // verus!
