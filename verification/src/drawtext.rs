//! Text for ffmpeg's `drawtext` filter: escaping, timestamps, font paths and the
//! overlay filter nodes themselves.

use vstd::prelude::*;
use crate::text::{dec, dec_padded, join, push_dec, push_dec_padded};

verus! {

/// Characters that `escape_drawtext` prefixes with a backslash.
pub open spec fn is_backslash_escaped(c: char) -> bool {
    c == '\\' || c == ':' || c == '\'' || c == ',' || c == '[' || c == ']' || c == ';'
}

/// The escaped form of one character.
pub open spec fn escape_char(c: char) -> Seq<char> {
    if is_backslash_escaped(c) {
        seq!['\\', c]
    } else if c == '%' {
        seq!['%', '%']
    } else {
        seq![c]
    }
}

/// Every character of `s` replaced by its escaped form.
pub open spec fn spec_escape_drawtext(s: Seq<char>) -> Seq<char>
    decreases s.len(),
{
    if s.len() == 0 {
        Seq::empty()
    } else {
        spec_escape_drawtext(s.drop_last()) + escape_char(s.last())
    }
}

/// Escapes a string so it can appear inside a drawtext `text='...'` argument: backslash,
/// colon, single quote and the filter-graph separators `,` `[` `]` `;` get a backslash in
/// front, and `%` is doubled.
pub fn escape_drawtext(s: &str) -> (out: String)
    ensures
        out@ == spec_escape_drawtext(s@),
{
    let mut out = String::new();
    let n = s.unicode_len();
    let mut i: usize = 0;
    while i < n
        invariant
            n == s@.len(),
            i <= n,
            out@ == spec_escape_drawtext(s@.take(i as int)),
        decreases n - i,
    {
        let ch = s.get_char(i);
        if ch == '\\' || ch == ':' || ch == '\'' || ch == ',' || ch == '[' || ch == ']' || ch == ';' {
            out.push('\\');
            out.push(ch);
        } else if ch == '%' {
            out.push('%');
            out.push('%');
        } else {
            out.push(ch);
        }
        proof {
            assert(s@.take(i + 1).drop_last() =~= s@.take(i as int));
            assert(out@ =~= spec_escape_drawtext(s@.take(i + 1)));
        }
        i = i + 1;
    }
    assert(s@.take(n as int) =~= s@);
    out
}

/// `HH:MM:SS` for a whole number of seconds, each field zero-padded to two digits (the
/// hours grow beyond two digits when needed).
pub open spec fn spec_hms(total: nat, sep: Seq<char>) -> Seq<char> {
    dec_padded(total / 3600, 2) + sep + dec_padded((total % 3600) / 60, 2) + sep + dec_padded(total % 60, 2)
}

fn push_hms(out: &mut String, total: u64, escaped: bool)
    ensures
        final(out)@ == old(out)@ + spec_hms(total as nat, if escaped { seq!['\\', ':'] } else { seq![':'] }),
{
    let ghost start = out@;
    push_dec_padded(out, total / 3600, 2);
    if escaped {
        out.push('\\');
    }
    out.push(':');
    push_dec_padded(out, (total % 3600) / 60, 2);
    if escaped {
        out.push('\\');
    }
    out.push(':');
    push_dec_padded(out, total % 60, 2);
    assert(out@ =~= start + spec_hms(total as nat, if escaped { seq!['\\', ':'] } else { seq![':'] }));
}

/// Formats a duration of `total_secs` whole seconds as `HH:MM:SS`.
pub fn format_hms_plain(total_secs: u64) -> (s: String)
    ensures
        s@ == spec_hms(total_secs as nat, seq![':']),
{
    let mut s = String::new();
    push_hms(&mut s, total_secs, false);
    assert(s@ =~= spec_hms(total_secs as nat, seq![':']));
    s
}

/// Formats a duration of `total_secs` whole seconds as `HH\:MM\:SS`, escaped for a
/// drawtext `text='...'` argument.
pub fn format_hms_escaped(total_secs: u64) -> (s: String)
    ensures
        s@ == spec_hms(total_secs as nat, seq!['\\', ':']),
{
    let mut s = String::new();
    push_hms(&mut s, total_secs, true);
    assert(s@ =~= spec_hms(total_secs as nat, seq!['\\', ':']));
    s
}

/// Whether `s` starts with the `\\?\` extended-length prefix followed by a drive letter
/// and its colon (`\\?\C:...`).
pub open spec fn has_extended_drive_prefix(s: Seq<char>) -> bool {
    &&& s.len() >= 6
    &&& s[0] == '\\'
    &&& s[1] == '\\'
    &&& s[2] == '?'
    &&& s[3] == '\\'
    &&& (s[4] as u32) < 128
    &&& s[5] == ':'
}

/// Backslashes turned into forward slashes.
pub open spec fn forward_slashes(s: Seq<char>) -> Seq<char> {
    s.map_values(|c: char| if c == '\\' { '/' } else { c })
}

/// The first colon of `s`, if any, preceded by a backslash.
pub open spec fn escape_first_colon(s: Seq<char>) -> Seq<char>
    decreases s.len(),
{
    if s.len() == 0 {
        Seq::empty()
    } else if s[0] == ':' {
        seq!['\\', ':'] + s.skip(1)
    } else {
        seq![s[0]] + escape_first_colon(s.skip(1))
    }
}

/// What `normalise_win_font_path` computes.
pub open spec fn spec_normalise_win_font_path(s: Seq<char>) -> Seq<char> {
    let stripped = if has_extended_drive_prefix(s) { s.skip(4) } else { s };
    escape_first_colon(forward_slashes(stripped))
}

proof fn lemma_escape_first_colon_no_colon(s: Seq<char>)
    requires
        forall|j: int| 0 <= j < s.len() ==> s[j] != ':',
    ensures
        escape_first_colon(s) == s,
    decreases s.len(),
{
    if s.len() > 0 {
        lemma_escape_first_colon_no_colon(s.skip(1));
        assert(seq![s[0]] + s.skip(1) =~= s);
    }
}

proof fn lemma_escape_first_colon_split(s: Seq<char>, k: int)
    requires
        0 <= k <= s.len(),
        forall|j: int| 0 <= j < k ==> s[j] != ':',
    ensures
        escape_first_colon(s) == s.take(k) + escape_first_colon(s.skip(k)),
    decreases k,
{
    if k > 0 {
        lemma_escape_first_colon_split(s.skip(1), k - 1);
        assert(s.skip(1).skip(k - 1) =~= s.skip(k));
        assert(seq![s[0]] + s.skip(1).take(k - 1) =~= s.take(k));
        assert(s[0] != ':');
        assert(escape_first_colon(s) == seq![s[0]] + escape_first_colon(s.skip(1)));
        assert(seq![s[0]] + (s.skip(1).take(k - 1) + escape_first_colon(s.skip(k)))
            =~= s.take(k) + escape_first_colon(s.skip(k)));
    } else {
        assert(s.skip(0) =~= s);
        assert(s.take(0) + escape_first_colon(s) =~= escape_first_colon(s));
    }
}

/// Normalises a Windows-style path for an ffmpeg `fontfile=` value: strips the `\\?\`
/// extended-length prefix when a drive letter follows it, turns backslashes into forward
/// slashes, and escapes the first (drive-letter) colon.
pub fn normalise_win_font_path(s: String) -> (out: String)
    ensures
        out@ == spec_normalise_win_font_path(s@),
{
    let n = s.unicode_len();
    let strip = n >= 6 && s.get_char(0) == '\\' && s.get_char(1) == '\\' && s.get_char(2) == '?'
        && s.get_char(3) == '\\' && (s.get_char(4) as u32) < 128 && s.get_char(5) == ':';
    let start: usize = if strip { 4 } else { 0 };
    let ghost stripped = s@.skip(start as int);
    let ghost slashed = forward_slashes(stripped);
    assert(stripped == if has_extended_drive_prefix(s@) { s@.skip(4) } else { s@ }) by {
        assert(s@.skip(0) =~= s@);
    }
    let mut out = String::new();
    let mut seen_colon = false;
    let mut i: usize = start;
    while i < n
        invariant
            n == s@.len(),
            start <= i <= n,
            stripped == s@.skip(start as int),
            slashed == forward_slashes(stripped),
            !seen_colon ==> out@ == slashed.take(i - start),
            !seen_colon ==> forall|j: int| 0 <= j < i - start ==> slashed[j] != ':',
            seen_colon ==> out@ + slashed.skip(i - start) == escape_first_colon(slashed),
        decreases n - i,
    {
        let ch = s.get_char(i);
        let mapped = if ch == '\\' { '/' } else { ch };
        let ghost k: int = i - start;
        let ghost before = out@;
        assert(slashed[k] == mapped);
        if !seen_colon && mapped == ':' {
            out.push('\\');
            out.push(':');
            seen_colon = true;
            proof {
                lemma_escape_first_colon_split(slashed, k);
                assert(slashed.skip(k)[0] == ':');
                assert(slashed.skip(k).skip(1) =~= slashed.skip(k + 1));
                assert(out@ + slashed.skip(k + 1) =~= escape_first_colon(slashed));
            }
        } else {
            out.push(mapped);
            proof {
                if seen_colon {
                    assert(slashed.skip(k) =~= seq![mapped] + slashed.skip(k + 1));
                    assert(out@ + slashed.skip(k + 1) =~= before + slashed.skip(k));
                } else {
                    assert(out@ =~= slashed.take(k + 1));
                }
            }
        }
        i = i + 1;
    }
    proof {
        if !seen_colon {
            assert(slashed.take(n - start) =~= slashed);
            lemma_escape_first_colon_no_colon(slashed);
        } else {
            assert(slashed.skip(n - start) =~= Seq::<char>::empty());
            assert(out@ + slashed.skip(n - start) =~= out@);
        }
    }
    out
}


/// Renders a filesystem path for use as drawtext `fontfile=`. On Windows (`windows`) the
/// path is normalised as [`normalise_win_font_path`] does, so that the drive-letter colon
/// is not read as an option separator; elsewhere it is used as is.
pub fn font_for_ffmpeg(path: &str, windows: bool) -> (s: String)
    ensures
        s@ == if windows { spec_normalise_win_font_path(path@) } else { path@ },
{
    let owned = String::from_str(path);
    if windows {
        normalise_win_font_path(owned)
    } else {
        owned
    }
}

/// What `timestamp_overlay` returns.
pub open spec fn spec_timestamp_overlay(
    hms_escaped: Seq<char>,
    font_ffmpeg: Seq<char>,
    font_size: u32,
    fontcolor: Seq<char>,
    shadowcolor: Seq<char>,
) -> Seq<char> {
    "drawtext=text='"@ + hms_escaped + "':fontfile='"@ + font_ffmpeg + "':fontsize="@
        + dec(font_size as nat) + ":fontcolor="@ + fontcolor + ":shadowcolor="@ + shadowcolor
        + ":shadowx=1:shadowy=1:x=5:y=h-th-5"@
}

/// Per-cell timestamp overlay for contact-sheet thumbnails, stamped at the bottom left
/// with a one-pixel shadow.
pub fn timestamp_overlay(
    hms_escaped: &str,
    font_ffmpeg: &str,
    font_size: u32,
    fontcolor: &str,
    shadowcolor: &str,
) -> (s: String)
    ensures
        s@ == spec_timestamp_overlay(hms_escaped@, font_ffmpeg@, font_size, fontcolor@, shadowcolor@),
{
    let mut s = String::new();
    s.append("drawtext=text='");
    s.append(hms_escaped);
    s.append("':fontfile='");
    s.append(font_ffmpeg);
    s.append("':fontsize=");
    push_dec(&mut s, font_size as u64);
    s.append(":fontcolor=");
    s.append(fontcolor);
    s.append(":shadowcolor=");
    s.append(shadowcolor);
    s.append(":shadowx=1:shadowy=1:x=5:y=h-th-5");
    assert(s@ =~= spec_timestamp_overlay(hms_escaped@, font_ffmpeg@, font_size, fontcolor@, shadowcolor@));
    s
}

/// One `drawtext=` node of the header, drawing `line` at `(gap, y)`.
pub open spec fn header_node(
    line: Seq<char>,
    font_ffmpeg: Seq<char>,
    font_size: u32,
    fontcolor: Seq<char>,
    gap: nat,
    y: nat,
) -> Seq<char> {
    "drawtext=text='"@ + line + "':fontfile='"@ + font_ffmpeg + "':fontsize="@ + dec(font_size as nat)
        + ":fontcolor="@ + fontcolor + ":x="@ + dec(gap) + ":y="@ + dec(y)
}

/// The header nodes, line `i` at height `gap + i * line_h`.
pub open spec fn header_nodes(
    lines: Seq<Seq<char>>,
    font_ffmpeg: Seq<char>,
    font_size: u32,
    fontcolor: Seq<char>,
    gap: nat,
    line_h: nat,
) -> Seq<Seq<char>> {
    Seq::new(lines.len(), |i: int| header_node(lines[i], font_ffmpeg, font_size, fontcolor, gap, (gap + i * line_h) as nat))
}

/// What `header_overlay` returns: the header nodes joined by commas.
pub open spec fn spec_header_overlay(
    lines: Seq<Seq<char>>,
    font_ffmpeg: Seq<char>,
    font_size: u32,
    fontcolor: Seq<char>,
    gap: nat,
    line_h: nat,
) -> Seq<char> {
    join(header_nodes(lines, font_ffmpeg, font_size, fontcolor, gap, line_h), seq![','])
}

/// The views of a list of strings.
pub open spec fn views(v: Seq<String>) -> Seq<Seq<char>> {
    v.map_values(|s: String| s@)
}

/// Multi-line header drawtext chain: one `drawtext=` node per line, joined by commas,
/// lines stacked top to bottom at `x=gap`, starting at `y=gap` and advancing by `line_h`.
pub fn header_overlay(
    lines_escaped: &[String],
    font_ffmpeg: &str,
    font_size: u32,
    fontcolor: &str,
    gap: u32,
    line_h: u32,
) -> (s: String)
    requires
        lines_escaped@.len() <= u32::MAX,
        lines_escaped@.len() > 0 ==> gap + (lines_escaped@.len() - 1) * line_h <= u32::MAX,
    ensures
        s@ == spec_header_overlay(views(lines_escaped@), font_ffmpeg@, font_size, fontcolor@, gap as nat, line_h as nat),
{
    let ghost nodes = header_nodes(views(lines_escaped@), font_ffmpeg@, font_size, fontcolor@, gap as nat, line_h as nat);
    let mut s = String::new();
    let n = lines_escaped.len();
    let mut i: usize = 0;
    while i < n
        invariant
            n == lines_escaped@.len(),
            n <= u32::MAX,
            i <= n,
            n > 0 ==> gap + (n - 1) * line_h <= u32::MAX,
            nodes == header_nodes(views(lines_escaped@), font_ffmpeg@, font_size, fontcolor@, gap as nat, line_h as nat),
            s@ == join(nodes.take(i as int), seq![',']),
        decreases n - i,
    {
        assert(i * line_h <= (n - 1) * line_h) by (nonlinear_arith)
            requires
                i < n;
        let y = gap + (i as u32) * line_h;
        let ghost before = s@;
        if i > 0 {
            s.push(',');
        }
        s.append("drawtext=text='");
        s.append(lines_escaped[i].as_str());
        s.append("':fontfile='");
        s.append(font_ffmpeg);
        s.append("':fontsize=");
        push_dec(&mut s, font_size as u64);
        s.append(":fontcolor=");
        s.append(fontcolor);
        s.append(":x=");
        push_dec(&mut s, gap as u64);
        s.append(":y=");
        push_dec(&mut s, y as u64);
        proof {
            let node = header_node(lines_escaped@[i as int]@, font_ffmpeg@, font_size, fontcolor@, gap as nat, y as nat);
            assert(views(lines_escaped@)[i as int] == lines_escaped@[i as int]@);
            assert(nodes[i as int] == node);
            if i == 0 {
                assert(s@ =~= node);
                assert(nodes.take(1).drop_last() =~= nodes.take(0));
            } else {
                assert(s@ =~= before + seq![','] + node);
                assert(nodes.take(i + 1).drop_last() =~= nodes.take(i as int));
            }
        }
        i = i + 1;
    }
    assert(nodes.take(n as int) =~= nodes);
    s
}

/// Reads escaped drawtext text back: a backslash takes the next character literally and
/// `%%` stands for `%`.
pub open spec fn unescape_drawtext(t: Seq<char>) -> Seq<char>
    decreases t.len(),
{
    if t.len() == 0 {
        Seq::empty()
    } else if t[0] == '\\' && t.len() >= 2 {
        seq![t[1]] + unescape_drawtext(t.skip(2))
    } else if t[0] == '%' && t.len() >= 2 && t[1] == '%' {
        seq!['%'] + unescape_drawtext(t.skip(2))
    } else {
        seq![t[0]] + unescape_drawtext(t.skip(1))
    }
}

/// Whether `t`, read from left to right, holds backslashes, colons, quotes, `,` `[` `]`
/// `;` only as escaped pairs (a backslash followed by one of them) and `%` only doubled.
pub open spec fn is_drawtext_safe(t: Seq<char>) -> bool
    decreases t.len(),
{
    if t.len() == 0 {
        true
    } else if t[0] == '\\' {
        t.len() >= 2 && is_backslash_escaped(t[1]) && is_drawtext_safe(t.skip(2))
    } else if t[0] == '%' {
        t.len() >= 2 && t[1] == '%' && is_drawtext_safe(t.skip(2))
    } else {
        !is_backslash_escaped(t[0]) && is_drawtext_safe(t.skip(1))
    }
}

proof fn lemma_escape_concat(a: Seq<char>, b: Seq<char>)
    ensures
        spec_escape_drawtext(a + b) == spec_escape_drawtext(a) + spec_escape_drawtext(b),
    decreases b.len(),
{
    if b.len() == 0 {
        assert(a + b =~= a);
        assert(spec_escape_drawtext(a) + spec_escape_drawtext(b) =~= spec_escape_drawtext(a));
    } else {
        lemma_escape_concat(a, b.drop_last());
        assert((a + b).drop_last() =~= a + b.drop_last());
        assert((a + b).last() == b.last());
        assert(spec_escape_drawtext(a) + spec_escape_drawtext(b.drop_last()) + escape_char(b.last())
            =~= spec_escape_drawtext(a) + spec_escape_drawtext(b));
    }
}

proof fn lemma_escape_front(s: Seq<char>)
    requires
        s.len() > 0,
    ensures
        spec_escape_drawtext(s) == escape_char(s[0]) + spec_escape_drawtext(s.skip(1)),
{
    lemma_escape_concat(seq![s[0]], s.skip(1));
    assert(seq![s[0]] + s.skip(1) =~= s);
    assert(seq![s[0]].drop_last() =~= Seq::<char>::empty());
    assert(spec_escape_drawtext(Seq::<char>::empty()) + escape_char(s[0]) =~= escape_char(s[0]));
}

/// Escaping loses nothing: reading the escaped text back gives back the unescaped string.
pub proof fn lemma_escape_drawtext_roundtrip(s: Seq<char>)
    ensures
        unescape_drawtext(spec_escape_drawtext(s)) == s,
    decreases s.len(),
{
    if s.len() > 0 {
        lemma_escape_front(s);
        lemma_escape_drawtext_roundtrip(s.skip(1));
        let c = s[0];
        let rest = spec_escape_drawtext(s.skip(1));
        let t = escape_char(c) + rest;
        if is_backslash_escaped(c) {
            assert(t.skip(2) =~= rest);
        } else if c == '%' {
            assert(t.skip(2) =~= rest);
        } else {
            assert(t.skip(1) =~= rest);
        }
        assert(seq![c] + s.skip(1) =~= s);
    }
}

/// Escaped text cannot break out of a quoted drawtext argument: every backslash, colon,
/// quote and filter-graph separator in it is part of an escape pair and every `%` is doubled.
pub proof fn lemma_escape_drawtext_safe(s: Seq<char>)
    ensures
        is_drawtext_safe(spec_escape_drawtext(s)),
    decreases s.len(),
{
    if s.len() > 0 {
        lemma_escape_front(s);
        lemma_escape_drawtext_safe(s.skip(1));
        let c = s[0];
        let rest = spec_escape_drawtext(s.skip(1));
        let t = escape_char(c) + rest;
        if is_backslash_escaped(c) || c == '%' {
            assert(t.skip(2) =~= rest);
        } else {
            assert(t.skip(1) =~= rest);
        }
    }
}

} // verus!
