//! Output formats, sheet themes, and the names of the files a run writes.

use vstd::prelude::*;
use crate::text::{dec_padded, push_dec, push_dec_padded, num_digits, dec, lemma_dec_len};

verus! {

/// Still-image output format.
#[derive(Debug, Clone, Copy, PartialEq, Eq, Structural)]
pub enum OutputFormat {
    Png,
    Jpeg,
}

/// File extension of a still-image format.
pub open spec fn spec_image_ext(f: OutputFormat) -> Seq<char> {
    match f {
        OutputFormat::Png => "png"@,
        OutputFormat::Jpeg => "jpg"@,
    }
}

impl OutputFormat {
    /// The file extension: `png` or `jpg`.
    pub fn ext(self) -> (e: &'static str)
        ensures
            e@ == spec_image_ext(self),
    {
        match self {
            OutputFormat::Png => "png",
            OutputFormat::Jpeg => "jpg",
        }
    }
}

/// Animated preview-reel container format.
#[derive(Debug, Clone, Copy, PartialEq, Eq, Structural)]
pub enum ReelFormat {
    Webp,
    Webm,
    Gif,
}

/// File extension of a reel format.
pub open spec fn spec_reel_ext(f: ReelFormat) -> Seq<char> {
    match f {
        ReelFormat::Webp => "webp"@,
        ReelFormat::Webm => "webm"@,
        ReelFormat::Gif => "gif"@,
    }
}

impl ReelFormat {
    /// The file extension: `webp`, `webm` or `gif`.
    pub fn ext(self) -> (e: &'static str)
        ensures
            e@ == spec_reel_ext(self),
    {
        match self {
            ReelFormat::Webp => "webp",
            ReelFormat::Webm => "webm",
            ReelFormat::Gif => "gif",
        }
    }
}

/// Colour theme of a sheet: background and text colours.
#[derive(Debug, Clone, Copy, PartialEq, Eq, Structural)]
pub enum SheetTheme {
    Dark,
    Light,
}

impl SheetTheme {
    /// Background colour: black for the dark theme, white for the light one.
    pub fn bg(self) -> (c: &'static str)
        ensures
            c@ == match self { SheetTheme::Dark => "0x000000"@, SheetTheme::Light => "0xFFFFFF"@ },
    {
        match self {
            SheetTheme::Dark => "0x000000",
            SheetTheme::Light => "0xFFFFFF",
        }
    }

    /// Text colour: white on the dark theme, black on the light one.
    pub fn fontcolor(self) -> (c: &'static str)
        ensures
            c@ == match self { SheetTheme::Dark => "white"@, SheetTheme::Light => "black"@ },
    {
        match self {
            SheetTheme::Dark => "white",
            SheetTheme::Light => "black",
        }
    }

    /// Shadow colour, the inverse of the text colour.
    pub fn shadowcolor(self) -> (c: &'static str)
        ensures
            c@ == match self { SheetTheme::Dark => "black"@, SheetTheme::Light => "white"@ },
    {
        match self {
            SheetTheme::Dark => "black",
            SheetTheme::Light => "white",
        }
    }
}

/// Default filename suffix of a contact sheet.
pub const DEFAULT_SHEET_SUFFIX: &'static str = "_sheet";
/// Default filename infix of screenshots, between the stem and the index.
pub const DEFAULT_SHOTS_SUFFIX: &'static str = "_screens_";
/// Default filename suffix of a preview reel.
pub const DEFAULT_PREVIEW_SUFFIX: &'static str = "_reel";
/// Default filename suffix of an animated sheet.
pub const DEFAULT_ANIMATED_SUFFIX: &'static str = "_animated_sheet";

/// A suffix, or `default` when it is empty.
pub open spec fn spec_resolved(suffix: Seq<char>, default: Seq<char>) -> Seq<char> {
    if suffix.len() == 0 { default } else { suffix }
}

/// The file name `<stem><suffix><attempt>.<ext>`, where an attempt `n > 0` appears as ` (n)`.
pub open spec fn spec_numbered_name(stem: Seq<char>, suffix: Seq<char>, attempt: nat, ext: Seq<char>) -> Seq<char> {
    stem + suffix + (if attempt == 0 { Seq::empty() } else { " ("@ + dec(attempt) + ")"@ }) + "."@ + ext
}

/// Name of the `attempt`-th candidate output file for `stem`: the first candidate is
/// `<stem><suffix>.<ext>`, later ones `<stem><suffix> (n).<ext>`; an empty suffix stands
/// for `default_suffix`.
pub fn candidate_name(stem: &str, suffix: &str, default_suffix: &str, attempt: u32, ext: &str) -> (s: String)
    ensures
        s@ == spec_numbered_name(stem@, spec_resolved(suffix@, default_suffix@), attempt as nat, ext@),
{
    let mut s = String::from_str(stem);
    if suffix.unicode_len() == 0 {
        s.append(default_suffix);
    } else {
        s.append(suffix);
    }
    let ghost mid = s@;
    if attempt > 0 {
        s.append(" (");
        push_dec(&mut s, attempt as u64);
        s.append(")");
    }
    s.append(".");
    s.append(ext);
    proof {
        if attempt == 0 {
            assert(s@ =~= mid + Seq::<char>::empty() + "."@ + ext@);
        }
    }
    assert(s@ =~= spec_numbered_name(stem@, spec_resolved(suffix@, default_suffix@), attempt as nat, ext@));
    s
}

/// One step of the search for a free output name, after trying one attempt.
#[derive(Debug, Clone, Copy, PartialEq, Eq, Structural)]
pub enum NameStep {
    /// The name of this attempt is free: use it.
    Use,
    /// The name is taken: try this attempt next.
    Next(u32),
    /// The name is taken and no attempt is left to number.
    Exhausted,
}

/// Decides the search for a free output name: an attempt whose name is free is used;
/// a taken one moves on to the next number. Started at attempt 0, the search therefore
/// stops at the first free name among `<stem><suffix>.<ext>`, ` (1)`, ` (2)`, ...
pub fn name_step(attempt: u32, taken: bool) -> (step: NameStep)
    ensures
        !taken ==> step == NameStep::Use,
        taken && attempt < u32::MAX ==> step == NameStep::Next((attempt + 1) as u32),
        taken && attempt == u32::MAX ==> step == NameStep::Exhausted,
{
    if !taken {
        NameStep::Use
    } else if attempt < u32::MAX {
        NameStep::Next(attempt + 1)
    } else {
        NameStep::Exhausted
    }
}

/// Where the search that follows [`name_step`] from attempt `a` stops, when `taken(k)`
/// tells whether the name of attempt `k` exists.
pub open spec fn search_from(taken: spec_fn(nat) -> bool, a: nat) -> Option<nat>
    decreases u32::MAX - a,
{
    if !taken(a) {
        Some(a)
    } else if a < u32::MAX {
        search_from(taken, a + 1)
    } else {
        None
    }
}

/// The search stops at the first free attempt: every attempt before it is taken.
pub proof fn lemma_search_stops_at_first_free(taken: spec_fn(nat) -> bool, start: nat, a: nat)
    requires
        search_from(taken, start) == Some(a),
    ensures
        start <= a,
        !taken(a),
        forall|k: nat| start <= k < a ==> #[trigger] taken(k),
    decreases u32::MAX - start,
{
    if taken(start) {
        if start < u32::MAX {
            lemma_search_stops_at_first_free(taken, start + 1, a);
        }
    }
}

/// Zero-padding width for indices up to `count`: its digit count, at least two.
pub open spec fn index_width(count: nat) -> nat {
    if num_digits(count) < 2 { 2 } else { num_digits(count) }
}

/// The file name `<stem><suffix><index>.<ext>` of a screenshot, the index zero-padded to
/// the digit count of `count` (at least two digits); an empty suffix stands for the
/// default screenshot infix.
pub open spec fn spec_screenshot_name(stem: Seq<char>, suffix: Seq<char>, index: nat, count: nat, ext: Seq<char>) -> Seq<char> {
    stem + spec_resolved(suffix, DEFAULT_SHOTS_SUFFIX@) + dec_padded(index, index_width(count)) + "."@ + ext
}

/// Name of the `index`-th of `count` screenshots of `stem`.
pub fn screenshot_name(stem: &str, suffix: &str, index: u32, count: u32, fmt: OutputFormat) -> (s: String)
    ensures
        s@ == spec_screenshot_name(stem@, suffix@, index as nat, count as nat, spec_image_ext(fmt)),
{
    let width = crate::layout::pad_width_for_count(count);
    let mut s = String::from_str(stem);
    if suffix.unicode_len() == 0 {
        s.append(DEFAULT_SHOTS_SUFFIX);
    } else {
        s.append(suffix);
    }
    push_dec_padded(&mut s, index as u64, width);
    s.append(".");
    s.append(fmt.ext());
    assert(s@ =~= spec_screenshot_name(stem@, suffix@, index as nat, count as nat, spec_image_ext(fmt)));
    s
}

/// The VP9 constant-rate factor (0 best, 63 worst) for a 0–100 encoder quality (higher is
/// better): the quality, capped at 100, mapped linearly and inversely onto 63–0, rounded
/// down.
pub open spec fn spec_vp9_crf(quality: nat) -> nat {
    let q = if quality > 100 { 100 } else { quality };
    ((100 - q) * 63 / 100) as nat
}

/// Maps a reel quality onto the VP9 CRF scale.
pub fn vp9_crf(quality: u32) -> (crf: u32)
    ensures
        crf == spec_vp9_crf(quality as nat),
        crf <= 63,
{
    let q: u32 = if quality > 100 { 100 } else { quality };
    (100 - q) * 63 / 100
}

/// The mjpeg `-q:v` scale value (2 best, 31 worst) for a JPEG quality: the quality,
/// clamped to 50–100, mapped linearly and inversely onto 31–2, rounded down.
pub open spec fn spec_jpeg_qv(quality: nat) -> nat {
    let q = if quality > 100 { 100 } else if quality < 50 { 50 } else { quality };
    (2 + (100 - q) * 29 / 50) as nat
}

/// Maps a JPEG quality onto ffmpeg's `-q:v` scale.
pub fn jpeg_qv(quality: u32) -> (qv: u32)
    ensures
        qv == spec_jpeg_qv(quality as nat),
        2 <= qv <= 31,
{
    let q: u32 = if quality > 100 { 100 } else if quality < 50 { 50 } else { quality };
    2 + (100 - q) * 29 / 50
}

proof fn lemma_digit_value(d: nat)
    requires
        d < 10,
    ensures
        ((crate::text::digit_char(d) as u32) - ('0' as u32)) as nat == d,
{
    if d == 0 {} else if d == 1 {} else if d == 2 {} else if d == 3 {} else if d == 4 {}
    else if d == 5 {} else if d == 6 {} else if d == 7 {} else if d == 8 {} else {}
}

proof fn lemma_dec_value(n: nat)
    ensures
        crate::chars::digits_value(dec(n)) == n,
    decreases n,
{
    let d = n % 10;
    lemma_digit_value(d);
    if n >= 10 {
        lemma_dec_value(n / 10);
        let s = dec(n);
        assert(s == dec(n / 10).push(crate::text::digit_char(d)));
        assert(s.drop_last() =~= dec(n / 10));
        assert(s.last() == crate::text::digit_char(d));
    } else {
        lemma_digit_value(n);
        let s = dec(n);
        assert(s == seq![crate::text::digit_char(n)]);
        assert(s.drop_last() =~= Seq::<char>::empty());
        assert(crate::chars::digits_value(Seq::<char>::empty()) == 0);
    }
}

proof fn lemma_dec_injective(a: nat, b: nat)
    requires
        dec(a) == dec(b),
    ensures
        a == b,
{
    lemma_dec_value(a);
    lemma_dec_value(b);
}

/// Different attempts give different candidate names, so the search for a free output
/// name tries a new name at every step.
pub proof fn lemma_candidate_names_distinct(stem: Seq<char>, suffix: Seq<char>, a: nat, b: nat, ext: Seq<char>)
    requires
        a != b,
    ensures
        spec_numbered_name(stem, suffix, a, ext) != spec_numbered_name(stem, suffix, b, ext),
{
    let p = stem + suffix;
    let xa: Seq<char> = if a == 0 { Seq::empty() } else { " ("@ + dec(a) + ")"@ };
    let xb: Seq<char> = if b == 0 { Seq::empty() } else { " ("@ + dec(b) + ")"@ };
    let tail = "."@ + ext;
    let na = spec_numbered_name(stem, suffix, a, ext);
    let nb = spec_numbered_name(stem, suffix, b, ext);
    assert(na =~= p + xa + tail);
    assert(nb =~= p + xb + tail);
    reveal_strlit(" (");
    reveal_strlit(")");
    lemma_dec_len(a);
    lemma_dec_len(b);
    if na == nb {
        assert(xa.len() == xb.len());
        assert(xa =~= na.subrange(p.len() as int, (p.len() + xa.len()) as int));
        assert(xb =~= nb.subrange(p.len() as int, (p.len() + xb.len()) as int));
        assert(xa == xb);
        if a != 0 && b != 0 {
            assert(dec(a) =~= xa.subrange(2, xa.len() - 1));
            assert(dec(b) =~= xb.subrange(2, xb.len() - 1));
            lemma_dec_injective(a, b);
        }
    }
}

proof fn lemma_zeros_value(k: nat)
    ensures
        crate::chars::digits_value(Seq::new(k, |_i: int| '0')) == 0,
    decreases k,
{
    if k > 0 {
        lemma_zeros_value((k - 1) as nat);
        assert(Seq::new(k, |_i: int| '0').drop_last() =~= Seq::new((k - 1) as nat, |_i: int| '0'));
    }
}

proof fn lemma_leading_zeros_value(k: nat, s: Seq<char>)
    ensures
        crate::chars::digits_value(Seq::new(k, |_i: int| '0') + s) == crate::chars::digits_value(s),
    decreases s.len(),
{
    let z = Seq::new(k, |_i: int| '0');
    if s.len() == 0 {
        assert(z + s =~= z);
        lemma_zeros_value(k);
    } else {
        lemma_leading_zeros_value(k, s.drop_last());
        assert((z + s).drop_last() =~= z + s.drop_last());
        assert((z + s).last() == s.last());
    }
}

proof fn lemma_dec_padded_value(n: nat, width: nat)
    ensures
        crate::chars::digits_value(dec_padded(n, width)) == n,
{
    lemma_dec_value(n);
    let d = dec(n);
    if d.len() < width {
        lemma_leading_zeros_value((width - d.len()) as nat, d);
    }
}

/// Different indices give different screenshot names, so the screenshots of one source
/// never overwrite each other.
pub proof fn lemma_screenshot_names_distinct(stem: Seq<char>, suffix: Seq<char>, a: nat, b: nat, count: nat, ext: Seq<char>)
    requires
        a != b,
    ensures
        spec_screenshot_name(stem, suffix, a, count, ext) != spec_screenshot_name(stem, suffix, b, count, ext),
{
    let p = stem + spec_resolved(suffix, DEFAULT_SHOTS_SUFFIX@);
    let w = index_width(count);
    let da = dec_padded(a, w);
    let db = dec_padded(b, w);
    let na = spec_screenshot_name(stem, suffix, a, count, ext);
    let nb = spec_screenshot_name(stem, suffix, b, count, ext);
    assert(na =~= p + da + ("."@ + ext));
    assert(nb =~= p + db + ("."@ + ext));
    if na == nb {
        assert(da.len() == db.len());
        assert(da =~= na.subrange(p.len() as int, (p.len() + da.len()) as int));
        assert(db =~= nb.subrange(p.len() as int, (p.len() + db.len()) as int));
        lemma_dec_padded_value(a, w);
        lemma_dec_padded_value(b, w);
    }
}

} // verus!
