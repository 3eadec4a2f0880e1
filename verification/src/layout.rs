//! Grid geometry for contact sheets and animated sheets.

use vstd::prelude::*;
use crate::text::{dec, join, num_digits, push_dec, lemma_dec_len, lemma_num_digits_bound};

verus! {

/// Geometry of a thumbnail grid.
#[derive(Debug, Clone, Copy, PartialEq, Eq, Structural)]
pub struct SheetLayout {
    pub cols: u32,
    pub rows: u32,
    pub total: u32,
    pub thumb_w: u32,
    pub grid_w: u32,
    /// Even-rounded gap, so that `gap / 2` pads both sides of a cell equally.
    pub gap: u32,
}

/// `x` rounded down to an even number.
pub open spec fn even_floor(x: int) -> int {
    x - x % 2
}

/// Horizontal padding of a grid: one gap left of every column plus one at the right edge.
pub open spec fn grid_padding(cols: int, gap: int) -> int {
    even_floor(gap) * (cols + 1)
}

/// Thumbnail width that fits `cols` columns into `width` pixels after padding.
pub open spec fn spec_thumb_w(cols: int, width: int, gap: int) -> int {
    let padding = grid_padding(cols, gap);
    let avail = if width > padding { width - padding } else { 0 };
    even_floor(avail / cols)
}

/// What `compute_sheet_layout` computes.
pub open spec fn spec_sheet_layout(cols: u32, rows: u32, width: u32, gap: u32) -> SheetLayout {
    let thumb_w = spec_thumb_w(cols as int, width as int, gap as int);
    SheetLayout {
        cols,
        rows,
        total: (cols * rows) as u32,
        thumb_w: thumb_w as u32,
        grid_w: (grid_padding(cols as int, gap as int) + cols * thumb_w) as u32,
        gap: even_floor(gap as int) as u32,
    }
}

/// The inputs on which the layout arithmetic stays within `u32`.
pub open spec fn layout_inputs_ok(cols: u32, rows: u32, gap: u32) -> bool {
    &&& 0 < cols < u32::MAX
    &&& cols * rows <= u32::MAX
    &&& grid_padding(cols as int, gap as int) <= u32::MAX
}

proof fn lemma_thumb_fits(cols: int, avail: int)
    by (nonlinear_arith)
    requires
        cols > 0,
        avail >= 0,
    ensures
        0 <= cols * even_floor(avail / cols) <= avail,
        0 <= even_floor(avail / cols) <= avail,
        avail < cols * (even_floor(avail / cols) + 2),
{
}

/// Lays out `cols` x `rows` thumbnails across `width` pixels with `gap` pixels between them.
pub fn compute_sheet_layout(cols: u32, rows: u32, width: u32, gap: u32) -> (l: SheetLayout)
    requires
        layout_inputs_ok(cols, rows, gap),
    ensures
        l == spec_sheet_layout(cols, rows, width, gap),
{
    let gap_in = gap;
    let gap = gap_in & !1u32;
    assert(gap == gap_in - gap_in % 2) by (bit_vector)
        requires
            gap == gap_in & !1u32;
    let total = cols * rows;
    let padding = gap * (cols + 1);
    let raw = width.saturating_sub(padding) / cols;
    let thumb_w = raw - (raw % 2);
    proof {
        lemma_thumb_fits(cols as int, width.saturating_sub(padding) as int);
    }
    let grid_w = padding + cols * thumb_w;
    SheetLayout { cols, rows, total, thumb_w, grid_w, gap }
}


/// Line height for stacked text: 1.3 x the font size, rounded half up
/// (that is, `(13 * font + 5) / 10`), saturating at `u32::MAX`.
pub open spec fn spec_line_height(font: u32) -> u32 {
    let h = (13 * font + 5) / 10;
    if h > u32::MAX { u32::MAX } else { h as u32 }
}

/// Line height (in pixels) used to stack drawtext lines: 1.3 x font size, rounded.
pub fn line_height(font: u32) -> (h: u32)
    ensures
        h == spec_line_height(font),
{
    let h: u64 = (font as u64 * 13 + 5) / 10;
    if h > u32::MAX as u64 {
        u32::MAX
    } else {
        h as u32
    }
}

/// Vertical extent of a header panel of `lines` lines.
pub open spec fn spec_header_height(header_font_size: u32, gap: u32, lines: u32) -> int {
    lines * spec_line_height(header_font_size) + 2 * gap
}

/// Vertical extent of the header panel: `gap` top padding, one line height
/// per line, `gap` bottom padding.
pub fn header_height(header_font_size: u32, gap: u32, lines: u32) -> (h: u32)
    requires
        spec_header_height(header_font_size, gap, lines) <= u32::MAX,
    ensures
        h == spec_header_height(header_font_size, gap, lines),
{
    let lh = line_height(header_font_size);
    assert(0 <= lines * lh <= u32::MAX) by (nonlinear_arith)
        requires
            lines * lh + 2 * gap <= u32::MAX,
            gap >= 0;
    lines * lh + 2 * gap
}

/// Zero-padding width for numbering `n` items: the digit count of `n`, at least two.
pub open spec fn spec_pad_width(n: nat) -> nat {
    if num_digits(n) < 2 { 2 } else { num_digits(n) }
}

/// Zero-padding width for numbering `n` items: the digit count of `n`, at least two.
pub fn pad_width_for_count(n: u32) -> (w: usize)
    ensures
        w == spec_pad_width(n as nat),
{
    let s = crate::text::dec_string(n as u64);
    proof {
        lemma_dec_len(n as nat);
    }
    let len = s.unicode_len();
    if len < 2 {
        2
    } else {
        len
    }
}

/// `a * b / c` rounded to the nearest integer, halves rounded up.
pub open spec fn rounded_ratio(a: nat, b: nat, c: nat) -> nat {
    ((2 * a * b + c) / (2 * c)) as nat
}

/// What `thumb_height` computes.
pub open spec fn spec_thumb_height(thumb_w: u32, src_w: u32, src_h: u32) -> u32 {
    if src_w == 0 || src_h == 0 {
        let even = even_floor(thumb_w as int);
        if even < 2 { 2 } else { even as u32 }
    } else {
        let raw = rounded_ratio(thumb_w as nat, src_h as nat, src_w as nat);
        let raw = if raw > u32::MAX { u32::MAX as int } else { raw as int };
        let even = even_floor(raw);
        if even < 2 { 2 } else { even as u32 }
    }
}

/// Thumbnail height matching the source's displayed aspect ratio: `thumb_w * src_h / src_w`
/// rounded to the nearest pixel, then down to an even count, and at least 2. With a zero
/// source dimension the thumbnail width itself is used, rounded down to an even count and
/// likewise at least 2.
pub fn thumb_height(thumb_w: u32, src_w: u32, src_h: u32) -> (h: u32)
    ensures
        h == spec_thumb_height(thumb_w, src_w, src_h),
{
    if src_w == 0 || src_h == 0 {
        let even = thumb_w - (thumb_w % 2);
        return if even < 2 { 2 } else { even };
    }
    let a = thumb_w as u128;
    let b = src_h as u128;
    let c = src_w as u128;
    assert(a * b <= 0xffff_ffff_ffff_ffff_ffff_ffff) by (nonlinear_arith)
        requires
            a <= u32::MAX,
            b <= u32::MAX;
    let ab = a * b;
    assert(2 * ab == 2 * a * b) by (nonlinear_arith)
        requires
            ab == a * b;
    let q = (2 * ab + c) / (2 * c);
    let raw: u32 = if q > u32::MAX as u128 { u32::MAX } else { q as u32 };
    let even = raw - (raw % 2);
    if even < 2 {
        2
    } else {
        even
    }
}

/// Width matching the source's displayed aspect ratio for a target height; the mirror
/// image of [`thumb_height`].
pub fn thumb_width(thumb_h: u32, src_w: u32, src_h: u32) -> (w: u32)
    ensures
        w == spec_thumb_height(thumb_h, src_h, src_w),
{
    thumb_height(thumb_h, src_h, src_w)
}

/// Text of one xstack cell position: `x_y`.
pub open spec fn xstack_cell(x: nat, y: nat) -> Seq<char> {
    dec(x) + seq!['_'] + dec(y)
}

/// Cell positions of a `cols` x `rows` grid of `step_w` x `step_h` cells, row by row.
pub open spec fn xstack_cells(cols: nat, rows: nat, step_w: nat, step_h: nat) -> Seq<Seq<char>> {
    Seq::new(cols * rows, |i: int| xstack_cell(((i % cols as int) * step_w) as nat, ((i / cols as int) * step_h) as nat))
}

/// What `xstack_layout` returns.
pub open spec fn spec_xstack_layout(cols: u32, rows: u32, step_w: u32, step_h: u32) -> Seq<char> {
    join(xstack_cells(cols as nat, rows as nat, step_w as nat, step_h as nat), seq!['|'])
}

/// The inputs on which `xstack_layout`'s arithmetic stays within `u32`.
pub open spec fn xstack_inputs_ok(cols: u32, rows: u32, step_w: u32, step_h: u32) -> bool {
    &&& cols * rows <= u32::MAX
    &&& cols > 0 ==> (cols - 1) * step_w <= u32::MAX
    &&& rows > 0 ==> (rows - 1) * step_h <= u32::MAX
}

proof fn lemma_join_step(parts: Seq<Seq<char>>, k: int, sep: Seq<char>)
    requires
        1 <= k < parts.len(),
    ensures
        join(parts.take(k + 1), sep) == join(parts.take(k), sep) + sep + parts[k],
{
    assert(parts.take(k + 1).drop_last() =~= parts.take(k));
}

/// xstack `layout=` expression for a uniform grid of `step_w` x `step_h` cells, filled
/// row by row: `x_y` positions separated by `|`.
pub fn xstack_layout(cols: u32, rows: u32, step_w: u32, step_h: u32) -> (s: String)
    requires
        xstack_inputs_ok(cols, rows, step_w, step_h),
    ensures
        s@ == spec_xstack_layout(cols, rows, step_w, step_h),
{
    let ghost cells = xstack_cells(cols as nat, rows as nat, step_w as nat, step_h as nat);
    let mut out = String::new();
    let mut r: u32 = 0;
    while r < rows
        invariant
            xstack_inputs_ok(cols, rows, step_w, step_h),
            cells == xstack_cells(cols as nat, rows as nat, step_w as nat, step_h as nat),
            r <= rows,
            out@ == join(cells.take(r * cols), seq!['|']),
        decreases rows - r,
    {
        let mut c: u32 = 0;
        while c < cols
            invariant
                xstack_inputs_ok(cols, rows, step_w, step_h),
                cells == xstack_cells(cols as nat, rows as nat, step_w as nat, step_h as nat),
                r < rows,
                c <= cols,
                out@ == join(cells.take(r * cols + c), seq!['|']),
            decreases cols - c,
        {
            let ghost k: int = r * cols + c;
            proof {
                assert(0 <= k < cols * rows) by (nonlinear_arith)
                    requires
                        k == r * cols + c,
                        c < cols,
                        r < rows;
                assert(c * step_w <= (cols - 1) * step_w) by (nonlinear_arith)
                    requires
                        c < cols;
                assert(r * step_h <= (rows - 1) * step_h) by (nonlinear_arith)
                    requires
                        r < rows;
                vstd::arithmetic::div_mod::lemma_fundamental_div_mod_converse(k, cols as int, r as int, c as int);
                assert(cells[k] == xstack_cell((c * step_w) as nat, (r * step_h) as nat));
            }
            if r > 0 || c > 0 {
                out.push('|');
            }
            push_dec(&mut out, (c * step_w) as u64);
            out.push('_');
            push_dec(&mut out, (r * step_h) as u64);
            proof {
                if k == 0 {
                    assert(cells.take(1).drop_last() =~= cells.take(0));
                    assert(out@ =~= join(cells.take(k + 1), seq!['|']));
                } else {
                    lemma_join_step(cells, k, seq!['|']);
                    assert(out@ =~= join(cells.take(k + 1), seq!['|']));
                }
            }
            c = c + 1;
        }
        r = r + 1;
        assert((r - 1) * cols + cols == r * cols) by (nonlinear_arith);
    }
    proof {
        assert(r * cols == cols * rows) by (nonlinear_arith)
            requires
                r == rows;
        assert(cells.take(r * cols) =~= cells);
    }
    out
}


/// The computed gap and thumbnail width are even, the grid width is the padding plus the
/// thumbnails, and whenever the padding fits in the requested width the grid fits in it
/// too while leaving less than two pixels per column unused.
pub proof fn lemma_sheet_layout_fits(cols: u32, rows: u32, width: u32, gap: u32)
    requires
        layout_inputs_ok(cols, rows, gap),
    ensures
        ({
            let l = spec_sheet_layout(cols, rows, width, gap);
            &&& l.gap % 2 == 0
            &&& l.gap <= gap
            &&& l.thumb_w % 2 == 0
            &&& l.total == cols * rows
            &&& l.grid_w == l.gap * (l.cols + 1) + l.cols * l.thumb_w
            &&& l.gap * (l.cols + 1) <= width ==> l.grid_w <= width < l.grid_w + 2 * l.cols
        }),
{
    let padding = grid_padding(cols as int, gap as int);
    let avail = if width > padding { width - padding } else { 0 };
    lemma_thumb_fits(cols as int, avail);
    let t = spec_thumb_w(cols as int, width as int, gap as int);
    assert(0 <= t <= u32::MAX);
    assert(padding + cols * t <= u32::MAX);
    let l = spec_sheet_layout(cols, rows, width, gap);
    assert(l.thumb_w == t);
    assert(l.grid_w == padding + cols * t);
    assert(l.gap == even_floor(gap as int));
    assert(padding == l.gap * (cols + 1));
    assert(t % 2 == 0);
    assert(cols * (t + 2) == cols * t + 2 * cols) by (nonlinear_arith);
}

/// The thumbnail height is always even and at least 2, degenerate sources included.
pub proof fn lemma_thumb_height_even(thumb_w: u32, src_w: u32, src_h: u32)
    ensures
        spec_thumb_height(thumb_w, src_w, src_h) % 2 == 0,
        spec_thumb_height(thumb_w, src_w, src_h) >= 2,
{
}

/// Each additional header line adds exactly one line height to the header panel.
pub proof fn lemma_header_height_per_line(header_font_size: u32, gap: u32, lines: u32)
    requires
        lines < u32::MAX,
    ensures
        spec_header_height(header_font_size, gap, (lines + 1) as u32)
            == spec_header_height(header_font_size, gap, lines) + spec_line_height(header_font_size),
{
    let lh = spec_line_height(header_font_size);
    assert((lines + 1) * lh == lines * lh + lh) by (nonlinear_arith);
}

/// Number of occurrences of `c` in `s`.
pub open spec fn count_char(s: Seq<char>, c: char) -> nat
    decreases s.len(),
{
    if s.len() == 0 {
        0
    } else {
        count_char(s.drop_last(), c) + if s.last() == c { 1nat } else { 0nat }
    }
}

proof fn lemma_count_concat(a: Seq<char>, b: Seq<char>, c: char)
    ensures
        count_char(a + b, c) == count_char(a, c) + count_char(b, c),
    decreases b.len(),
{
    if b.len() > 0 {
        lemma_count_concat(a, b.drop_last(), c);
        assert((a + b).drop_last() =~= a + b.drop_last());
    } else {
        assert(a + b =~= a);
    }
}

proof fn lemma_count_push(s: Seq<char>, x: char, c: char)
    ensures
        count_char(s.push(x), c) == count_char(s, c) + if x == c { 1nat } else { 0nat },
{
    assert(s.push(x).drop_last() =~= s);
}

proof fn lemma_dec_has_no_bar(n: nat)
    ensures
        count_char(dec(n), '|') == 0,
    decreases n,
{
    if n >= 10 {
        lemma_dec_has_no_bar(n / 10);
        lemma_count_push(dec(n / 10), crate::text::digit_char(n % 10), '|');
    } else {
        lemma_count_push(Seq::<char>::empty(), crate::text::digit_char(n), '|');
        assert(Seq::<char>::empty().push(crate::text::digit_char(n)) =~= dec(n));
    }
}

proof fn lemma_cell_has_no_bar(x: nat, y: nat)
    ensures
        count_char(xstack_cell(x, y), '|') == 0,
{
    lemma_dec_has_no_bar(x);
    lemma_dec_has_no_bar(y);
    lemma_count_concat(dec(x), seq!['_'], '|');
    lemma_count_concat(dec(x) + seq!['_'], dec(y), '|');
    lemma_count_push(Seq::<char>::empty(), '_', '|');
    assert(Seq::<char>::empty().push('_') =~= seq!['_']);
}

proof fn lemma_join_cells_bars(cells: Seq<Seq<char>>)
    requires
        cells.len() > 0,
        forall|i: int| 0 <= i < cells.len() ==> count_char(#[trigger] cells[i], '|') == 0,
    ensures
        count_char(join(cells, seq!['|']), '|') == cells.len() - 1,
    decreases cells.len(),
{
    if cells.len() > 1 {
        let init = cells.drop_last();
        lemma_join_cells_bars(init);
        assert(init[init.len() - 1] == cells[cells.len() - 2]);
        lemma_count_concat(join(init, seq!['|']), seq!['|'], '|');
        lemma_count_concat(join(init, seq!['|']) + seq!['|'], cells.last(), '|');
        lemma_count_push(Seq::<char>::empty(), '|', '|');
        assert(Seq::<char>::empty().push('|') =~= seq!['|']);
    } else {
        assert(join(cells, seq!['|']) == cells[0]);
    }
}

/// An xstack layout of a non-empty grid lists exactly `cols * rows` positions: it holds
/// one `|` fewer than there are cells, and its `k`-th position is column `k % cols`, row
/// `k / cols`.
pub proof fn lemma_xstack_positions(cols: u32, rows: u32, step_w: u32, step_h: u32)
    requires
        cols > 0,
        rows > 0,
    ensures
        count_char(spec_xstack_layout(cols, rows, step_w, step_h), '|') == cols * rows - 1,
        forall|k: int| 0 <= k < cols * rows ==>
            #[trigger] xstack_cells(cols as nat, rows as nat, step_w as nat, step_h as nat)[k]
                == xstack_cell(((k % cols as int) * step_w) as nat, ((k / cols as int) * step_h) as nat),
{
    let cells = xstack_cells(cols as nat, rows as nat, step_w as nat, step_h as nat);
    assert(cols * rows > 0) by (nonlinear_arith)
        requires
            cols > 0,
            rows > 0;
    assert forall|i: int| 0 <= i < cells.len() implies count_char(#[trigger] cells[i], '|') == 0 by {
        lemma_cell_has_no_bar(((i % cols as int) * step_w) as nat, ((i / cols as int) * step_h) as nat);
    }
    lemma_join_cells_bars(cells);
}

/// The `i`-th of `n` evenly spaced sample points strictly inside a span: `i * span / (n + 1)`
/// rounded to the nearest millisecond.
pub open spec fn sample_point(i: nat, span: nat, n: nat) -> nat {
    rounded_ratio(i, span, n + 1)
}

/// The sample points `1..=n` of a span, or none when there are no samples or the span is
/// empty.
pub open spec fn spec_sample_points(span: nat, n: nat) -> Seq<nat> {
    if n == 0 || span == 0 {
        Seq::empty()
    } else {
        Seq::new(n, |k: int| sample_point((k + 1) as nat, span, n))
    }
}

fn sample_points(span: u64, n: u32) -> (v: Vec<u64>)
    ensures
        v@.map_values(|t: u64| t as nat) == spec_sample_points(span as nat, n as nat),
{
    let mut v: Vec<u64> = Vec::new();
    if n == 0 || span == 0 {
        assert(v@.map_values(|t: u64| t as nat) =~= spec_sample_points(span as nat, n as nat));
        return v;
    }
    let m: u128 = n as u128 + 1;
    let mut i: u64 = 1;
    while i <= n as u64
        invariant
            1 <= i <= n + 1,
            n > 0,
            span > 0,
            m == n + 1,
            v@.len() == i - 1,
            forall|k: int| 0 <= k < v@.len() ==> (#[trigger] v@[k]) as nat == sample_point((k + 1) as nat, span as nat, n as nat),
        decreases n + 1 - i,
    {
        let a = i as u128;
        let b = span as u128;
        assert(a * b <= 0xffff_ffff_ffff_ffff_ffff_ffff_ffff) by (nonlinear_arith)
            requires
                a <= u32::MAX + 1,
                b <= u64::MAX;
        let ab = a * b;
        assert(2 * ab == 2 * a * b) by (nonlinear_arith)
            requires
                ab == a * b;
        let q = (2 * ab + m) / (2 * m);
        assert(ab <= (m - 1) * b) by (nonlinear_arith)
            requires
                ab == a * b,
                a <= m - 1;
        assert((m - 1) * b + b == m * b) by (nonlinear_arith);
        assert(2 * ab + m < 2 * m * (b + 1)) by (nonlinear_arith)
            requires
                ab <= (m - 1) * b,
                (m - 1) * b + b == m * b,
                m >= 2;
        assert(q < b + 1) by (nonlinear_arith)
            requires
                q == (2 * ab + m) / (2 * m),
                2 * ab + m < 2 * m * (b + 1),
                m >= 2;
        v.push(q as u64);
        i = i + 1;
    }
    assert(v@.map_values(|t: u64| t as nat) =~= spec_sample_points(span as nat, n as nat));
    v
}

/// Timestamps, in milliseconds, of `n` evenly spaced stills strictly inside a source of
/// `duration_ms`: `i * duration / (n + 1)` for `i` in `1..=n`, to the nearest
/// millisecond; none when `n` is zero or the source is empty.
pub fn sample_timestamps(duration_ms: u64, n: u32) -> (v: Vec<u64>)
    ensures
        v@.map_values(|t: u64| t as nat) == spec_sample_points(duration_ms as nat, n as nat),
{
    sample_points(duration_ms, n)
}

/// Start times, in milliseconds, of `n` clips of `clip_ms` each, evenly spaced so that no
/// clip runs past the end: the sample points of the span `duration - clip`; none when
/// `n` is zero or the source is not longer than one clip.
pub open spec fn spec_sample_clip_timestamps(duration_ms: nat, n: nat, clip_ms: nat) -> Seq<nat> {
    if duration_ms <= clip_ms {
        Seq::empty()
    } else {
        spec_sample_points((duration_ms - clip_ms) as nat, n)
    }
}

/// Start times of `n` clips of `clip_ms` milliseconds, constrained so that every clip
/// ends inside the source.
pub fn sample_clip_timestamps(duration_ms: u64, n: u32, clip_ms: u64) -> (v: Vec<u64>)
    ensures
        v@.map_values(|t: u64| t as nat) == spec_sample_clip_timestamps(duration_ms as nat, n as nat, clip_ms as nat),
{
    if duration_ms <= clip_ms {
        let v: Vec<u64> = Vec::new();
        assert(v@.map_values(|t: u64| t as nat) =~= Seq::<nat>::empty());
        return v;
    }
    sample_points(duration_ms - clip_ms, n)
}

/// The sample points never decrease and never pass the end of the span; when the span
/// has at least `n + 1` milliseconds they lie strictly inside it.
pub proof fn lemma_sample_points_inside(span: nat, n: nat, i: nat, j: nat)
    requires
        1 <= i <= j <= n,
    ensures
        sample_point(i, span, n) <= sample_point(j, span, n),
        sample_point(j, span, n) <= span,
        span >= n + 1 ==> 0 < sample_point(i, span, n) && sample_point(j, span, n) < span,
{
    let m = n + 1;
    assert(2 * i * span + m <= 2 * j * span + m) by (nonlinear_arith)
        requires
            i <= j;
    assert((2 * i * span + m) / (2 * m) <= (2 * j * span + m) / (2 * m)) by (nonlinear_arith)
        requires
            2 * i * span + m <= 2 * j * span + m,
            m >= 2;
    assert(2 * j * span + m < 2 * m * span + 2 * m) by (nonlinear_arith)
        requires
            j < m,
            m >= 2;
    assert((2 * j * span + m) / (2 * m) <= span) by (nonlinear_arith)
        requires
            2 * j * span + m < 2 * m * span + 2 * m,
            m >= 2;
    if span >= m {
        assert(2 * i * span + m >= 2 * m) by (nonlinear_arith)
            requires
                i >= 1,
                span >= m;
        assert((2 * i * span + m) / (2 * m) >= 1) by (nonlinear_arith)
            requires
                2 * i * span + m >= 2 * m,
                m >= 2;
        assert(2 * j * span + m < 2 * m * span) by (nonlinear_arith)
            requires
                j <= m - 1,
                span >= m,
                m >= 2;
        assert((2 * j * span + m) / (2 * m) < span) by (nonlinear_arith)
            requires
                2 * j * span + m < 2 * m * span,
                m >= 2;
    }
}

/// Every clip sampled by [`sample_clip_timestamps`] ends inside the source, and later
/// clips never start earlier.
pub proof fn lemma_clip_timestamps_fit(duration_ms: nat, n: nat, clip_ms: nat, k: int)
    requires
        0 <= k < spec_sample_clip_timestamps(duration_ms, n, clip_ms).len(),
    ensures
        spec_sample_clip_timestamps(duration_ms, n, clip_ms)[k] + clip_ms <= duration_ms,
        k + 1 < spec_sample_clip_timestamps(duration_ms, n, clip_ms).len() ==>
            spec_sample_clip_timestamps(duration_ms, n, clip_ms)[k] <= spec_sample_clip_timestamps(duration_ms, n, clip_ms)[k + 1],
{
    let span = (duration_ms - clip_ms) as nat;
    lemma_sample_points_inside(span, n, (k + 1) as nat, (k + 1) as nat);
    if k + 1 < n {
        lemma_sample_points_inside(span, n, (k + 1) as nat, (k + 2) as nat);
    }
}

/// Clip start `k` (from 0) of [`sample_clip_timestamps`] is `(k + 1) * (duration - clip) /
/// (n + 1)` to the nearest millisecond, halves rounded up: twice `n + 1` times the start
/// lies within `n + 1` of twice `(k + 1) * (duration - clip)`. So the starts are spread
/// evenly over the whole of `duration - clip`, the last one within one interval of it;
/// there are `n` of them when the source is longer than a clip, and none otherwise.
pub proof fn lemma_clip_starts_spread_over_source(duration_ms: nat, n: nat, clip_ms: nat, k: int)
    ensures
        duration_ms <= clip_ms || n == 0 ==> spec_sample_clip_timestamps(duration_ms, n, clip_ms).len() == 0,
        duration_ms > clip_ms ==> spec_sample_clip_timestamps(duration_ms, n, clip_ms).len() == n,
        duration_ms > clip_ms && 0 <= k < n ==> ({
            let s = spec_sample_clip_timestamps(duration_ms, n, clip_ms)[k];
            let d = duration_ms - clip_ms;
            &&& 2 * (n + 1) * s <= 2 * (k + 1) * d + (n + 1)
            &&& 2 * (k + 1) * d < 2 * (n + 1) * s + (n + 1)
        }),
{
    if duration_ms > clip_ms && 0 <= k < n {
        let d = (duration_ms - clip_ms) as nat;
        let m = n + 1;
        let i = (k + 1) as nat;
        let s = ((2 * i * d + m) / (2 * m)) as nat;
        assert(spec_sample_clip_timestamps(duration_ms, n, clip_ms)[k] == s);
        assert(2 * m * s <= 2 * i * d + m && 2 * i * d + m < 2 * m * s + 2 * m) by (nonlinear_arith)
            requires
                s == (2 * i * d + m) / (2 * m),
                m >= 2;
        assert(2 * m * s == 2 * (n + 1) * s);
        assert(2 * i * d == 2 * (k + 1) * d);
    }
}

/// Still `k` (from 0) of [`sample_timestamps`] is `(k + 1) * duration / (n + 1)` to the
/// nearest millisecond, halves rounded up; there are `n` stills of a non-empty source.
pub proof fn lemma_stills_spread_over_source(duration_ms: nat, n: nat, k: int)
    ensures
        duration_ms == 0 || n == 0 ==> spec_sample_points(duration_ms, n).len() == 0,
        duration_ms > 0 ==> spec_sample_points(duration_ms, n).len() == n,
        duration_ms > 0 && 0 <= k < n ==> ({
            let s = spec_sample_points(duration_ms, n)[k];
            &&& 2 * (n + 1) * s <= 2 * (k + 1) * duration_ms + (n + 1)
            &&& 2 * (k + 1) * duration_ms < 2 * (n + 1) * s + (n + 1)
        }),
{
    if duration_ms > 0 && 0 <= k < n {
        let d = duration_ms;
        let m = n + 1;
        let i = (k + 1) as nat;
        let s = ((2 * i * d + m) / (2 * m)) as nat;
        assert(spec_sample_points(duration_ms, n)[k] == s);
        assert(2 * m * s <= 2 * i * d + m && 2 * i * d + m < 2 * m * s + 2 * m) by (nonlinear_arith)
            requires
                s == (2 * i * d + m) / (2 * m),
                m >= 2;
        assert(2 * m * s == 2 * (n + 1) * s);
        assert(2 * i * d == 2 * (k + 1) * d);
    }
}

} // verus!
