//! Character-level building blocks shared by every module that renders text:
//! decimal rendering of integers, zero padding, and joining with a separator.

use vstd::prelude::*;

verus! {

/// `String::push` appends one character at the end of the string.
pub assume_specification[ std::string::String::push ](s: &mut String, ch: char)
    ensures
        final(s)@ == old(s)@.push(ch),
;

/// The ASCII digit for a value below ten.
pub open spec fn digit_char(d: nat) -> char {
    if d == 0 { '0' }
    else if d == 1 { '1' }
    else if d == 2 { '2' }
    else if d == 3 { '3' }
    else if d == 4 { '4' }
    else if d == 5 { '5' }
    else if d == 6 { '6' }
    else if d == 7 { '7' }
    else if d == 8 { '8' }
    else { '9' }
}

/// Base-ten rendering of a natural number, without sign or leading zeros.
pub open spec fn dec(n: nat) -> Seq<char>
    decreases n,
{
    if n < 10 {
        seq![digit_char(n)]
    } else {
        dec(n / 10).push(digit_char(n % 10))
    }
}

/// Number of decimal digits of `n` (one for zero).
pub open spec fn num_digits(n: nat) -> nat
    decreases n,
{
    if n < 10 { 1 } else { 1 + num_digits(n / 10) }
}

/// `n` rendered in base ten and left-padded with `'0'` to at least `width` characters.
pub open spec fn dec_padded(n: nat, width: nat) -> Seq<char> {
    let d = dec(n);
    if d.len() >= width {
        d
    } else {
        Seq::new((width - d.len()) as nat, |_i: int| '0') + d
    }
}

/// Elements of `parts` separated by `sep`.
pub open spec fn join(parts: Seq<Seq<char>>, sep: Seq<char>) -> Seq<char>
    decreases parts.len(),
{
    if parts.len() == 0 {
        Seq::empty()
    } else if parts.len() == 1 {
        parts[0]
    } else {
        join(parts.drop_last(), sep) + sep + parts.last()
    }
}

/// The rendering of `n` has `num_digits(n)` characters, at least one.
pub proof fn lemma_dec_len(n: nat)
    ensures
        dec(n).len() == num_digits(n),
        dec(n).len() >= 1,
    decreases n,
{
    if n >= 10 {
        lemma_dec_len(n / 10);
    }
}

/// Digit counts of numbers below ten thousand.
pub proof fn lemma_num_digits_bound(n: nat)
    ensures
        n < 10 ==> num_digits(n) == 1,
        10 <= n < 100 ==> num_digits(n) == 2,
        100 <= n < 1000 ==> num_digits(n) == 3,
        1000 <= n < 10000 ==> num_digits(n) == 4,
    decreases n,
{
    if n >= 10 {
        lemma_num_digits_bound(n / 10);
    }
}

/// Appends the decimal rendering of `n` to `out`.
pub fn push_dec(out: &mut String, n: u64)
    ensures
        final(out)@ == old(out)@ + dec(n as nat),
    decreases n,
{
    if n >= 10 {
        push_dec(out, n / 10);
    }
    let d = n % 10;
    let c = if d == 0 { '0' }
        else if d == 1 { '1' }
        else if d == 2 { '2' }
        else if d == 3 { '3' }
        else if d == 4 { '4' }
        else if d == 5 { '5' }
        else if d == 6 { '6' }
        else if d == 7 { '7' }
        else if d == 8 { '8' }
        else { '9' };
    out.push(c);
    proof {
        if n >= 10 {
            assert(old(out)@ + dec((n / 10) as nat) + seq![c] =~= old(out)@ + dec(n as nat));
        } else {
            assert(old(out)@ + seq![c] =~= old(out)@ + dec(n as nat));
        }
    }
}

/// Decimal rendering of `n` as a fresh string.
pub fn dec_string(n: u64) -> (s: String)
    ensures
        s@ == dec(n as nat),
{
    let mut s = String::new();
    push_dec(&mut s, n);
    assert(s@ =~= dec(n as nat));
    s
}

/// Appends `n` in base ten, left-padded with zeros to at least `width` characters.
pub fn push_dec_padded(out: &mut String, n: u64, width: usize)
    ensures
        final(out)@ == old(out)@ + dec_padded(n as nat, width as nat),
{
    let digits = dec_string(n);
    let len = digits.unicode_len();
    let ghost start = out@;
    if len < width {
        let mut i: usize = 0;
        while i < width - len
            invariant
                i <= width - len,
                len < width,
                out@ == start + Seq::new(i as nat, |_j: int| '0'),
            decreases width - len - i,
        {
            out.push('0');
            i = i + 1;
            assert(out@ =~= start + Seq::new(i as nat, |_j: int| '0'));
        }
    }
    out.append(digits.as_str());
    assert(out@ =~= start + dec_padded(n as nat, width as nat));
}


/// The views of a list of strings.
pub open spec fn string_views(v: Seq<String>) -> Seq<Seq<char>> {
    v.map_values(|s: String| s@)
}

/// Joins `parts` with `sep` between consecutive elements.
pub fn join_strings(parts: &Vec<String>, sep: &str) -> (s: String)
    ensures
        s@ == join(string_views(parts@), sep@),
{
    let ghost pv = string_views(parts@);
    let mut s = String::new();
    let mut i: usize = 0;
    while i < parts.len()
        invariant
            i <= parts@.len(),
            pv == string_views(parts@),
            s@ == join(pv.take(i as int), sep@),
        decreases parts.len() - i,
    {
        let ghost before = s@;
        if i > 0 {
            s.append(sep);
        }
        s.append(parts[i].as_str());
        proof {
            assert(pv[i as int] == parts@[i as int]@);
            assert(pv.take(i + 1).drop_last() =~= pv.take(i as int));
            if i == 0 {
                assert(s@ =~= pv[0]);
            } else {
                assert(s@ =~= before + sep@ + pv[i as int]);
            }
        }
        i = i + 1;
    }
    assert(pv.take(parts.len() as int) =~= pv);
    s
}

/// `num / den` rounded to the nearest integer, exact halves rounded to the even neighbour.
pub open spec fn round_half_even(num: nat, den: nat) -> nat {
    let q = num / den;
    let r = num % den;
    if 2 * r > den || (2 * r == den && q % 2 == 1) { q + 1 } else { q }
}

/// `n / 10^places` written with `places` decimals, where `n` is already scaled.
pub open spec fn fixed_point(n: nat, scale: nat, places: nat) -> Seq<char> {
    dec(n / scale) + seq!['.'] + dec_padded(n % scale, places)
}

/// Appends `n / scale` with `places` decimals (`scale` is `10^places`).
pub fn push_fixed_point(out: &mut String, n: u64, scale: u64, places: usize)
    requires
        scale > 0,
    ensures
        final(out)@ == old(out)@ + fixed_point(n as nat, scale as nat, places as nat),
{
    let ghost start = out@;
    push_dec(out, n / scale);
    out.push('.');
    push_dec_padded(out, n % scale, places);
    assert(out@ =~= start + fixed_point(n as nat, scale as nat, places as nat));
}

/// Appends the decimal rendering of a 128-bit `n` to `out`.
pub fn push_dec_wide(out: &mut String, n: u128)
    ensures
        final(out)@ == old(out)@ + dec(n as nat),
    decreases n,
{
    if n >= 10 {
        push_dec_wide(out, n / 10);
    }
    let ghost mid = out@;
    push_dec(out, (n % 10) as u64);
    proof {
        let d = (n % 10) as nat;
        assert(dec(d) == seq![digit_char(d)]);
        if n >= 10 {
            assert(old(out)@ + dec((n / 10) as nat) + seq![digit_char(d)] =~= old(out)@ + dec(n as nat));
        } else {
            assert(old(out)@ + seq![digit_char(d)] =~= old(out)@ + dec(n as nat));
        }
    }
}

/// Appends a 128-bit `n / scale` with `places` decimals (`scale` is `10^places`).
pub fn push_fixed_point_wide(out: &mut String, n: u128, scale: u64, places: usize)
    requires
        scale > 0,
    ensures
        final(out)@ == old(out)@ + fixed_point(n as nat, scale as nat, places as nat),
{
    let ghost start = out@;
    push_dec_wide(out, n / (scale as u128));
    out.push('.');
    push_dec_padded(out, (n % (scale as u128)) as u64, places);
    assert(out@ =~= start + fixed_point(n as nat, scale as nat, places as nat));
}

} // verus!
