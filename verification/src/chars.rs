//! Character classes and small string predicates, as the standard library defines them.

use vstd::prelude::*;

verus! {

/// The Unicode `White_Space` property, which `char::is_whitespace` (and so `str::trim`
/// and `str::split_whitespace`) tests.
pub open spec fn is_ws(c: char) -> bool {
    let u = c as u32;
    ||| 0x09 <= u <= 0x0D
    ||| u == 0x20
    ||| u == 0x85
    ||| u == 0xA0
    ||| u == 0x1680
    ||| 0x2000 <= u <= 0x200A
    ||| u == 0x2028
    ||| u == 0x2029
    ||| u == 0x202F
    ||| u == 0x205F
    ||| u == 0x3000
}

/// Whether `c` has the Unicode `White_Space` property.
pub fn is_whitespace(c: char) -> (b: bool)
    ensures
        b == is_ws(c),
{
    let u = c as u32;
    (0x09 <= u && u <= 0x0D) || u == 0x20 || u == 0x85 || u == 0xA0 || u == 0x1680
        || (0x2000 <= u && u <= 0x200A) || u == 0x2028 || u == 0x2029 || u == 0x202F
        || u == 0x205F || u == 0x3000
}

/// Whether every character of `s` is whitespace (so that trimming leaves nothing).
pub open spec fn all_ws(s: Seq<char>) -> bool {
    forall|i: int| 0 <= i < s.len() ==> is_ws(#[trigger] s[i])
}

/// Whether `s` holds `c`.
pub open spec fn has_char(s: Seq<char>, c: char) -> bool {
    exists|i: int| 0 <= i < s.len() && s[i] == c
}

/// Whether `needle` occurs in `s` starting at index `i`.
pub open spec fn occurs_at(s: Seq<char>, needle: Seq<char>, i: int) -> bool {
    0 <= i && i + needle.len() <= s.len() && s.subrange(i, i + needle.len()) == needle
}

/// Whether `needle` occurs somewhere in `s`.
pub open spec fn contains_seq(s: Seq<char>, needle: Seq<char>) -> bool {
    exists|i: int| #[trigger] occurs_at(s, needle, i)
}

/// `str::contains` for a string needle.
pub fn str_contains(s: &str, needle: &str) -> (b: bool)
    ensures
        b == contains_seq(s@, needle@),
{
    let n = s.unicode_len();
    let m = needle.unicode_len();
    if m > n {
        proof {
            assert forall|i: int| !#[trigger] occurs_at(s@, needle@, i) by {}
        }
        return false;
    }
    let mut i: usize = 0;
    while i <= n - m
        invariant
            n == s@.len(),
            m == needle@.len(),
            m <= n,
            i <= n - m + 1,
            forall|k: int| 0 <= k < i ==> !#[trigger] occurs_at(s@, needle@, k),
        decreases n - m + 1 - i,
    {
        let mut j: usize = 0;
        let mut matched = true;
        while j < m
            invariant
                n == s@.len(),
                m == needle@.len(),
                i + m <= n,
                j <= m,
                matched == forall|k: int| 0 <= k < j ==> s@[i + k] == needle@[k],
            decreases m - j,
        {
            if s.get_char(i + j) != needle.get_char(j) {
                matched = false;
            }
            j = j + 1;
        }
        if matched {
            proof {
                assert(s@.subrange(i as int, i + m) =~= needle@);
                assert(occurs_at(s@, needle@, i as int));
            }
            return true;
        }
        proof {
            assert(!(s@.subrange(i as int, i + m) =~= needle@));
        }
        i = i + 1;
    }
    proof {
        assert forall|k: int| !#[trigger] occurs_at(s@, needle@, k) by {
            if 0 <= k < i {
            } else if k >= i {
                assert(k + m > n);
            }
        }
    }
    false
}

/// Whether `s` holds the character `c`.
pub fn str_has_char(s: &str, c: char) -> (b: bool)
    ensures
        b == has_char(s@, c),
{
    let n = s.unicode_len();
    let mut i: usize = 0;
    while i < n
        invariant
            n == s@.len(),
            i <= n,
            forall|k: int| 0 <= k < i ==> s@[k] != c,
        decreases n - i,
    {
        if s.get_char(i) == c {
            return true;
        }
        i = i + 1;
    }
    false
}

/// Whether every character of `s` is whitespace.
pub fn str_all_whitespace(s: &str) -> (b: bool)
    ensures
        b == all_ws(s@),
{
    let n = s.unicode_len();
    let mut i: usize = 0;
    while i < n
        invariant
            n == s@.len(),
            i <= n,
            forall|k: int| 0 <= k < i ==> is_ws(#[trigger] s@[k]),
        decreases n - i,
    {
        if !is_whitespace(s.get_char(i)) {
            return false;
        }
        i = i + 1;
    }
    true
}


/// `s` without leading whitespace.
pub open spec fn trim_start(s: Seq<char>) -> Seq<char>
    decreases s.len(),
{
    if s.len() > 0 && is_ws(s[0]) { trim_start(s.skip(1)) } else { s }
}

/// `s` without trailing whitespace.
pub open spec fn trim_end(s: Seq<char>) -> Seq<char>
    decreases s.len(),
{
    if s.len() > 0 && is_ws(s.last()) { trim_end(s.drop_last()) } else { s }
}

/// `str::trim`: `s` without leading and trailing whitespace.
pub open spec fn trim(s: Seq<char>) -> Seq<char> {
    trim_end(trim_start(s))
}

proof fn lemma_trim_start_skip(s: Seq<char>, i: int)
    requires
        0 <= i <= s.len(),
        forall|k: int| 0 <= k < i ==> is_ws(#[trigger] s[k]),
    ensures
        trim_start(s) == trim_start(s.skip(i)),
    decreases i,
{
    if i > 0 {
        lemma_trim_start_skip(s.skip(1), i - 1);
        assert(s.skip(1).skip(i - 1) =~= s.skip(i));
    } else {
        assert(s.skip(0) =~= s);
    }
}

proof fn lemma_trim_end_take(s: Seq<char>, j: int)
    requires
        0 <= j <= s.len(),
        forall|k: int| j <= k < s.len() ==> is_ws(#[trigger] s[k]),
    ensures
        trim_end(s) == trim_end(s.take(j)),
    decreases s.len() - j,
{
    if j < s.len() {
        lemma_trim_end_take(s.drop_last(), j);
        assert(s.drop_last().take(j) =~= s.take(j));
    } else {
        assert(s.take(j) =~= s);
    }
}

/// `str::trim`.
pub fn trim_str(s: &str) -> (t: String)
    ensures
        t@ == trim(s@),
{
    let n = s.unicode_len();
    let mut i: usize = 0;
    while i < n && is_whitespace(s.get_char(i))
        invariant
            n == s@.len(),
            i <= n,
            forall|k: int| 0 <= k < i ==> is_ws(#[trigger] s@[k]),
        decreases n - i,
    {
        i = i + 1;
    }
    proof {
        lemma_trim_start_skip(s@, i as int);
    }
    let ghost rest = s@.skip(i as int);
    let mut j: usize = n;
    while j > i && is_whitespace(s.get_char(j - 1))
        invariant
            n == s@.len(),
            i <= j <= n,
            rest == s@.skip(i as int),
            forall|k: int| j - i <= k < rest.len() ==> is_ws(#[trigger] rest[k]),
        decreases j - i,
    {
        j = j - 1;
        assert(rest[j - i] == s@[j as int]);
    }
    proof {
        lemma_trim_end_take(rest, j - i);
        if i < n && i == j {
            assert(!is_ws(s@[i as int]));
            assert(false);
        }
        if i < j {
            assert(!is_ws(rest[0]));
            assert(!is_ws(rest.take(j - i).last()));
            assert(trim_start(rest.take(j - i)) == rest.take(j - i));
            assert(trim_end(rest.take(j - i)) == rest.take(j - i));
        } else {
            assert(rest.take(j - i) =~= Seq::<char>::empty());
            assert(trim_start(rest) =~= rest);
        }
    }
    let t = s.substring_char(i, j);
    assert(t@ =~= rest.take(j - i));
    String::from_str(t)
}

/// ASCII letters upper-cased, everything else unchanged.
pub open spec fn ascii_upper(s: Seq<char>) -> Seq<char> {
    s.map_values(|c: char| if 'a' <= c <= 'z' { ((c as u32) - 32) as char } else { c })
}

/// `str::to_ascii_uppercase`.
pub fn to_ascii_uppercase(s: &str) -> (t: String)
    ensures
        t@ == ascii_upper(s@),
{
    let n = s.unicode_len();
    let mut t = String::new();
    let mut i: usize = 0;
    while i < n
        invariant
            n == s@.len(),
            i <= n,
            t@ == ascii_upper(s@.take(i as int)),
        decreases n - i,
    {
        let c = s.get_char(i);
        if 'a' <= c && c <= 'z' {
            let u = ((c as u32) - 32) as u8 as char;
            assert(u == ((c as u32) - 32) as char);
            t.push(u);
        } else {
            t.push(c);
        }
        assert(t@ =~= ascii_upper(s@.take(i + 1)));
        i = i + 1;
    }
    assert(s@.take(n as int) =~= s@);
    t
}

/// ASCII letters lower-cased, everything else unchanged.
pub open spec fn ascii_lower(s: Seq<char>) -> Seq<char> {
    s.map_values(|c: char| if 'A' <= c <= 'Z' { ((c as u32) + 32) as char } else { c })
}

/// `str::to_ascii_lowercase`.
pub fn to_ascii_lowercase(s: &str) -> (t: String)
    ensures
        t@ == ascii_lower(s@),
{
    let n = s.unicode_len();
    let mut t = String::new();
    let mut i: usize = 0;
    while i < n
        invariant
            n == s@.len(),
            i <= n,
            t@ == ascii_lower(s@.take(i as int)),
        decreases n - i,
    {
        let c = s.get_char(i);
        if 'A' <= c && c <= 'Z' {
            let l = ((c as u32) + 32) as u8 as char;
            assert(l == ((c as u32) + 32) as char);
            t.push(l);
        } else {
            t.push(c);
        }
        assert(t@ =~= ascii_lower(s@.take(i + 1)));
        i = i + 1;
    }
    assert(s@.take(n as int) =~= s@);
    t
}

/// `str::split_whitespace`: the maximal runs of non-whitespace characters, in order.
pub open spec fn ws_tokens(s: Seq<char>) -> Seq<Seq<char>>
    decreases s.len(),
{
    if s.len() == 0 {
        Seq::empty()
    } else {
        let rest = ws_tokens(s.drop_last());
        let c = s.last();
        if is_ws(c) {
            rest
        } else if s.len() >= 2 && !is_ws(s[s.len() - 2]) && rest.len() > 0 {
            rest.drop_last().push(rest.last().push(c))
        } else {
            rest.push(seq![c])
        }
    }
}

/// `str::split_whitespace`, collected.
pub fn split_whitespace(s: &str) -> (v: Vec<String>)
    ensures
        crate::text::string_views(v@) == ws_tokens(s@),
{
    let n = s.unicode_len();
    let mut v: Vec<String> = Vec::new();
    let mut prev_ws = true;
    let mut i: usize = 0;
    while i < n
        invariant
            n == s@.len(),
            i <= n,
            crate::text::string_views(v@) == ws_tokens(s@.take(i as int)),
            i == 0 ==> prev_ws,
            i > 0 ==> prev_ws == is_ws(s@[i - 1]),
            i > 0 && !prev_ws ==> v@.len() > 0,
        decreases n - i,
    {
        let c = s.get_char(i);
        let ghost before = crate::text::string_views(v@);
        let ghost pre = s@.take(i + 1);
        assert(pre.drop_last() =~= s@.take(i as int));
        assert(pre.last() == c);
        if is_whitespace(c) {
            prev_ws = true;
        } else if !prev_ws && v.len() > 0 {
            let last_index = v.len() - 1;
            let mut last = v.pop().unwrap();
            last.push(c);
            v.push(last);
            proof {
                assert(pre[pre.len() - 2] == s@[i - 1]);
                assert(crate::text::string_views(v@) =~= before.drop_last().push(before.last().push(c)));
            }
            prev_ws = false;
        } else {
            let mut tok = String::new();
            tok.push(c);
            v.push(tok);
            proof {
                if i > 0 {
                    assert(pre[pre.len() - 2] == s@[i - 1]);
                }
                assert(crate::text::string_views(v@) =~= before.push(seq![c]));
            }
            prev_ws = false;
        }
        i = i + 1;
    }
    assert(s@.take(n as int) =~= s@);
    v
}

/// The characters of `s` before the first `c`, or all of `s` when it holds none.
pub open spec fn before_char(s: Seq<char>, c: char) -> Seq<char>
    decreases s.len(),
{
    if s.len() == 0 {
        s
    } else if s[0] == c {
        Seq::empty()
    } else {
        seq![s[0]] + before_char(s.skip(1), c)
    }
}

proof fn lemma_before_char_prefix(s: Seq<char>, c: char, k: int)
    requires
        0 <= k <= s.len(),
        forall|j: int| 0 <= j < k ==> s[j] != c,
    ensures
        before_char(s, c) == s.take(k) + before_char(s.skip(k), c),
    decreases k,
{
    if k > 0 {
        lemma_before_char_prefix(s.skip(1), c, k - 1);
        assert(s.skip(1).skip(k - 1) =~= s.skip(k));
        assert(seq![s[0]] + s.skip(1).take(k - 1) =~= s.take(k));
        assert(seq![s[0]] + (s.skip(1).take(k - 1) + before_char(s.skip(k), c))
            =~= s.take(k) + before_char(s.skip(k), c));
    } else {
        assert(s.skip(0) =~= s);
        assert(s.take(0) + before_char(s, c) =~= before_char(s, c));
    }
}

/// `s.split(c).next()`: the part of `s` before its first `c`.
pub fn first_split(s: &str, c: char) -> (t: &str)
    ensures
        t@ == before_char(s@, c),
{
    let n = s.unicode_len();
    let mut i: usize = 0;
    while i < n && s.get_char(i) != c
        invariant
            n == s@.len(),
            i <= n,
            forall|j: int| 0 <= j < i ==> s@[j] != c,
        decreases n - i,
    {
        i = i + 1;
    }
    proof {
        lemma_before_char_prefix(s@, c, i as int);
        if i < n {
            assert(s@.skip(i as int)[0] == c);
        } else {
            assert(s@.skip(i as int) =~= Seq::<char>::empty());
        }
    }
    let t = s.substring_char(0, i);
    assert(t@ =~= before_char(s@, c));
    t
}

/// Whether `c` is an ASCII digit.
pub open spec fn is_digit(c: char) -> bool {
    '0' <= c <= '9'
}

/// The value of a string of ASCII digits.
pub open spec fn digits_value(s: Seq<char>) -> nat
    decreases s.len(),
{
    if s.len() == 0 {
        0
    } else {
        digits_value(s.drop_last()) * 10 + ((s.last() as u32) - ('0' as u32)) as nat
    }
}

/// Whether every character of `s` is an ASCII digit.
pub open spec fn all_digits(s: Seq<char>) -> bool {
    forall|i: int| 0 <= i < s.len() ==> is_digit(#[trigger] s[i])
}

/// The digits part of an unsigned number: `s` without one leading `+`.
pub open spec fn unsigned_body(s: Seq<char>) -> Seq<char> {
    if s.len() > 0 && s[0] == '+' { s.skip(1) } else { s }
}

/// What `str::parse` gives for an unsigned integer type whose largest value is `max`: an
/// optional `+`, then at least one ASCII digit and nothing else, with a value of at most
/// `max`.
pub open spec fn parse_unsigned(s: Seq<char>, max: nat) -> Option<nat> {
    let body = unsigned_body(s);
    if body.len() == 0 || !all_digits(body) || digits_value(body) > max {
        None
    } else {
        Some(digits_value(body))
    }
}

/// `str::parse::<T>` for an unsigned `T` whose largest value is `max`.
pub fn parse_unsigned_str(s: &str, max: u64) -> (r: Option<u64>)
    ensures
        match r {
            Some(v) => parse_unsigned(s@, max as nat) == Some(v as nat),
            None => parse_unsigned(s@, max as nat) is None,
        },
{
    let n = s.unicode_len();
    let start: usize = if n > 0 && s.get_char(0) == '+' { 1 } else { 0 };
    let ghost body = unsigned_body(s@);
    assert(body =~= s@.skip(start as int));
    if start == n {
        assert(body.len() == 0);
        return None;
    }
    let cap: u128 = max as u128 + 1;
    let mut acc: u128 = 0;
    let mut i: usize = start;
    while i < n
        invariant
            n == s@.len(),
            start <= i <= n,
            body == s@.skip(start as int),
            body == unsigned_body(s@),
            cap == max + 1,
            forall|k: int| 0 <= k < i - start ==> is_digit(#[trigger] body[k]),
            acc == if digits_value(body.take(i - start)) > max { cap as nat } else { digits_value(body.take(i - start)) },
        decreases n - i,
    {
        let c = s.get_char(i);
        if !('0' <= c && c <= '9') {
            assert(body[i - start] == c);
            assert(!is_digit(body[i - start]));
            assert(!all_digits(body));
            return None;
        }
        let d = (c as u32 - '0' as u32) as u128;
        let ghost prev = body.take(i - start);
        let ghost next = body.take(i - start + 1);
        assert(next.drop_last() =~= prev);
        assert(next.last() == c);
        let grown = acc * 10 + d;
        acc = if grown > cap { cap } else { grown };
        proof {
            if digits_value(prev) > max {
                assert(digits_value(next) >= digits_value(prev) * 10);
            }
        }
        i = i + 1;
    }
    assert(body.take(n - start) =~= body);
    if acc > max as u128 {
        None
    } else {
        Some(acc as u64)
    }
}

} // verus!
