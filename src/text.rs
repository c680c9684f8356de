//! Text models shared by the parsers: splitting a sequence at a separator,
//! Unicode white space, and trimming.
use vstd::prelude::*;

verus! {

/// A split in progress: the segments closed so far and the open one.
pub type Split<T> = (Seq<Seq<T>>, Seq<T>);

/// One element more of input: a separator closes the open segment, anything
/// else extends it.
pub open spec fn split_step<T>(st: Split<T>, x: T, sep: T) -> Split<T> {
    if x == sep {
        (st.0.push(st.1), Seq::empty())
    } else {
        (st.0, st.1.push(x))
    }
}

/// The split state after `input` has been consumed, element by element.
pub open spec fn split_feed<T>(st: Split<T>, input: Seq<T>, sep: T) -> Split<T>
    decreases input.len(),
{
    if input.len() == 0 {
        st
    } else {
        split_step(split_feed(st, input.drop_last(), sep), input.last(), sep)
    }
}

pub open spec fn split_start<T>() -> Split<T> {
    (Seq::empty(), Seq::empty())
}

/// Consuming `a` and then `b` is consuming `a + b`.
pub proof fn lemma_split_feed_append<T>(st: Split<T>, a: Seq<T>, b: Seq<T>, sep: T)
    ensures
        split_feed(split_feed(st, a, sep), b, sep) == split_feed(st, a + b, sep),
    decreases b.len(),
{
    if b.len() == 0 {
        assert(a + b =~= a);
    } else {
        lemma_split_feed_append(st, a, b.drop_last(), sep);
        assert((a + b).drop_last() =~= a + b.drop_last());
        assert((a + b).last() == b.last());
    }
}

/// Unicode White_Space, the set that `char::is_whitespace` and `str::trim` use.
pub open spec fn is_ws(c: char) -> bool {
    ('\u{9}' <= c && c <= '\u{d}') || c == ' ' || c == '\u{85}' || c == '\u{a0}'
        || c == '\u{1680}' || ('\u{2000}' <= c && c <= '\u{200a}') || c == '\u{2028}'
        || c == '\u{2029}' || c == '\u{202f}' || c == '\u{205f}' || c == '\u{3000}'
}

pub fn is_whitespace(c: char) -> (r: bool)
    ensures
        r == is_ws(c),
{
    ('\u{9}' <= c && c <= '\u{d}') || c == ' ' || c == '\u{85}' || c == '\u{a0}'
        || c == '\u{1680}' || ('\u{2000}' <= c && c <= '\u{200a}') || c == '\u{2028}'
        || c == '\u{2029}' || c == '\u{202f}' || c == '\u{205f}' || c == '\u{3000}'
}

/// The characters that a trim removes: white space, or double quotes.
pub open spec fn trimmed_char(c: char, quotes: bool) -> bool {
    if quotes {
        c == '"'
    } else {
        is_ws(c)
    }
}

pub open spec fn trim_start(s: Seq<char>, quotes: bool) -> Seq<char>
    decreases s.len(),
{
    if s.len() > 0 && trimmed_char(s[0], quotes) {
        trim_start(s.drop_first(), quotes)
    } else {
        s
    }
}

pub open spec fn trim_end(s: Seq<char>, quotes: bool) -> Seq<char>
    decreases s.len(),
{
    if s.len() > 0 && trimmed_char(s.last(), quotes) {
        trim_end(s.drop_last(), quotes)
    } else {
        s
    }
}

/// `str::trim` (white space) or `str::trim_matches('"')` (quotes).
pub open spec fn trim(s: Seq<char>, quotes: bool) -> Seq<char> {
    trim_end(trim_start(s, quotes), quotes)
}

/// Position of the first `c` in `s`, or `s.len()` where there is none.
pub open spec fn index_of(s: Seq<char>, c: char) -> int
    decreases s.len(),
{
    if s.len() == 0 {
        0
    } else if s[0] == c {
        0
    } else {
        1 + index_of(s.drop_first(), c)
    }
}

pub fn trimmed(c: char, quotes: bool) -> (r: bool)
    ensures
        r == trimmed_char(c, quotes),
{
    if quotes {
        c == '"'
    } else {
        is_whitespace(c)
    }
}

/// The bounds, within `s[lo..hi]`, of what remains after trimming.
pub fn trim_bounds(s: &str, lo: usize, hi: usize, quotes: bool) -> (r: (usize, usize))
    requires
        lo <= hi <= s@.len(),
    ensures
        lo <= r.0 <= r.1 <= hi,
        s@.subrange(r.0 as int, r.1 as int) == trim(s@.subrange(lo as int, hi as int), quotes),
{
    let mut a: usize = lo;
    while a < hi && trimmed(s.get_char(a), quotes)
        invariant
            lo <= a <= hi <= s@.len(),
            trim_start(s@.subrange(lo as int, hi as int), quotes) == trim_start(
                s@.subrange(a as int, hi as int),
                quotes,
            ),
        decreases hi - a,
    {
        assert(s@.subrange(a as int, hi as int).drop_first() =~= s@.subrange(
            a + 1,
            hi as int,
        ));
        a = a + 1;
    }
    assert(trim_start(s@.subrange(a as int, hi as int), quotes) == s@.subrange(a as int, hi as int));
    let mut b: usize = hi;
    while b > a && trimmed(s.get_char(b - 1), quotes)
        invariant
            lo <= a <= b <= hi <= s@.len(),
            trim(s@.subrange(lo as int, hi as int), quotes) == trim_end(
                s@.subrange(a as int, b as int),
                quotes,
            ),
        decreases b - a,
    {
        assert(s@.subrange(a as int, b as int).drop_last() =~= s@.subrange(
            a as int,
            b - 1,
        ));
        b = b - 1;
    }
    (a, b)
}

/// The first position of `c` in `s[lo..hi]`, counted from `lo`, or `hi`.
pub fn find_char(s: &str, lo: usize, hi: usize, c: char) -> (r: usize)
    requires
        lo <= hi <= s@.len(),
    ensures
        lo <= r <= hi,
        r - lo == index_of(s@.subrange(lo as int, hi as int), c),
{
    let mut k: usize = lo;
    while k < hi && s.get_char(k) != c
        invariant
            lo <= k <= hi <= s@.len(),
            index_of(s@.subrange(lo as int, hi as int), c) == (k - lo) + index_of(
                s@.subrange(k as int, hi as int),
                c,
            ),
        decreases hi - k,
    {
        assert(s@.subrange(k as int, hi as int).drop_first() =~= s@.subrange(
            k + 1,
            hi as int,
        ));
        k = k + 1;
    }
    k
}

} // verus!
