//! The row that `df -m /` prints for the root file system, and the integers in it.
use crate::error::SshError;
use crate::model::DiskSpace;
use crate::text::{is_whitespace, is_ws, split_start, Split};
use vstd::prelude::*;
use vstd::string::*;

verus! {

/// One more character of a row: white space closes a non-empty field.
pub open spec fn field_step(st: Split<char>, c: char) -> Split<char> {
    if is_ws(c) {
        if st.1.len() > 0 {
            (st.0.push(st.1), Seq::empty())
        } else {
            st
        }
    } else {
        (st.0, st.1.push(c))
    }
}

pub open spec fn field_feed(s: Seq<char>) -> Split<char>
    decreases s.len(),
{
    if s.len() == 0 {
        split_start()
    } else {
        field_step(field_feed(s.drop_last()), s.last())
    }
}

/// The maximal runs of non-white-space characters, as `str::split_whitespace`
/// gives them.
pub open spec fn fields_of(s: Seq<char>) -> Seq<Seq<char>> {
    let st = field_feed(s);
    if st.1.len() > 0 {
        st.0.push(st.1)
    } else {
        st.0
    }
}

pub open spec fn is_digit(c: char) -> bool {
    '0' <= c && c <= '9'
}

pub open spec fn all_digits(s: Seq<char>) -> bool {
    forall|i: int| 0 <= i < s.len() ==> is_digit(#[trigger] s[i])
}

pub open spec fn digits_value(s: Seq<char>) -> nat
    decreases s.len(),
{
    if s.len() == 0 {
        0
    } else {
        digits_value(s.drop_last()) * 10 + (s.last() as nat - '0' as nat) as nat
    }
}

/// `str::parse::<u64>`: an optional `+`, then one or more ASCII digits whose
/// value fits in 64 bits.
pub open spec fn decimal_u64(s: Seq<char>) -> Option<u64> {
    let d = if s.len() > 0 && s[0] == '+' {
        s.drop_first()
    } else {
        s
    };
    if d.len() > 0 && all_digits(d) && digits_value(d) <= u64::MAX {
        Some(digits_value(d) as u64)
    } else {
        None
    }
}

/// A field read as an integer, 0 where it is not one.
pub open spec fn field_value(s: Seq<char>) -> u64 {
    match decimal_u64(s) {
        Some(v) => v,
        None => 0,
    }
}

/// `used` as a share of `total` in whole percent, rounded down; 0 for an
/// empty disk; 255 at most.
pub open spec fn percent_of(used: u64, total: u64) -> u8 {
    if total == 0 {
        0
    } else if (used as int * 100) / (total as int) > 255 {
        255
    } else {
        ((used as int * 100) / (total as int)) as u8
    }
}

/// The disk space that a row states, where it has at least five fields.
pub open spec fn disk_space_of(row: Seq<char>) -> Option<DiskSpace> {
    let f = fields_of(row);
    if f.len() >= 5 {
        let total = field_value(f[1]);
        let used = field_value(f[2]);
        Some(
            DiskSpace {
                total_mb: total,
                used_mb: used,
                available_mb: field_value(f[3]),
                percent_used: percent_of(used, total),
            },
        )
    } else {
        None
    }
}

/// Reads `s[lo..hi]` as a decimal integer.
pub fn parse_decimal(s: &str, lo: usize, hi: usize) -> (r: Option<u64>)
    requires
        lo <= hi <= s@.len(),
    ensures
        r == decimal_u64(s@.subrange(lo as int, hi as int)),
{
    let ghost t = s@.subrange(lo as int, hi as int);
    let mut start: usize = lo;
    if lo < hi && s.get_char(lo) == '+' {
        start = lo + 1;
    }
    let ghost d = s@.subrange(start as int, hi as int);
    assert(d =~= (if t.len() > 0 && t[0] == '+' { t.drop_first() } else { t }));
    if start == hi {
        return None;
    }
    let mut v: u64 = 0;
    let mut big = false;
    let mut i: usize = start;
    while i < hi
        invariant
            lo <= start <= i <= hi <= s@.len(),
            d == s@.subrange(start as int, hi as int),
            t == s@.subrange(lo as int, hi as int),
            d == (if t.len() > 0 && t[0] == '+' { t.drop_first() } else { t }),
            all_digits(s@.subrange(start as int, i as int)),
            big ==> digits_value(s@.subrange(start as int, i as int)) > u64::MAX,
            !big ==> v == digits_value(s@.subrange(start as int, i as int)),
        decreases hi - i,
    {
        let c = s.get_char(i);
        if !('0' <= c && c <= '9') {
            assert(d[i - start] == c);
            assert(!is_digit(d[i - start]));
            return None;
        }
        let ghost p = s@.subrange(start as int, i + 1);
        assert(p.drop_last() =~= s@.subrange(start as int, i as int));
        assert(p.last() == c);
        let dv = (c as u32 - '0' as u32) as u64;
        if !big {
            if v > (u64::MAX - dv) / 10 {
                big = true;
            } else {
                v = v * 10 + dv;
            }
        }
        i = i + 1;
    }
    assert(s@.subrange(start as int, i as int) =~= d);
    if big {
        None
    } else {
        Some(v)
    }
}

/// `used` as a share of `total`, in whole percent.
pub fn percent_used(used: u64, total: u64) -> (r: u8)
    ensures
        r == percent_of(used, total),
{
    if total == 0 {
        0
    } else {
        let q = (used as u128 * 100) / (total as u128);
        if q > 255 {
            255
        } else {
            q as u8
        }
    }
}

/// The bounds of the white-space-separated fields of `s`.
fn field_bounds(s: &str) -> (r: Vec<(usize, usize)>)
    ensures
        r@.len() == fields_of(s@).len(),
        forall|k: int| #![trigger r@[k]] 0 <= k < r@.len() ==> r@[k].0 <= r@[k].1 <= s@.len(),
        forall|k: int|
            0 <= k < r@.len() ==> s@.subrange(r@[k].0 as int, r@[k].1 as int)
                == #[trigger] fields_of(s@)[k],
{
    let n = s.unicode_len();
    let mut spans: Vec<(usize, usize)> = Vec::new();
    let ghost mut closed: Seq<Seq<char>> = Seq::empty();
    let mut start: usize = 0;
    let mut i: usize = 0;
    while i < n
        invariant
            n == s@.len(),
            start <= i <= n,
            field_feed(s@.take(i as int)) == (closed, s@.subrange(start as int, i as int)),
            spans@.len() == closed.len(),
            forall|k: int| #![trigger spans@[k]] 0 <= k < spans@.len() ==> spans@[k].0 <= spans@[k].1 <= n,
            forall|k: int|
                0 <= k < spans@.len() ==> s@.subrange(spans@[k].0 as int, spans@[k].1 as int)
                    == #[trigger] closed[k],
        decreases n - i,
    {
        assert(s@.take(i + 1).drop_last() =~= s@.take(i as int));
        let c = s.get_char(i);
        if is_whitespace(c) {
            if start < i {
                let ghost old_spans = spans@;
                let ghost old_closed = closed;
                proof {
                    closed = closed.push(s@.subrange(start as int, i as int));
                }
                spans.push((start, i));
                assert forall|k: int| 0 <= k < spans@.len() implies spans@[k].0 <= spans@[k].1 <= n
                    && s@.subrange(spans@[k].0 as int, spans@[k].1 as int) == closed[k] by {
                    if k < old_spans.len() {
                        assert(spans@[k] == old_spans[k]);
                        assert(closed[k] == old_closed[k]);
                    }
                }
            }
            start = i + 1;
            assert(s@.subrange(start as int, i + 1) =~= Seq::<char>::empty());
        } else {
            assert(s@.subrange(start as int, i + 1) =~= s@.subrange(start as int, i as int).push(
                c,
            ));
        }
        i = i + 1;
    }
    assert(s@.take(n as int) =~= s@);
    if start < n {
        let ghost old_spans = spans@;
        let ghost old_closed = closed;
        proof {
            closed = closed.push(s@.subrange(start as int, n as int));
        }
        spans.push((start, n));
        assert forall|k: int| 0 <= k < spans@.len() implies spans@[k].0 <= spans@[k].1 <= n
            && s@.subrange(spans@[k].0 as int, spans@[k].1 as int) == closed[k] by {
            if k < old_spans.len() {
                assert(spans@[k] == old_spans[k]);
                assert(closed[k] == old_closed[k]);
            }
        }
    }
    assert(closed == fields_of(s@));
    spans
}

/// Reads the disk space out of the row that `df -m` prints for one file
/// system: the second to fourth fields are the total, used and available
/// megabytes, each 0 where it is not an integer. A row of fewer than five
/// fields is a parse failure.
pub fn parse_disk_space(row: &str) -> (r: Result<DiskSpace, SshError>)
    ensures
        r is Ok <==> disk_space_of(row@) is Some,
        r is Ok ==> r->Ok_0 == disk_space_of(row@)->Some_0,
        r is Err ==> r->Err_0 is Parse,
{
    let spans = field_bounds(row);
    if spans.len() < 5 {
        return Err(SshError::Parse(String::from_str("could not parse the disk space row")));
    }
    let total = match parse_decimal(row, spans[1].0, spans[1].1) {
        Some(v) => v,
        None => 0,
    };
    let used = match parse_decimal(row, spans[2].0, spans[2].1) {
        Some(v) => v,
        None => 0,
    };
    let available = match parse_decimal(row, spans[3].0, spans[3].1) {
        Some(v) => v,
        None => 0,
    };
    Ok(
        DiskSpace {
            total_mb: total,
            used_mb: used,
            available_mb: available,
            percent_used: percent_used(used, total),
        },
    )
}

} // verus!
