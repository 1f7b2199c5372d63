//! The Stooq quote CSV: a header line, then one data row whose seventh
//! comma-separated field is the close price.

use crate::shared::text::{chars_of, string_of, trim_bounds, trim_seq};
use vstd::prelude::*;

verus! {

/// Zero-based column of the close price in a Stooq data row.
pub const CSV_CLOSE_COLUMN_INDEX: usize = 6;

/// Why a Stooq CSV answer holds no close field.
#[derive(Debug, Clone, Copy, PartialEq, Eq, Structural)]
pub enum StooqCsvError {
    /// There is no second line.
    MissingDataRow,
    /// The data row has fewer than seven fields.
    MissingCloseColumn,
}

/// The close field of a data row: as written, and trimmed of white space.
#[derive(Debug, Clone)]
pub struct CloseField {
    pub raw: String,
    pub trimmed: String,
}

/// Index of the first `c` in `s`.
pub open spec fn find_char(s: Seq<char>, c: char) -> Option<int>
    decreases s.len(),
{
    if s.len() == 0 {
        None
    } else if s[0] == c {
        Some(0)
    } else {
        match find_char(s.drop_first(), c) {
            Some(i) => Some(i + 1),
            None => None,
        }
    }
}

/// `line` without the carriage return that ends it, if any.
pub open spec fn strip_cr(line: Seq<char>) -> Seq<char> {
    if line.len() > 0 && line.last() == '\r' {
        line.drop_last()
    } else {
        line
    }
}

/// Line `k` of `s` as `str::lines` yields it: lines end at `\n`, a `\r`
/// just before that `\n` is dropped, and a final line ending is optional.
pub open spec fn nth_line(s: Seq<char>, k: nat) -> Option<Seq<char>>
    decreases s.len(),
{
    if s.len() == 0 {
        None
    } else {
        match find_char(s, '\n') {
            None => if k == 0 { Some(s) } else { None },
            Some(p) => if k == 0 {
                Some(strip_cr(s.take(p)))
            } else {
                proof {
                    lemma_find_char_bound(s, '\n');
                }
                nth_line(s.skip(p + 1), (k - 1) as nat)
            },
        }
    }
}

/// Field `k` of `row` as `str::split(',')` yields it.
pub open spec fn nth_field(row: Seq<char>, k: nat) -> Option<Seq<char>>
    decreases row.len(),
{
    match find_char(row, ',') {
        None => if k == 0 { Some(row) } else { None },
        Some(p) => if k == 0 {
            Some(row.take(p))
        } else {
            proof {
                lemma_find_char_bound(row, ',');
            }
            nth_field(row.skip(p + 1), (k - 1) as nat)
        },
    }
}

/// The close field of a Stooq CSV answer: field seven of line two.
pub open spec fn spec_close_field(csv: Seq<char>) -> Result<Seq<char>, StooqCsvError> {
    match nth_line(csv, 1) {
        None => Err(StooqCsvError::MissingDataRow),
        Some(row) => match nth_field(row, CSV_CLOSE_COLUMN_INDEX as nat) {
            None => Err(StooqCsvError::MissingCloseColumn),
            Some(field) => Ok(field),
        },
    }
}

/// Where `find_char` finds `c`, the index lies in `s` and holds `c`.
pub proof fn lemma_find_char_bound(s: Seq<char>, c: char)
    ensures
        find_char(s, c) matches Some(i) ==> 0 <= i < s.len() && s[i] == c,
    decreases s.len(),
{
    if s.len() > 0 && s[0] != c {
        lemma_find_char_bound(s.drop_first(), c);
    }
}

/// The first `c` in `cs[lo..hi]`, as an index into `cs`.
fn find_in(cs: &[char], lo: usize, hi: usize, c: char) -> (r: Option<usize>)
    requires
        lo <= hi <= cs@.len(),
    ensures
        match find_char(cs@.subrange(lo as int, hi as int), c) {
            None => r is None,
            Some(i) => r == Some((lo + i) as usize),
        },
{
    let mut i = lo;
    while i < hi
        invariant
            lo <= i <= hi <= cs@.len(),
            find_char(cs@.subrange(lo as int, hi as int), c) == match find_char(cs@.subrange(i as int, hi as int), c) {
                Some(j) => Some(j + (i - lo)),
                None => None,
            },
        decreases hi - i,
    {
        if cs[i] == c {
            assert(cs@.subrange(i as int, hi as int)[0] == c);
            return Some(i);
        }
        assert(cs@.subrange(i as int, hi as int).drop_first() =~= cs@.subrange(i + 1, hi as int));
        i = i + 1;
    }
    assert(cs@.subrange(i as int, hi as int).len() == 0);
    None
}

/// Bounds of the second line of `cs`, without its line ending.
fn data_row_bounds(cs: &[char]) -> (r: Option<(usize, usize)>)
    ensures
        match r {
            None => nth_line(cs@, 1) is None,
            Some((lo, hi)) => lo <= hi <= cs@.len() && nth_line(cs@, 1) == Some(
                cs@.subrange(lo as int, hi as int),
            ),
        },
{
    let n = cs.len();
    let ghost s = cs@;
    assert(s.subrange(0, n as int) =~= s);
    let p = match find_in(cs, 0, n, '\n') {
        None => {
            return None;
        },
        Some(p) => p,
    };
    proof {
        lemma_find_char_bound(s, '\n');
    }
    let ghost rest = s.skip(p + 1);
    assert(rest =~= s.subrange(p + 1, n as int));
    if p + 1 == n {
        assert(rest.len() == 0);
        return None;
    }
    let row_hi = match find_in(cs, p + 1, n, '\n') {
        None => n,
        Some(q) => {
            proof {
                lemma_find_char_bound(rest, '\n');
            }
            if q > p + 1 && cs[q - 1] == '\r' {
                q - 1
            } else {
                q
            }
        },
    };
    let ghost row = s.subrange(p + 1, row_hi as int);
    assert(nth_line(rest, 0) == Some(row)) by {
        match find_char(rest, '\n') {
            None => {
                assert(rest =~= row);
            },
            Some(q) => {
                assert(rest.take(q) =~= s.subrange(p + 1, p + 1 + q));
                if q > 0 && s[p + q] == '\r' {
                    assert(rest.take(q).drop_last() =~= row);
                } else {
                    assert(rest.take(q) =~= row);
                }
            },
        }
    }
    Some((p + 1, row_hi))
}

/// Bounds of field `k` of the row `cs[lo..hi]`.
fn field_bounds(cs: &[char], lo: usize, hi: usize, k: usize) -> (r: Option<(usize, usize)>)
    requires
        lo <= hi <= cs@.len(),
    ensures
        match r {
            None => nth_field(cs@.subrange(lo as int, hi as int), k as nat) is None,
            Some((a, b)) => lo <= a <= b <= hi && nth_field(
                cs@.subrange(lo as int, hi as int),
                k as nat,
            ) == Some(cs@.subrange(a as int, b as int)),
        },
{
    let ghost s = cs@;
    let mut a = lo;
    let mut j: usize = 0;
    while j < k
        invariant
            lo <= a <= hi <= cs@.len(),
            s == cs@,
            j <= k,
            nth_field(s.subrange(lo as int, hi as int), k as nat) == nth_field(
                s.subrange(a as int, hi as int),
                (k - j) as nat,
            ),
        decreases k - j,
    {
        let ghost src = s.subrange(a as int, hi as int);
        match find_in(cs, a, hi, ',') {
            None => {
                return None;
            },
            Some(c) => {
                proof {
                    lemma_find_char_bound(src, ',');
                    assert(src.skip(c - a + 1) =~= s.subrange(c + 1, hi as int));
                }
                a = c + 1;
            },
        }
        j = j + 1;
    }
    let ghost last = s.subrange(a as int, hi as int);
    let b = match find_in(cs, a, hi, ',') {
        None => hi,
        Some(c) => {
            proof {
                lemma_find_char_bound(last, ',');
                assert(last.take(c - a) =~= s.subrange(a as int, c as int));
            }
            c
        },
    };
    Some((a, b))
}

/// The characters `cs[lo..hi]`, copied.
fn copy_range(cs: &[char], lo: usize, hi: usize) -> (v: Vec<char>)
    requires
        lo <= hi <= cs@.len(),
    ensures
        v@ == cs@.subrange(lo as int, hi as int),
{
    let mut v: Vec<char> = Vec::new();
    let mut i = lo;
    while i < hi
        invariant
            lo <= i <= hi <= cs@.len(),
            v@ == cs@.subrange(lo as int, i as int),
        decreases hi - i,
    {
        v.push(cs[i]);
        i = i + 1;
        assert(v@ =~= cs@.subrange(lo as int, i as int));
    }
    v
}

/// Extracts the close field of a Stooq quote CSV answer: the seventh
/// comma-separated field of the second line, as written and trimmed.
pub fn close_field(csv: &str) -> (r: Result<CloseField, StooqCsvError>)
    ensures
        match spec_close_field(csv@) {
            Err(e) => r == Err::<CloseField, StooqCsvError>(e),
            Ok(field) => r matches Ok(f) && f.raw@ == field && f.trimmed@ == trim_seq(field),
        },
{
    let cs = chars_of(csv);
    let (lo, hi) = match data_row_bounds(cs.as_slice()) {
        None => {
            return Err(StooqCsvError::MissingDataRow);
        },
        Some(b) => b,
    };
    let (a, b) = match field_bounds(cs.as_slice(), lo, hi, CSV_CLOSE_COLUMN_INDEX) {
        None => {
            return Err(StooqCsvError::MissingCloseColumn);
        },
        Some(f) => f,
    };
    let raw_vec = copy_range(cs.as_slice(), a, b);
    let (tlo, thi) = trim_bounds(raw_vec.as_slice());
    let raw = string_of(raw_vec.as_slice());
    let trimmed_vec = copy_range(raw_vec.as_slice(), tlo, thi);
    let trimmed = string_of(trimmed_vec.as_slice());
    Ok(CloseField { raw, trimmed })
}

} // verus!
