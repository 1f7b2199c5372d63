//! Stooq provider symbol derivation from an asset reference.

use crate::shared::text::{
    ascii_lower, ascii_lower_seq, chars_of, is_white_space, lemma_trim_seq_ends, string_of, trim_bounds,
    trim_seq,
};
use vstd::prelude::*;
use vstd::utf8::is_ascii_chars;

verus! {

/// The Stooq symbol of an asset reference: the reference trimmed of white
/// space and lower-cased, or nothing when the trimmed reference is empty or
/// holds a non-ASCII character. A reference already in `ticker.exchange`
/// form passes through the same way.
pub open spec fn spec_stooq_symbol(reference: Seq<char>) -> Option<Seq<char>> {
    let t = trim_seq(reference);
    if t.len() == 0 || !is_ascii_chars(t) {
        None
    } else {
        Some(ascii_lower_seq(t))
    }
}

/// Derives the Stooq provider symbol from an asset reference string.
///
/// Returns `None` when derivation is impossible (empty or white-space-only
/// input, non-ASCII input); otherwise the trimmed reference lower-cased.
pub fn derive_stooq_symbol(reference: &str) -> (symbol: Option<String>)
    ensures
        symbol is Some <==> spec_stooq_symbol(reference@) is Some,
        symbol matches Some(s) ==> Some(s@) == spec_stooq_symbol(reference@),
{
    let cs = chars_of(reference);
    let (lo, hi) = trim_bounds(cs.as_slice());
    if lo == hi {
        return None;
    }
    let ghost t = cs@.subrange(lo as int, hi as int);
    assert(t == trim_seq(reference@));
    let mut out: Vec<char> = Vec::new();
    let mut i: usize = lo;
    while i < hi
        invariant
            lo <= i <= hi <= cs@.len(),
            t == cs@.subrange(lo as int, hi as int),
            t == trim_seq(reference@),
            out@ == ascii_lower_seq(t.subrange(0, i - lo)),
            is_ascii_chars(t.subrange(0, i - lo)),
        decreases hi - i,
    {
        let c = cs[i];
        if !('\0' <= c && c <= '\u{7f}') {
            assert(t[i - lo] == c);
            assert(!is_ascii_chars(t));
            return None;
        }
        let lc = if 'A' <= c && c <= 'Z' {
            ((c as u8) + 32) as char
        } else {
            c
        };
        out.push(lc);
        i = i + 1;
        assert(out@ =~= ascii_lower_seq(t.subrange(0, i - lo)));
        assert(is_ascii_chars(t.subrange(0, i - lo)));
    }
    assert(t.subrange(0, hi - lo) =~= t);
    Some(string_of(out.as_slice()))
}

/// A reference that is already trimmed, non-empty, ASCII and free of
/// upper-case letters is its own symbol.
pub proof fn lemma_stooq_symbol_keeps_lowercase(reference: Seq<char>)
    requires
        reference.len() > 0,
        trim_seq(reference) == reference,
        is_ascii_chars(reference),
        forall|i: int| 0 <= i < reference.len() ==> !('A' <= #[trigger] reference[i] <= 'Z'),
    ensures
        spec_stooq_symbol(reference) == Some(reference),
{
    assert(ascii_lower_seq(reference) =~= reference);
}

/// Deriving is idempotent: a derived symbol derives to itself.
pub proof fn lemma_stooq_symbol_idempotent(reference: Seq<char>)
    requires
        spec_stooq_symbol(reference) is Some,
    ensures
        spec_stooq_symbol(spec_stooq_symbol(reference)->0) == spec_stooq_symbol(reference),
{
    let t = trim_seq(reference);
    let s = ascii_lower_seq(t);
    lemma_trim_seq_ends(reference);
    assert forall|i: int| 0 <= i < s.len() implies '\0' <= #[trigger] s[i] <= '\u{7f}'
        && !('A' <= s[i] <= 'Z') && (is_white_space(s[i]) == is_white_space(t[i])) by {
        assert(s[i] == ascii_lower(t[i]));
    }
    assert(s[0] == ascii_lower(t[0]));
    assert(s.last() == s[s.len() - 1]);
    assert(trim_seq(s) == s);
    lemma_stooq_symbol_keeps_lowercase(s);
}

} // verus!
