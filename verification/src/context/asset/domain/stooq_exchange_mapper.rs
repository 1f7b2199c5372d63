//! Stooq outbound mapper: resolves a canonical exchange to its Stooq venue
//! suffix. An exchange outside the mapping table has no suffix (mapper gap),
//! and its asset is left out of a fetch.

use crate::context::asset::domain::exchange::{catalogue, lemma_catalogue_codes_distinct, Exchange};
use crate::shared::text::str_eq;
use vstd::prelude::*;

verus! {

/// Canonical exchange MIC to Stooq venue suffix, mirroring Stooq's URL
/// scheme where a symbol reads `{ticker}.{suffix}` (e.g. `ai.fr` for Air
/// Liquide on Euronext Paris).
pub open spec fn stooq_suffix_table() -> Seq<(Seq<char>, Seq<char>)> {
    seq![
        ("XPAR"@, "fr"@),
        ("XNAS"@, "us"@),
        ("XNYS"@, "us"@),
        ("XLON"@, "uk"@),
        ("XETR"@, "de"@),
        ("XAMS"@, "nl"@),
        ("XBRU"@, "be"@),
        ("XMIL"@, "it"@),
        ("XMAD"@, "es"@),
        ("XSWX"@, "ch"@),
        ("XTSE"@, "ca"@),
        ("XHKG"@, "hk"@),
        ("XTKS"@, "jp"@),
        ("XASX"@, "au"@),
    ]
}

/// The suffix of the first table row whose MIC is `code`.
pub open spec fn first_suffix(table: Seq<(Seq<char>, Seq<char>)>, code: Seq<char>) -> Option<Seq<char>>
    decreases table.len(),
{
    if table.len() == 0 {
        None
    } else if table[0].0 == code {
        Some(table[0].1)
    } else {
        first_suffix(table.drop_first(), code)
    }
}

/// The Stooq suffix of the exchange whose MIC is `code`.
pub open spec fn spec_stooq_suffix(code: Seq<char>) -> Option<Seq<char>> {
    first_suffix(stooq_suffix_table(), code)
}

fn suffix_rows() -> (rows: Vec<(&'static str, &'static str)>)
    ensures
        rows@.map_values(|r: (&'static str, &'static str)| (r.0@, r.1@)) == stooq_suffix_table(),
{
    let mut v: Vec<(&'static str, &'static str)> = Vec::new();
    v.push(("XPAR", "fr"));
    v.push(("XNAS", "us"));
    v.push(("XNYS", "us"));
    v.push(("XLON", "uk"));
    v.push(("XETR", "de"));
    v.push(("XAMS", "nl"));
    v.push(("XBRU", "be"));
    v.push(("XMIL", "it"));
    v.push(("XMAD", "es"));
    v.push(("XSWX", "ch"));
    v.push(("XTSE", "ca"));
    v.push(("XHKG", "hk"));
    v.push(("XTKS", "jp"));
    v.push(("XASX", "au"));
    assert(v@.map_values(|r: (&'static str, &'static str)| (r.0@, r.1@)) =~= stooq_suffix_table());
    v
}

/// Maps a canonical exchange to its Stooq venue suffix.
///
/// Returns `Some(suffix)` for exchanges in the mapping table, `None` for
/// exchanges outside it.
pub fn exchange_to_stooq_suffix(exchange: &Exchange) -> (suffix: Option<&'static str>)
    ensures
        suffix is Some <==> spec_stooq_suffix(exchange.code@) is Some,
        suffix matches Some(s) ==> Some(s@) == spec_stooq_suffix(exchange.code@),
{
    let rows = suffix_rows();
    let ghost table = stooq_suffix_table();
    let mut i: usize = 0;
    assert(table.skip(0) =~= table);
    while i < rows.len()
        invariant
            rows@.map_values(|r: (&'static str, &'static str)| (r.0@, r.1@)) == table,
            table == stooq_suffix_table(),
            i <= rows@.len(),
            first_suffix(table, exchange.code@) == first_suffix(table.skip(i as int), exchange.code@),
        decreases rows@.len() - i,
    {
        let ghost rest = table.skip(i as int);
        assert(rest[0] == (rows@[i as int].0@, rows@[i as int].1@));
        assert(rest.drop_first() =~= table.skip(i + 1));
        let (mic, suffix) = rows[i];
        if str_eq(mic, exchange.code.as_str()) {
            return Some(suffix);
        }
        i = i + 1;
    }
    assert(table.skip(i as int).len() == 0);
    None
}

/// Every exchange of the catalogue has a Stooq suffix, and no suffix is
/// empty.
pub proof fn lemma_catalogue_fully_mapped()
    ensures
        forall|i: int|
            0 <= i < catalogue().len() ==> #[trigger] spec_stooq_suffix(catalogue()[i].code) is Some,
        forall|i: int|
            0 <= i < catalogue().len() ==> spec_stooq_suffix(#[trigger] catalogue()[i].code)->0.len() > 0,
{
    reveal_strlit("fr");
    reveal_strlit("us");
    reveal_strlit("uk");
    reveal_strlit("de");
    reveal_strlit("nl");
    reveal_strlit("be");
    reveal_strlit("it");
    reveal_strlit("es");
    reveal_strlit("ch");
    reveal_strlit("ca");
    reveal_strlit("hk");
    reveal_strlit("jp");
    reveal_strlit("au");
    let t = stooq_suffix_table();
    let c = catalogue();
    lemma_catalogue_codes_distinct();
    assert(t.len() == c.len());
    assert forall|j: int| 0 <= j < t.len() implies #[trigger] t[j].0 == c[j].code by {}
    assert forall|i: int| 0 <= i < c.len() implies spec_stooq_suffix(c[i].code) is Some
        && spec_stooq_suffix(c[i].code)->0.len() > 0 by {
        lemma_first_suffix_at(t, c[i].code, i);
    }
}

/// When row `k` of `table` is the first with MIC `code`, the search finds it.
/// The venue suffix of each supported MIC: Euronext Paris `fr`, Nasdaq and
/// NYSE `us`, London `uk`, Xetra `de`, Amsterdam `nl`, Brussels `be`, Borsa
/// Italiana `it`, Madrid `es`, SIX `ch`, Toronto `ca`, Hong Kong `hk`, Tokyo
/// `jp`, ASX `au`.
pub proof fn lemma_stooq_suffix_per_venue()
    ensures
        spec_stooq_suffix("XPAR"@) == Some("fr"@),
        spec_stooq_suffix("XNAS"@) == Some("us"@),
        spec_stooq_suffix("XNYS"@) == Some("us"@),
        spec_stooq_suffix("XLON"@) == Some("uk"@),
        spec_stooq_suffix("XETR"@) == Some("de"@),
        spec_stooq_suffix("XAMS"@) == Some("nl"@),
        spec_stooq_suffix("XBRU"@) == Some("be"@),
        spec_stooq_suffix("XMIL"@) == Some("it"@),
        spec_stooq_suffix("XMAD"@) == Some("es"@),
        spec_stooq_suffix("XSWX"@) == Some("ch"@),
        spec_stooq_suffix("XTSE"@) == Some("ca"@),
        spec_stooq_suffix("XHKG"@) == Some("hk"@),
        spec_stooq_suffix("XTKS"@) == Some("jp"@),
        spec_stooq_suffix("XASX"@) == Some("au"@),
{
    let t = stooq_suffix_table();
    let c = catalogue();
    lemma_catalogue_codes_distinct();
    assert forall|j: int| 0 <= j < t.len() implies #[trigger] t[j].0 == c[j].code by {}
    lemma_first_suffix_at(t, "XPAR"@, 0);
    lemma_first_suffix_at(t, "XNAS"@, 1);
    lemma_first_suffix_at(t, "XNYS"@, 2);
    lemma_first_suffix_at(t, "XLON"@, 3);
    lemma_first_suffix_at(t, "XETR"@, 4);
    lemma_first_suffix_at(t, "XAMS"@, 5);
    lemma_first_suffix_at(t, "XBRU"@, 6);
    lemma_first_suffix_at(t, "XMIL"@, 7);
    lemma_first_suffix_at(t, "XMAD"@, 8);
    lemma_first_suffix_at(t, "XSWX"@, 9);
    lemma_first_suffix_at(t, "XTSE"@, 10);
    lemma_first_suffix_at(t, "XHKG"@, 11);
    lemma_first_suffix_at(t, "XTKS"@, 12);
    lemma_first_suffix_at(t, "XASX"@, 13);
}

proof fn lemma_first_suffix_at(table: Seq<(Seq<char>, Seq<char>)>, code: Seq<char>, k: int)
    requires
        0 <= k < table.len(),
        table[k].0 == code,
        forall|j: int| 0 <= j < k ==> table[j].0 != code,
    ensures
        first_suffix(table, code) == Some(table[k].1),
    decreases k,
{
    if k > 0 {
        lemma_first_suffix_at(table.drop_first(), code, k - 1);
    }
}

} // verus!
