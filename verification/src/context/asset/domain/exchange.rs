//! The curated catalogue of supported exchanges, keyed by ISO 10383 MIC.

use crate::shared::text::{str_eq, trim_seq};
use vstd::prelude::*;

verus! {

/// A canonical trading venue: its MIC code and a display label.
#[derive(Debug, Clone)]
pub struct Exchange {
    /// ISO 10383 market identifier code, e.g. `XPAR`.
    pub code: String,
    /// Human-readable venue name.
    pub label: String,
}

/// What an exchange is: its code and its label as character sequences.
pub struct ExchangeView {
    pub code: Seq<char>,
    pub label: Seq<char>,
}

impl View for Exchange {
    type V = ExchangeView;

    open spec fn view(&self) -> ExchangeView {
        ExchangeView { code: self.code@, label: self.label@ }
    }
}

/// The curated venues, in catalogue order.
pub open spec fn catalogue() -> Seq<ExchangeView> {
    seq![
        ExchangeView { code: "XPAR"@, label: "Euronext Paris"@ },
        ExchangeView { code: "XNAS"@, label: "Nasdaq"@ },
        ExchangeView { code: "XNYS"@, label: "New York Stock Exchange"@ },
        ExchangeView { code: "XLON"@, label: "London Stock Exchange"@ },
        ExchangeView { code: "XETR"@, label: "Xetra"@ },
        ExchangeView { code: "XAMS"@, label: "Euronext Amsterdam"@ },
        ExchangeView { code: "XBRU"@, label: "Euronext Brussels"@ },
        ExchangeView { code: "XMIL"@, label: "Borsa Italiana"@ },
        ExchangeView { code: "XMAD"@, label: "Bolsa de Madrid"@ },
        ExchangeView { code: "XSWX"@, label: "SIX Swiss Exchange"@ },
        ExchangeView { code: "XTSE"@, label: "Toronto Stock Exchange"@ },
        ExchangeView { code: "XHKG"@, label: "Hong Kong Stock Exchange"@ },
        ExchangeView { code: "XTKS"@, label: "Tokyo Stock Exchange"@ },
        ExchangeView { code: "XASX"@, label: "Australian Securities Exchange"@ },
    ]
}

/// The first of `entries` whose code is `code`.
pub open spec fn first_with_code(entries: Seq<ExchangeView>, code: Seq<char>) -> Option<ExchangeView>
    decreases entries.len(),
{
    if entries.len() == 0 {
        None
    } else if entries[0].code == code {
        Some(entries[0])
    } else {
        first_with_code(entries.drop_first(), code)
    }
}

fn make(code: &str, label: &str) -> (e: Exchange)
    ensures
        e@ == (ExchangeView { code: code@, label: label@ }),
{
    Exchange { code: code.to_owned(), label: label.to_owned() }
}

/// Every supported exchange, in catalogue order.
pub fn all() -> (exchanges: Vec<Exchange>)
    ensures
        exchanges@.map_values(|e: Exchange| e@) == catalogue(),
{
    let mut v: Vec<Exchange> = Vec::new();
    v.push(make("XPAR", "Euronext Paris"));
    v.push(make("XNAS", "Nasdaq"));
    v.push(make("XNYS", "New York Stock Exchange"));
    v.push(make("XLON", "London Stock Exchange"));
    v.push(make("XETR", "Xetra"));
    v.push(make("XAMS", "Euronext Amsterdam"));
    v.push(make("XBRU", "Euronext Brussels"));
    v.push(make("XMIL", "Borsa Italiana"));
    v.push(make("XMAD", "Bolsa de Madrid"));
    v.push(make("XSWX", "SIX Swiss Exchange"));
    v.push(make("XTSE", "Toronto Stock Exchange"));
    v.push(make("XHKG", "Hong Kong Stock Exchange"));
    v.push(make("XTKS", "Tokyo Stock Exchange"));
    v.push(make("XASX", "Australian Securities Exchange"));
    assert(v@.map_values(|e: Exchange| e@) =~= catalogue());
    v
}

/// The supported exchange whose MIC is `code`, if any.
pub fn lookup(code: &str) -> (found: Option<Exchange>)
    ensures
        found is Some <==> first_with_code(catalogue(), code@) is Some,
        found matches Some(e) ==> Some(e@) == first_with_code(catalogue(), code@),
{
    let exchanges = all();
    let ghost cat = catalogue();
    let mut i: usize = 0;
    assert(cat.skip(0) =~= cat);
    while i < exchanges.len()
        invariant
            exchanges@.map_values(|e: Exchange| e@) == cat,
            cat == catalogue(),
            i <= exchanges@.len(),
            first_with_code(cat, code@) == first_with_code(cat.skip(i as int), code@),
        decreases exchanges@.len() - i,
    {
        let ghost rest = cat.skip(i as int);
        assert(rest[0] == exchanges@[i as int]@);
        assert(rest.drop_first() =~= cat.skip(i + 1));
        if str_eq(exchanges[i].code.as_str(), code) {
            let e = &exchanges[i];
            return Some(Exchange { code: e.code.clone(), label: e.label.clone() });
        }
        i = i + 1;
    }
    assert(cat.skip(i as int).len() == 0);
    None
}

/// The catalogue lists each MIC once.
pub proof fn lemma_catalogue_codes_distinct()
    ensures
        forall|i: int, j: int|
            0 <= i < j < catalogue().len() ==> catalogue()[i].code != catalogue()[j].code,
{
    reveal_strlit("XPAR");
    reveal_strlit("XNAS");
    reveal_strlit("XNYS");
    reveal_strlit("XLON");
    reveal_strlit("XETR");
    reveal_strlit("XAMS");
    reveal_strlit("XBRU");
    reveal_strlit("XMIL");
    reveal_strlit("XMAD");
    reveal_strlit("XSWX");
    reveal_strlit("XTSE");
    reveal_strlit("XHKG");
    reveal_strlit("XTKS");
    reveal_strlit("XASX");
    let c = catalogue();
    assert forall|i: int, j: int| 0 <= i < j < c.len() implies c[i].code != c[j].code by {
        if c[i].code == c[j].code {
            assert(c[i].code[1] == c[j].code[1]);
            assert(c[i].code[2] == c[j].code[2]);
            assert(c[i].code[3] == c[j].code[3]);
        }
    }
}

/// Looking up the MIC of any catalogue entry yields that entry.
pub proof fn lemma_catalogue_resolves_by_code()
    ensures
        forall|i: int|
            0 <= i < catalogue().len() ==> first_with_code(catalogue(), #[trigger] catalogue()[i].code)
                == Some(catalogue()[i]),
{
    lemma_catalogue_codes_distinct();
    let c = catalogue();
    assert forall|i: int| 0 <= i < c.len() implies first_with_code(c, #[trigger] c[i].code) == Some(c[i]) by {
        lemma_first_with_code_at(c, c[i].code, i);
    }
}

proof fn lemma_first_with_code_at(entries: Seq<ExchangeView>, code: Seq<char>, k: int)
    requires
        0 <= k < entries.len(),
        entries[k].code == code,
        forall|j: int| 0 <= j < k ==> entries[j].code != code,
    ensures
        first_with_code(entries, code) == Some(entries[k]),
    decreases k,
{
    if k > 0 {
        lemma_first_with_code_at(entries.drop_first(), code, k - 1);
    }
}

/// Every catalogue entry carries a label that is not blank.
pub proof fn lemma_catalogue_labels_not_blank()
    ensures
        forall|i: int| 0 <= i < catalogue().len() ==> trim_seq(#[trigger] catalogue()[i].label).len() > 0,
{
    reveal_strlit("Euronext Paris");
    reveal_strlit("Nasdaq");
    reveal_strlit("New York Stock Exchange");
    reveal_strlit("London Stock Exchange");
    reveal_strlit("Xetra");
    reveal_strlit("Euronext Amsterdam");
    reveal_strlit("Euronext Brussels");
    reveal_strlit("Borsa Italiana");
    reveal_strlit("Bolsa de Madrid");
    reveal_strlit("SIX Swiss Exchange");
    reveal_strlit("Toronto Stock Exchange");
    reveal_strlit("Hong Kong Stock Exchange");
    reveal_strlit("Tokyo Stock Exchange");
    reveal_strlit("Australian Securities Exchange");
    let c = catalogue();
    assert forall|i: int| 0 <= i < c.len() implies trim_seq(#[trigger] c[i].label).len() > 0 by {
        let l = c[i].label;
        assert(l.len() > 0);
        assert(!crate::shared::text::is_white_space(l[0]));
        assert(!crate::shared::text::is_white_space(l.last()));
        assert(trim_seq(l) == l);
    }
}

} // verus!
