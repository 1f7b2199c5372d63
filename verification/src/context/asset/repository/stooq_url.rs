//! The Stooq quote endpoint's address for a symbol.

use vstd::prelude::*;

verus! {

/// The quote address of `symbol`: the endpoint's template with the symbol
/// in its one placeholder, asking for symbol, date, time, open, high, low,
/// close and volume as CSV with a header line.
pub open spec fn spec_stooq_quote_url(symbol: Seq<char>) -> Seq<char> {
    "https://stooq.com/q/l/?s="@ + symbol + "&f=sd2t2ohlcv&h&e=csv"@
}

/// The address holds the whole symbol, and nothing else varies: it is 46
/// characters longer than the symbol, the symbol stands at characters
/// 25 onwards, the 25 before it are `https://stooq.com/q/l/?s=` and the 21
/// after it are `&f=sd2t2ohlcv&h&e=csv`.
pub proof fn lemma_stooq_quote_url_holds_symbol(symbol: Seq<char>)
    ensures
        spec_stooq_quote_url(symbol).len() == symbol.len() + 46,
        spec_stooq_quote_url(symbol).subrange(25, 25 + symbol.len() as int) == symbol,
        spec_stooq_quote_url(symbol).subrange(0, 25) == seq![
            'h', 't', 't', 'p', 's', ':', '/', '/', 's', 't', 'o', 'o', 'q', '.', 'c', 'o', 'm', '/',
            'q', '/', 'l', '/', '?', 's', '=',
        ],
        spec_stooq_quote_url(symbol).subrange(25 + symbol.len() as int, 46 + symbol.len() as int) == seq![
            '&', 'f', '=', 's', 'd', '2', 't', '2', 'o', 'h', 'l', 'c', 'v', '&', 'h', '&', 'e', '=', 'c',
            's', 'v',
        ],
{
    reveal_strlit("https://stooq.com/q/l/?s=");
    reveal_strlit("&f=sd2t2ohlcv&h&e=csv");
    let u = spec_stooq_quote_url(symbol);
    assert(u.subrange(25, 25 + symbol.len() as int) =~= symbol);
    assert(u.subrange(0, 25) =~= "https://stooq.com/q/l/?s="@);
    assert(u.subrange(25 + symbol.len() as int, 46 + symbol.len() as int) =~= "&f=sd2t2ohlcv&h&e=csv"@);
}

/// Different symbols give different addresses: the symbol can be read back
/// from its address.
pub proof fn lemma_stooq_quote_url_injective(a: Seq<char>, b: Seq<char>)
    requires
        spec_stooq_quote_url(a) == spec_stooq_quote_url(b),
    ensures
        a == b,
{
    lemma_stooq_quote_url_holds_symbol(a);
    lemma_stooq_quote_url_holds_symbol(b);
}

/// The Stooq quote address of `symbol`.
pub fn stooq_quote_url(symbol: &str) -> (url: String)
    ensures
        url@ == spec_stooq_quote_url(symbol@),
        url@.len() == symbol@.len() + 46,
        url@.subrange(25, 25 + symbol@.len() as int) == symbol@,
{
    let mut url = "https://stooq.com/q/l/?s=".to_owned();
    url.append(symbol);
    url.append("&f=sd2t2ohlcv&h&e=csv");
    proof {
        lemma_stooq_quote_url_holds_symbol(symbol@);
    }
    url
}

} // verus!
