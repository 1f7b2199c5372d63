use vault_compass::context::asset::repository::stooq_url::stooq_quote_url;

#[test]
fn quote_url_puts_the_symbol_in_the_template() {
    assert_eq!(
        stooq_quote_url("aapl.us"),
        "https://stooq.com/q/l/?s=aapl.us&f=sd2t2ohlcv&h&e=csv"
    );
}

#[test]
fn quote_url_of_an_empty_symbol() {
    assert_eq!(stooq_quote_url(""), "https://stooq.com/q/l/?s=&f=sd2t2ohlcv&h&e=csv");
}
