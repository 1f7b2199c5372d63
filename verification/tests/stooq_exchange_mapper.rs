use vault_compass::context::asset::exchange::all;
use vault_compass::context::asset::{exchange_to_stooq_suffix, Exchange};

fn make_exchange(code: &str) -> Exchange {
    Exchange {
        code: code.to_string(),
        label: format!("Test exchange {code}"),
    }
}

#[test]
fn xpar_maps_to_fr() {
    let exchange = make_exchange("XPAR");
    let suffix = exchange_to_stooq_suffix(&exchange);
    assert_eq!(suffix, Some("fr"), "XPAR must map to \"fr\"");
}

#[test]
fn xetr_maps_to_de() {
    let exchange = make_exchange("XETR");
    let suffix = exchange_to_stooq_suffix(&exchange);
    assert_eq!(suffix, Some("de"), "XETR must map to \"de\"");
}

#[test]
fn xnys_maps_to_us() {
    let exchange = make_exchange("XNYS");
    let suffix = exchange_to_stooq_suffix(&exchange);
    assert_eq!(suffix, Some("us"), "XNYS must map to \"us\"");
}

#[test]
fn xnas_maps_to_us() {
    let exchange = make_exchange("XNAS");
    let suffix = exchange_to_stooq_suffix(&exchange);
    assert_eq!(suffix, Some("us"), "XNAS must map to \"us\"");
}

#[test]
fn xlon_maps_to_uk() {
    let exchange = make_exchange("XLON");
    let suffix = exchange_to_stooq_suffix(&exchange);
    assert_eq!(suffix, Some("uk"), "XLON must map to \"uk\"");
}

#[test]
fn all_canonical_exchanges_return_a_suffix() {
    let exchanges = all();
    for exchange in &exchanges {
        let suffix = exchange_to_stooq_suffix(exchange);
        assert!(
            suffix.is_some(),
            "canonical exchange {} has no Stooq suffix mapping",
            exchange.code
        );
    }
}

#[test]
fn all_canonical_exchanges_return_non_empty_suffix() {
    let exchanges = all();
    for exchange in &exchanges {
        if let Some(suffix) = exchange_to_stooq_suffix(exchange) {
            assert!(
                !suffix.is_empty(),
                "exchange {} returned an empty Stooq suffix",
                exchange.code
            );
        }
    }
}

#[test]
fn unknown_exchange_returns_none() {
    let unknown = make_exchange("BOGUS");
    let suffix = exchange_to_stooq_suffix(&unknown);
    assert!(suffix.is_none(), "got: {suffix:?}");
}

#[test]
fn non_curated_mic_format_returns_none() {
    let non_curated = make_exchange("XBOG");
    let suffix = exchange_to_stooq_suffix(&non_curated);
    assert!(suffix.is_none(), "got: {suffix:?}");
}

#[test]
fn mapping_reads_the_code_not_the_label() {
    let exchange = Exchange {
        code: "XTKS".to_string(),
        label: String::new(),
    };
    assert_eq!(exchange_to_stooq_suffix(&exchange), Some("jp"));
    let lower = make_exchange("xpar");
    assert_eq!(exchange_to_stooq_suffix(&lower), None);
}
