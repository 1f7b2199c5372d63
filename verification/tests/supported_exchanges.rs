use vault_compass::context::asset::exchange;

#[test]
fn get_supported_exchanges_returns_non_empty_set() {
    let exchanges = exchange::all();
    assert!(!exchanges.is_empty(), "get_supported_exchanges must return a non-empty set");
}

#[test]
fn get_supported_exchanges_count_is_at_least_14() {
    let exchanges = exchange::all();
    assert!(
        exchanges.len() >= 14,
        "must contain at least the 14 locked venues, got: {}",
        exchanges.len()
    );
}

#[test]
fn get_supported_exchanges_contains_all_plan_locked_mics() {
    let exchanges = exchange::all();
    let codes: Vec<&str> = exchanges.iter().map(|e| e.code.as_str()).collect();
    let required = [
        "XPAR", "XNAS", "XNYS", "XLON", "XETR", "XAMS", "XBRU", "XMIL", "XMAD", "XSWX", "XTSE",
        "XHKG", "XTKS", "XASX",
    ];
    for mic in &required {
        assert!(codes.contains(mic), "result is missing required MIC: {mic}");
    }
}

#[test]
fn get_supported_exchanges_has_no_duplicate_codes() {
    let exchanges = exchange::all();
    let mut seen = std::collections::HashSet::new();
    for exchange in &exchanges {
        assert!(
            seen.insert(exchange.code.as_str()),
            "duplicate MIC code: {}",
            exchange.code
        );
    }
}

#[test]
fn get_supported_exchanges_every_entry_has_non_empty_label() {
    let exchanges = exchange::all();
    for exchange in &exchanges {
        assert!(
            !exchange.label.trim().is_empty(),
            "exchange {} has an empty label",
            exchange.code
        );
    }
}

#[test]
fn get_supported_exchanges_every_code_resolves_via_lookup() {
    let exchanges = exchange::all();
    for exchange in &exchanges {
        let resolved = exchange::lookup(&exchange.code);
        assert!(resolved.is_some(), "lookup({}) returned None", exchange.code);
        let resolved = resolved.unwrap();
        assert_eq!(resolved.code, exchange.code);
        assert_eq!(resolved.label, exchange.label);
    }
}

#[test]
fn lookup_of_an_unknown_or_lowercase_code_is_none() {
    assert!(exchange::lookup("XBOG").is_none());
    assert!(exchange::lookup("xpar").is_none());
    assert!(exchange::lookup("").is_none());
}
