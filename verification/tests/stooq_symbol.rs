use vault_compass::context::asset::derive_stooq_symbol;

#[test]
fn bare_ticker_is_lowercased() {
    let result = derive_stooq_symbol("AAPL");
    assert_eq!(result, Some("aapl".to_string()));
}

#[test]
fn already_lowercase_bare_ticker_unchanged() {
    let result = derive_stooq_symbol("msft");
    assert_eq!(result, Some("msft".to_string()));
}

#[test]
fn stooq_style_reference_passes_through_lowercased() {
    let result = derive_stooq_symbol("TTE.FR");
    assert_eq!(result, Some("tte.fr".to_string()));
}

#[test]
fn stooq_style_already_lowercase_unchanged() {
    let result = derive_stooq_symbol("cdp.pa");
    assert_eq!(result, Some("cdp.pa".to_string()));
}

#[test]
fn empty_reference_returns_none() {
    let result = derive_stooq_symbol("");
    assert!(result.is_none(), "expected None for empty input, got: {result:?}");
}

#[test]
fn non_ascii_reference_returns_none() {
    let result = derive_stooq_symbol("日本電信電話");
    assert!(result.is_none(), "expected None for non-ASCII input, got: {result:?}");
}

#[test]
fn whitespace_only_reference_returns_none() {
    let result = derive_stooq_symbol("   ");
    assert!(result.is_none(), "expected None for whitespace-only input, got: {result:?}");
}

#[test]
fn surrounding_white_space_is_trimmed_before_lowercasing() {
    assert_eq!(derive_stooq_symbol("  AAPL.US\t\n"), Some("aapl.us".to_string()));
    assert_eq!(derive_stooq_symbol("\u{a0}BRK-B\u{3000}"), Some("brk-b".to_string()));
}

#[test]
fn inner_white_space_and_symbols_are_kept() {
    assert_eq!(derive_stooq_symbol(" A B "), Some("a b".to_string()));
    assert_eq!(derive_stooq_symbol("X_1^Z"), Some("x_1^z".to_string()));
}

#[test]
fn one_non_ascii_character_rejects_the_reference() {
    assert_eq!(derive_stooq_symbol("AAPLé"), None);
    assert_eq!(derive_stooq_symbol("\u{2003}"), None);
}

#[test]
fn derivation_is_idempotent_on_its_output() {
    for reference in ["AAPL", " TTE.FR ", "cdp.pa", "MiXeD"] {
        let once = derive_stooq_symbol(reference).expect("derivable");
        assert_eq!(derive_stooq_symbol(&once), Some(once.clone()));
    }
}
