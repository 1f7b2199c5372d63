use vault_compass::context::account::Holding;
use vault_compass::context::asset::{
    Asset, AssetApplicationError, AssetCategory, AssetClass, AssetError,
};
use vault_compass::shared::cash::system_cash_asset_id;
use vault_compass::use_cases::asset_price_fetch::scope::{
    add_positive_asset_ids, is_cash_asset_id, ScopeBuilder,
};
use vault_compass::use_cases::asset_price_fetch::translate_asset_application_error;

fn asset(id: &str, reference: &str) -> Asset {
    Asset {
        id: id.to_string(),
        name: id.to_string(),
        class: AssetClass::ETF,
        category: AssetCategory {
            id: "c".to_string(),
            name: "c".to_string(),
        },
        currency: "USD".to_string(),
        risk_level: 1,
        reference: reference.to_string(),
        is_archived: false,
    }
}

#[test]
fn every_asset_lookup_failure_is_a_database_error() {
    assert_eq!(
        translate_asset_application_error(AssetApplicationError::DatabaseError),
        AssetError::DatabaseError
    );
    assert_eq!(
        translate_asset_application_error(AssetApplicationError::NotFound { id: "x".to_string() }),
        AssetError::DatabaseError
    );
}

#[test]
fn system_cash_ids_are_recognised_by_prefix() {
    assert_eq!(system_cash_asset_id("EUR"), "system-cash-EUR");
    assert_eq!(system_cash_asset_id(""), "system-cash-");
    assert!(is_cash_asset_id("system-cash-EUR"));
    assert!(is_cash_asset_id("system-cash-"));
    assert!(!is_cash_asset_id("system-cash"));
    assert!(!is_cash_asset_id("asset-system-cash-EUR"));
    assert!(!is_cash_asset_id(""));
}

#[test]
fn positive_holdings_are_added_once_in_order() {
    let mut ids = vec!["b".to_string()];
    let holdings = vec![
        Holding { asset_id: "a".to_string(), quantity: 1 },
        Holding { asset_id: "b".to_string(), quantity: 9 },
        Holding { asset_id: "c".to_string(), quantity: 0 },
        Holding { asset_id: "a".to_string(), quantity: 2 },
        Holding { asset_id: "d".to_string(), quantity: -1 },
        Holding { asset_id: "e".to_string(), quantity: 1 },
    ];
    add_positive_asset_ids(&mut ids, &holdings);
    assert_eq!(ids, vec!["b".to_string(), "a".to_string(), "e".to_string()]);
}

#[test]
fn builder_skips_cash_ids_and_keeps_derivable_assets() {
    let mut b = ScopeBuilder::new(vec![
        "system-cash-EUR".to_string(),
        "x".to_string(),
        "y".to_string(),
        "z".to_string(),
    ]);
    assert_eq!(b.next_lookup(), Some("x".to_string()));
    assert!(b.record(Ok(Some(asset("x", "SPY")))).is_ok());
    assert_eq!(b.next_lookup(), Some("y".to_string()));
    assert!(b.record(Ok(None)).is_ok());
    assert_eq!(b.next_lookup(), Some("z".to_string()));
    assert!(b.record(Ok(Some(asset("z", "  ")))).is_ok());
    assert_eq!(b.next_lookup(), None);
    let scope = b.into_scope();
    assert_eq!(scope.len(), 1);
    assert_eq!(scope[0].0.id, "x");
    assert_eq!(scope[0].1, "spy");
}

#[test]
fn builder_reports_a_failed_lookup() {
    let mut b = ScopeBuilder::new(vec!["x".to_string()]);
    assert_eq!(b.next_lookup(), Some("x".to_string()));
    assert_eq!(b.record(Err(AssetApplicationError::DatabaseError)), Err(AssetError::DatabaseError));
}

#[test]
fn builder_over_no_ids_is_done_at_once() {
    let mut b = ScopeBuilder::new(Vec::new());
    assert_eq!(b.next_lookup(), None);
    assert!(b.into_scope().is_empty());
}
