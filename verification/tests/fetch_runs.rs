use std::sync::Arc;
use vault_compass::context::account::{AccountApplicationError, Holding};
use vault_compass::context::asset::{
    Asset, AssetApplicationError, AssetCategory, AssetClass, AssetError,
};
use vault_compass::use_cases::asset_price_fetch::account::{
    FetchAccountAssetPricesUseCase, FetchAccountStep,
};
use vault_compass::use_cases::asset_price_fetch::all::{FetchAllAssetPricesUseCase, FetchAllStep};
use vault_compass::use_cases::asset_price_fetch::{
    FetchAccountAssetPricesError, FetchAllAssetPricesError, FetchGuard, FetchPriceTask,
};

type AllUseCase = FetchAllAssetPricesUseCase<(), (), ()>;
type AccountUseCase = FetchAccountAssetPricesUseCase<(), (), ()>;

fn all_use_case(guard: &Arc<FetchGuard>) -> AllUseCase {
    FetchAllAssetPricesUseCase::new(Arc::new(()), Arc::new(()), Arc::clone(guard), Arc::new(()))
}

fn account_use_case(guard: &Arc<FetchGuard>) -> AccountUseCase {
    FetchAccountAssetPricesUseCase::new(Arc::new(()), Arc::new(()), Arc::clone(guard), Arc::new(()))
}

fn asset(id: &str, reference: &str) -> Asset {
    Asset {
        id: id.to_string(),
        name: format!("Asset {id}"),
        class: AssetClass::Stocks,
        category: AssetCategory {
            id: "cat".to_string(),
            name: "Category".to_string(),
        },
        currency: "EUR".to_string(),
        risk_level: 3,
        reference: reference.to_string(),
        is_archived: false,
    }
}

fn holding(asset_id: &str, quantity: i64) -> Holding {
    Holding {
        asset_id: asset_id.to_string(),
        quantity,
    }
}

#[test]
fn fetch_all_returns_no_fetchable_holdings_on_empty_db() {
    let guard = Arc::new(FetchGuard::new());
    let uc = all_use_case(&guard);
    let (mut run, step) = uc.start();
    assert!(matches!(step, FetchAllStep::LoadAccounts));
    let step = run.on_accounts(Ok(Vec::new()));
    assert!(
        matches!(
            step,
            FetchAllStep::Fail(FetchAllAssetPricesError::Failure(
                FetchPriceTask::NoFetchableHoldings
            ))
        ),
        "expected NoFetchableHoldings on empty DB, got: {step:?}"
    );
    assert!(guard.try_acquire().is_some(), "the guard is released once the run fails");
}

#[test]
fn fetch_account_returns_account_not_found_for_unknown_id() {
    let guard = Arc::new(FetchGuard::new());
    let uc = account_use_case(&guard);
    let (mut run, step) = uc.start("does-not-exist");
    match step {
        FetchAccountStep::LookupAccount(id) => assert_eq!(id, "does-not-exist"),
        other => panic!("expected LookupAccount, got: {other:?}"),
    }
    let step = run.on_account(Ok(None));
    match step {
        FetchAccountStep::Fail(FetchAccountAssetPricesError::Account(
            AccountApplicationError::AccountNotFound { account_id },
        )) => assert_eq!(account_id, "does-not-exist"),
        other => panic!("expected Account(AccountNotFound), got: {other:?}"),
    }
}

#[test]
fn fetch_all_returns_fetch_already_running_while_guard_held() {
    let guard = Arc::new(FetchGuard::new());
    let uc = all_use_case(&guard);
    let _lease = guard.try_acquire().expect("guard must be free at test start");
    let (_run, step) = uc.start();
    assert!(
        matches!(
            step,
            FetchAllStep::Fail(FetchAllAssetPricesError::Failure(
                FetchPriceTask::FetchAlreadyRunning
            ))
        ),
        "expected FetchAlreadyRunning, got: {step:?}"
    );
}

#[test]
fn fetch_all_scopes_distinct_positive_non_cash_derivable_assets() {
    let guard = Arc::new(FetchGuard::new());
    let uc = all_use_case(&guard);
    let (mut run, _) = uc.start();
    let step = run.on_accounts(Ok(vec!["acc-1".to_string(), "acc-2".to_string()]));
    match step {
        FetchAllStep::LoadHoldings(id) => assert_eq!(id, "acc-1"),
        other => panic!("expected LoadHoldings(acc-1), got: {other:?}"),
    }
    assert!(guard.try_acquire().is_none(), "the run holds the guard");
    let step = run.on_holdings(Ok(vec![
        holding("a1", 5),
        holding("system-cash-EUR", 100),
        holding("a2", 0),
    ]));
    match step {
        FetchAllStep::LoadHoldings(id) => assert_eq!(id, "acc-2"),
        other => panic!("expected LoadHoldings(acc-2), got: {other:?}"),
    }
    let step = run.on_holdings(Ok(vec![holding("a1", 1), holding("a3", 2), holding("a4", 7)]));
    match step {
        FetchAllStep::LookupAsset(id) => assert_eq!(id, "a1"),
        other => panic!("expected LookupAsset(a1), got: {other:?}"),
    }
    let step = run.on_asset(Ok(Some(asset("a1", " AAPL.US "))));
    match step {
        FetchAllStep::LookupAsset(id) => assert_eq!(id, "a3"),
        other => panic!("expected LookupAsset(a3), got: {other:?}"),
    }
    let step = run.on_asset(Ok(Some(asset("a3", "日本"))));
    match step {
        FetchAllStep::LookupAsset(id) => assert_eq!(id, "a4"),
        other => panic!("expected LookupAsset(a4), got: {other:?}"),
    }
    let step = run.on_asset(Ok(None));
    match step {
        FetchAllStep::Dispatch(scope, lease) => {
            assert_eq!(scope.len(), 1);
            assert_eq!(scope[0].0.id, "a1");
            assert_eq!(scope[0].1, "aapl.us");
            assert!(guard.try_acquire().is_none(), "the lease keeps the guard");
            drop(lease);
            assert!(guard.try_acquire().is_some(), "dropping the lease frees the guard");
        }
        other => panic!("expected Dispatch, got: {other:?}"),
    }
}

#[test]
fn fetch_all_with_only_cash_and_closed_holdings_has_nothing_to_fetch() {
    let guard = Arc::new(FetchGuard::new());
    let uc = all_use_case(&guard);
    let (mut run, _) = uc.start();
    run.on_accounts(Ok(vec!["acc".to_string()]));
    let step = run.on_holdings(Ok(vec![holding("system-cash-USD", 10), holding("x", 0), holding("y", -3)]));
    assert!(
        matches!(
            step,
            FetchAllStep::Fail(FetchAllAssetPricesError::Failure(
                FetchPriceTask::NoFetchableHoldings
            ))
        ),
        "got: {step:?}"
    );
    assert!(guard.try_acquire().is_some());
}

#[test]
fn fetch_all_fails_on_account_errors() {
    let guard = Arc::new(FetchGuard::new());
    let uc = all_use_case(&guard);
    let (mut run, _) = uc.start();
    let step = run.on_accounts(Err(AccountApplicationError::DatabaseError));
    assert!(matches!(
        step,
        FetchAllStep::Fail(FetchAllAssetPricesError::Account(AccountApplicationError::DatabaseError))
    ));
    assert!(guard.try_acquire().is_some());

    let guard = Arc::new(FetchGuard::new());
    let uc = all_use_case(&guard);
    let (mut run, _) = uc.start();
    run.on_accounts(Ok(vec!["acc".to_string()]));
    let step = run.on_holdings(Err(AccountApplicationError::DatabaseError));
    assert!(matches!(
        step,
        FetchAllStep::Fail(FetchAllAssetPricesError::Account(AccountApplicationError::DatabaseError))
    ));
    assert!(guard.try_acquire().is_some());
}

#[test]
fn fetch_all_translates_a_failed_lookup_into_a_database_error() {
    let guard = Arc::new(FetchGuard::new());
    let uc = all_use_case(&guard);
    let (mut run, _) = uc.start();
    run.on_accounts(Ok(vec!["acc".to_string()]));
    run.on_holdings(Ok(vec![holding("a1", 1)]));
    let step = run.on_asset(Err(AssetApplicationError::NotFound { id: "a1".to_string() }));
    assert!(matches!(
        step,
        FetchAllStep::Fail(FetchAllAssetPricesError::Asset(AssetError::DatabaseError))
    ));
    assert!(guard.try_acquire().is_some());
}

#[test]
fn fetch_account_checks_the_account_before_the_guard() {
    let guard = Arc::new(FetchGuard::new());
    let uc = account_use_case(&guard);
    let _held = guard.try_acquire().expect("free");
    let (mut run, _) = uc.start("missing");
    let step = run.on_account(Ok(None));
    assert!(matches!(
        step,
        FetchAccountStep::Fail(FetchAccountAssetPricesError::Account(
            AccountApplicationError::AccountNotFound { .. }
        ))
    ));
    let (mut run, _) = uc.start("acc");
    let step = run.on_account(Ok(Some("acc".to_string())));
    assert!(matches!(
        step,
        FetchAccountStep::Fail(FetchAccountAssetPricesError::Failure(
            FetchPriceTask::FetchAlreadyRunning
        ))
    ));
}

#[test]
fn fetch_account_dispatches_the_account_scope() {
    let guard = Arc::new(FetchGuard::new());
    let uc = account_use_case(&guard);
    let (mut run, _) = uc.start("acc");
    let step = run.on_account(Ok(Some("acc".to_string())));
    match step {
        FetchAccountStep::LoadHoldings(id) => assert_eq!(id, "acc"),
        other => panic!("expected LoadHoldings, got: {other:?}"),
    }
    let step = run.on_holdings(Ok(vec![holding("t", 3), holding("t", 4)]));
    match step {
        FetchAccountStep::LookupAsset(id) => assert_eq!(id, "t"),
        other => panic!("expected LookupAsset, got: {other:?}"),
    }
    let step = run.on_asset(Ok(Some(asset("t", "TTE.FR"))));
    match step {
        FetchAccountStep::Dispatch(scope, lease) => {
            assert_eq!(scope.len(), 1);
            assert_eq!(scope[0].1, "tte.fr");
            drop(lease);
            assert!(guard.try_acquire().is_some());
        }
        other => panic!("expected Dispatch, got: {other:?}"),
    }
}

#[test]
fn fetch_account_fails_on_account_lookup_error() {
    let guard = Arc::new(FetchGuard::new());
    let uc = account_use_case(&guard);
    let (mut run, _) = uc.start("acc");
    let step = run.on_account(Err(AccountApplicationError::DatabaseError));
    assert!(matches!(
        step,
        FetchAccountStep::Fail(FetchAccountAssetPricesError::Account(
            AccountApplicationError::DatabaseError
        ))
    ));
    assert!(guard.try_acquire().is_some());
}
