use vault_compass::context::account::{
    AccountApplicationError, OpeningBalanceDomainError, TransactionDomainError,
};
use vault_compass::use_cases::holding_transaction::{
    to_open_holding_error, OpenHoldingApplicationError, OpenHoldingCommandError, OpenHoldingFailure,
};

#[test]
fn to_open_holding_error_maps_every_branch() {
    assert!(matches!(
        to_open_holding_error(OpenHoldingFailure::opening_balance(
            OpeningBalanceDomainError::AssetNotFound
        )),
        OpenHoldingCommandError::AssetNotFound
    ));
    assert!(matches!(
        to_open_holding_error(OpenHoldingFailure::opening_balance(
            OpeningBalanceDomainError::ArchivedAsset
        )),
        OpenHoldingCommandError::ArchivedAsset
    ));
    assert!(matches!(
        to_open_holding_error(OpenHoldingFailure::opening_balance(
            OpeningBalanceDomainError::OpeningBalanceOnCashAsset
        )),
        OpenHoldingCommandError::OpeningBalanceOnCashAsset
    ));
    assert!(matches!(
        to_open_holding_error(OpenHoldingFailure::opening_balance(
            OpeningBalanceDomainError::InvalidTotalCost
        )),
        OpenHoldingCommandError::InvalidTotalCost
    ));

    assert!(matches!(
        to_open_holding_error(OpenHoldingFailure::transaction(
            TransactionDomainError::DateInFuture
        )),
        OpenHoldingCommandError::DateInFuture
    ));
    assert!(matches!(
        to_open_holding_error(OpenHoldingFailure::transaction(
            TransactionDomainError::AmountNotPositive
        )),
        OpenHoldingCommandError::Unknown { .. }
    ));

    match to_open_holding_error(OpenHoldingFailure::account(
        AccountApplicationError::AccountNotFound {
            account_id: "acc-42".into(),
        },
    )) {
        OpenHoldingCommandError::AccountNotFound { account_id } => {
            assert_eq!(account_id, "acc-42");
        }
        other => panic!("expected AccountNotFound, got: {other:?}"),
    }
    assert!(matches!(
        to_open_holding_error(OpenHoldingFailure::account(
            AccountApplicationError::NameAlreadyExists
        )),
        OpenHoldingCommandError::Unknown { .. }
    ));

    assert!(matches!(
        to_open_holding_error(OpenHoldingFailure::unclassified("synthetic infra failure")),
        OpenHoldingCommandError::Unknown { .. }
    ));
}

fn hint_of(e: OpenHoldingCommandError) -> String {
    match e {
        OpenHoldingCommandError::Unknown { hint } => hint,
        other => panic!("expected Unknown, got: {other:?}"),
    }
}

#[test]
fn reachable_transaction_errors_map_to_their_namesakes() {
    assert!(matches!(
        to_open_holding_error(OpenHoldingFailure::transaction(TransactionDomainError::InvalidDate)),
        OpenHoldingCommandError::InvalidDate
    ));
    assert!(matches!(
        to_open_holding_error(OpenHoldingFailure::transaction(TransactionDomainError::DateTooOld)),
        OpenHoldingCommandError::DateTooOld
    ));
    assert!(matches!(
        to_open_holding_error(OpenHoldingFailure::transaction(
            TransactionDomainError::QuantityNotPositive
        )),
        OpenHoldingCommandError::QuantityNotPositive
    ));
}

#[test]
fn impossible_transaction_errors_name_the_variant_in_the_hint() {
    let cases = [
        (TransactionDomainError::UnitPriceNegative, "UnitPriceNegative"),
        (TransactionDomainError::FeesNegative, "FeesNegative"),
        (TransactionDomainError::ExchangeRateNotPositive, "ExchangeRateNotPositive"),
        (TransactionDomainError::TotalAmountNotPositive, "TotalAmountNotPositive"),
        (TransactionDomainError::AmountNotPositive, "AmountNotPositive"),
    ];
    for (err, name) in cases {
        let hint = hint_of(to_open_holding_error(OpenHoldingFailure::transaction(err)));
        assert_eq!(
            hint,
            format!("BUG: impossible TransactionDomainError::{name} in open_holding")
        );
    }
}

#[test]
fn name_collision_and_unclassified_hints_are_exact() {
    assert_eq!(
        hint_of(to_open_holding_error(OpenHoldingFailure::account(
            AccountApplicationError::NameAlreadyExists
        ))),
        "BUG: NameAlreadyExists in open_holding"
    );
    assert_eq!(
        hint_of(to_open_holding_error(OpenHoldingFailure::unclassified(
            "synthetic infra failure"
        ))),
        "unexpected error in open_holding: synthetic infra failure"
    );
}

#[test]
fn account_database_error_carries_the_failure_rendering() {
    let failure = OpenHoldingFailure {
        opening_balance: None,
        use_case: None,
        transaction: None,
        account: Some(AccountApplicationError::DatabaseError),
        chain: "db down: connection refused".to_string(),
    };
    assert_eq!(
        hint_of(to_open_holding_error(failure)),
        "unexpected error in open_holding: db down: connection refused"
    );
}

#[test]
fn opening_balance_error_wins_over_the_others() {
    let failure = OpenHoldingFailure {
        opening_balance: Some(OpeningBalanceDomainError::InvalidTotalCost),
        use_case: Some(OpenHoldingApplicationError::ArchivedAsset),
        transaction: Some(TransactionDomainError::DateInFuture),
        account: Some(AccountApplicationError::NameAlreadyExists),
        chain: String::new(),
    };
    assert!(matches!(
        to_open_holding_error(failure),
        OpenHoldingCommandError::InvalidTotalCost
    ));
    let failure = OpenHoldingFailure {
        opening_balance: None,
        use_case: None,
        transaction: Some(TransactionDomainError::DateTooOld),
        account: Some(AccountApplicationError::AccountNotFound { account_id: "a".into() }),
        chain: String::new(),
    };
    assert!(matches!(
        to_open_holding_error(failure),
        OpenHoldingCommandError::DateTooOld
    ));
}

#[test]
fn use_case_asset_checks_map_to_their_namesakes() {
    assert!(matches!(
        to_open_holding_error(OpenHoldingFailure::use_case(
            OpenHoldingApplicationError::AssetNotFound
        )),
        OpenHoldingCommandError::AssetNotFound
    ));
    assert!(matches!(
        to_open_holding_error(OpenHoldingFailure::use_case(
            OpenHoldingApplicationError::ArchivedAsset
        )),
        OpenHoldingCommandError::ArchivedAsset
    ));
    assert!(matches!(
        to_open_holding_error(OpenHoldingFailure::use_case(
            OpenHoldingApplicationError::OpeningBalanceOnCashAsset
        )),
        OpenHoldingCommandError::OpeningBalanceOnCashAsset
    ));
}

#[test]
fn use_case_asset_check_wins_over_transaction_and_account_errors() {
    let failure = OpenHoldingFailure {
        opening_balance: None,
        use_case: Some(OpenHoldingApplicationError::ArchivedAsset),
        transaction: Some(TransactionDomainError::DateInFuture),
        account: Some(AccountApplicationError::NameAlreadyExists),
        chain: String::new(),
    };
    assert!(matches!(
        to_open_holding_error(failure),
        OpenHoldingCommandError::ArchivedAsset
    ));
}
