use vault_compass::context::asset::{
    to_asset_price_error, to_delete_asset_price_error, to_update_asset_price_error,
    AssetApplicationError, AssetPriceCommandError, AssetPriceDomainError,
    DeleteAssetPriceCommandError, PriceServiceFailure, UpdateAssetPriceCommandError,
};

#[test]
fn to_asset_price_error_maps_asset_not_found() {
    let app_err = AssetApplicationError::NotFound {
        id: "asset-xyz".to_string(),
    };
    let cmd_err = to_asset_price_error(PriceServiceFailure::asset_application(app_err));
    assert!(
        matches!(cmd_err, AssetPriceCommandError::AssetNotFound),
        "got: {cmd_err:?}"
    );
}

#[test]
fn to_update_asset_price_error_maps_not_found() {
    let domain_err = AssetPriceDomainError::NotFound;
    let cmd_err = to_update_asset_price_error(PriceServiceFailure::asset_price_domain(domain_err));
    assert!(
        matches!(cmd_err, UpdateAssetPriceCommandError::NotFound),
        "got: {cmd_err:?}"
    );
}

#[test]
fn to_update_asset_price_error_maps_not_positive() {
    let domain_err = AssetPriceDomainError::NotPositive;
    let cmd_err = to_update_asset_price_error(PriceServiceFailure::asset_price_domain(domain_err));
    assert!(
        matches!(cmd_err, UpdateAssetPriceCommandError::NotPositive),
        "got: {cmd_err:?}"
    );
}

#[test]
fn to_update_asset_price_error_maps_non_finite() {
    let domain_err = AssetPriceDomainError::NonFinite;
    let cmd_err = to_update_asset_price_error(PriceServiceFailure::asset_price_domain(domain_err));
    assert!(
        matches!(cmd_err, UpdateAssetPriceCommandError::NonFinite),
        "got: {cmd_err:?}"
    );
}

#[test]
fn to_update_asset_price_error_maps_date_in_future() {
    let domain_err = AssetPriceDomainError::DateInFuture;
    let cmd_err = to_update_asset_price_error(PriceServiceFailure::asset_price_domain(domain_err));
    assert!(
        matches!(cmd_err, UpdateAssetPriceCommandError::DateInFuture),
        "got: {cmd_err:?}"
    );
}

#[test]
fn to_delete_asset_price_error_maps_not_found() {
    let domain_err = AssetPriceDomainError::NotFound;
    let cmd_err = to_delete_asset_price_error(PriceServiceFailure::asset_price_domain(domain_err));
    assert!(
        matches!(cmd_err, DeleteAssetPriceCommandError::NotFound),
        "got: {cmd_err:?}"
    );
}

#[test]
fn asset_price_error_maps_each_domain_error() {
    let cases = [
        (AssetPriceDomainError::NotPositive, AssetPriceCommandError::NotPositive),
        (AssetPriceDomainError::NonFinite, AssetPriceCommandError::NonFinite),
        (AssetPriceDomainError::DateInFuture, AssetPriceCommandError::DateInFuture),
        (AssetPriceDomainError::NotFound, AssetPriceCommandError::Unknown),
    ];
    for (domain, expected) in cases {
        let got = to_asset_price_error(PriceServiceFailure::asset_price_domain(domain));
        assert_eq!(got, expected, "domain error {domain:?}");
    }
}

#[test]
fn asset_price_error_unclassified_and_database_errors_are_unknown() {
    assert_eq!(
        to_asset_price_error(PriceServiceFailure::unclassified()),
        AssetPriceCommandError::Unknown
    );
    assert_eq!(
        to_asset_price_error(PriceServiceFailure::asset_application(
            AssetApplicationError::DatabaseError
        )),
        AssetPriceCommandError::Unknown
    );
}

#[test]
fn asset_price_error_prefers_missing_asset_over_domain_error() {
    let failure = PriceServiceFailure {
        asset_application: Some(AssetApplicationError::NotFound { id: "a".to_string() }),
        asset_price_domain: Some(AssetPriceDomainError::NotPositive),
    };
    assert_eq!(to_asset_price_error(failure), AssetPriceCommandError::AssetNotFound);
}

#[test]
fn update_and_delete_errors_fall_back_to_unknown() {
    assert_eq!(
        to_update_asset_price_error(PriceServiceFailure::unclassified()),
        UpdateAssetPriceCommandError::Unknown
    );
    assert_eq!(
        to_update_asset_price_error(PriceServiceFailure::asset_application(
            AssetApplicationError::NotFound { id: "x".to_string() }
        )),
        UpdateAssetPriceCommandError::Unknown
    );
    for domain in [
        AssetPriceDomainError::NotPositive,
        AssetPriceDomainError::NonFinite,
        AssetPriceDomainError::DateInFuture,
    ] {
        assert_eq!(
            to_delete_asset_price_error(PriceServiceFailure::asset_price_domain(domain)),
            DeleteAssetPriceCommandError::Unknown
        );
    }
    assert_eq!(
        to_delete_asset_price_error(PriceServiceFailure::unclassified()),
        DeleteAssetPriceCommandError::Unknown
    );
}
