//! Boundary errors of the asset-price commands, and the classification of a
//! failed price-service call into them.

use crate::context::asset::errors::{AssetApplicationError, AssetPriceDomainError};
use vstd::prelude::*;

verus! {

/// Error returned to the frontend by the record-price and list-prices commands.
#[derive(Debug, Clone, Copy, PartialEq, Eq, Structural)]
pub enum AssetPriceCommandError {
    /// The asset referenced in the command does not exist.
    AssetNotFound,
    /// Price must be strictly positive.
    NotPositive,
    /// Price value is not a finite number.
    NonFinite,
    /// Price date is in the future.
    DateInFuture,
    /// An unexpected server-side error occurred.
    Unknown,
}

/// Error returned to the frontend by the update-price command.
#[derive(Debug, Clone, Copy, PartialEq, Eq, Structural)]
pub enum UpdateAssetPriceCommandError {
    /// No price record exists for the given asset and original date.
    NotFound,
    /// Price must be strictly positive.
    NotPositive,
    /// Price value is not a finite number.
    NonFinite,
    /// Price date is in the future.
    DateInFuture,
    /// An unexpected server-side error occurred.
    Unknown,
}

/// Error returned to the frontend by the delete-price command.
#[derive(Debug, Clone, Copy, PartialEq, Eq, Structural)]
pub enum DeleteAssetPriceCommandError {
    /// No price record exists for the given asset and date.
    NotFound,
    /// An unexpected server-side error occurred.
    Unknown,
}

/// A failed asset-price service call, as far as the command boundary reads
/// it: the asset application error it carries, if any, and the asset-price
/// domain error it carries, if any. A failure that is neither carries none.
#[derive(Debug, Clone)]
pub struct PriceServiceFailure {
    pub asset_application: Option<AssetApplicationError>,
    pub asset_price_domain: Option<AssetPriceDomainError>,
}

impl PriceServiceFailure {
    /// A failure that is the given asset application error.
    pub fn asset_application(e: AssetApplicationError) -> (f: PriceServiceFailure)
        ensures
            f.asset_application == Some(e),
            f.asset_price_domain is None,
    {
        PriceServiceFailure { asset_application: Some(e), asset_price_domain: None }
    }

    /// A failure that is the given asset-price domain error.
    pub fn asset_price_domain(e: AssetPriceDomainError) -> (f: PriceServiceFailure)
        ensures
            f.asset_application is None,
            f.asset_price_domain == Some(e),
    {
        PriceServiceFailure { asset_application: None, asset_price_domain: Some(e) }
    }

    /// A failure of none of the classified kinds.
    pub fn unclassified() -> (f: PriceServiceFailure)
        ensures
            f.asset_application is None,
            f.asset_price_domain is None,
    {
        PriceServiceFailure { asset_application: None, asset_price_domain: None }
    }
}

/// The record/list-price boundary error for a failure: a missing asset first,
/// then the domain error one for one (a missing price record is unexpected on
/// these commands), and `Unknown` for anything else.
pub open spec fn spec_asset_price_error(f: PriceServiceFailure) -> AssetPriceCommandError {
    if f.asset_application matches Some(AssetApplicationError::NotFound { .. }) {
        AssetPriceCommandError::AssetNotFound
    } else {
        match f.asset_price_domain {
            Some(AssetPriceDomainError::NotPositive) => AssetPriceCommandError::NotPositive,
            Some(AssetPriceDomainError::NonFinite) => AssetPriceCommandError::NonFinite,
            Some(AssetPriceDomainError::DateInFuture) => AssetPriceCommandError::DateInFuture,
            Some(AssetPriceDomainError::NotFound) => AssetPriceCommandError::Unknown,
            None => AssetPriceCommandError::Unknown,
        }
    }
}

/// The update-price boundary error for a failure: the domain error one for
/// one, `Unknown` for anything else.
pub open spec fn spec_update_asset_price_error(f: PriceServiceFailure) -> UpdateAssetPriceCommandError {
    match f.asset_price_domain {
        Some(AssetPriceDomainError::NotFound) => UpdateAssetPriceCommandError::NotFound,
        Some(AssetPriceDomainError::NotPositive) => UpdateAssetPriceCommandError::NotPositive,
        Some(AssetPriceDomainError::NonFinite) => UpdateAssetPriceCommandError::NonFinite,
        Some(AssetPriceDomainError::DateInFuture) => UpdateAssetPriceCommandError::DateInFuture,
        None => UpdateAssetPriceCommandError::Unknown,
    }
}

/// The delete-price boundary error for a failure: `NotFound` for a missing
/// price record, `Unknown` for anything else.
pub open spec fn spec_delete_asset_price_error(f: PriceServiceFailure) -> DeleteAssetPriceCommandError {
    if f.asset_price_domain == Some(AssetPriceDomainError::NotFound) {
        DeleteAssetPriceCommandError::NotFound
    } else {
        DeleteAssetPriceCommandError::Unknown
    }
}

/// Classifies a failed record/list-price call into its boundary error.
pub fn to_asset_price_error(e: PriceServiceFailure) -> (r: AssetPriceCommandError)
    ensures
        r == spec_asset_price_error(e),
{
    if let Some(AssetApplicationError::NotFound { .. }) = &e.asset_application {
        return AssetPriceCommandError::AssetNotFound;
    }
    match e.asset_price_domain {
        Some(AssetPriceDomainError::NotPositive) => AssetPriceCommandError::NotPositive,
        Some(AssetPriceDomainError::NonFinite) => AssetPriceCommandError::NonFinite,
        Some(AssetPriceDomainError::DateInFuture) => AssetPriceCommandError::DateInFuture,
        Some(AssetPriceDomainError::NotFound) => AssetPriceCommandError::Unknown,
        None => AssetPriceCommandError::Unknown,
    }
}

/// Classifies a failed update-price call into its boundary error.
pub fn to_update_asset_price_error(e: PriceServiceFailure) -> (r: UpdateAssetPriceCommandError)
    ensures
        r == spec_update_asset_price_error(e),
{
    match e.asset_price_domain {
        Some(AssetPriceDomainError::NotFound) => UpdateAssetPriceCommandError::NotFound,
        Some(AssetPriceDomainError::NotPositive) => UpdateAssetPriceCommandError::NotPositive,
        Some(AssetPriceDomainError::NonFinite) => UpdateAssetPriceCommandError::NonFinite,
        Some(AssetPriceDomainError::DateInFuture) => UpdateAssetPriceCommandError::DateInFuture,
        None => UpdateAssetPriceCommandError::Unknown,
    }
}

/// Classifies a failed delete-price call into its boundary error.
pub fn to_delete_asset_price_error(e: PriceServiceFailure) -> (r: DeleteAssetPriceCommandError)
    ensures
        r == spec_delete_asset_price_error(e),
{
    match e.asset_price_domain {
        Some(AssetPriceDomainError::NotFound) => DeleteAssetPriceCommandError::NotFound,
        _ => DeleteAssetPriceCommandError::Unknown,
    }
}

} // verus!
