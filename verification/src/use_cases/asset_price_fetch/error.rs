//! Failure surfaces of the price-fetch tasks.

use crate::context::account::errors::AccountApplicationErrorView;
use crate::context::account::AccountApplicationError;
use crate::context::asset::AssetError;
use vstd::prelude::*;

verus! {

/// Outcomes specific to the fetch tasks.
#[derive(Debug, Clone, Copy, PartialEq, Eq, Structural)]
pub enum FetchPriceTask {
    /// A fetch task is already in progress.
    FetchAlreadyRunning,
    /// No active holding with a derivable provider symbol is in scope.
    NoFetchableHoldings,
    /// Catch-all for an unexpected runtime failure.
    UnknownError,
}

/// Failure surface of the all-accounts fetch.
#[derive(Debug, Clone)]
pub enum FetchAllAssetPricesError {
    Asset(AssetError),
    Account(AccountApplicationError),
    Failure(FetchPriceTask),
}

/// Failure surface of the per-account fetch.
#[derive(Debug, Clone)]
pub enum FetchAccountAssetPricesError {
    Asset(AssetError),
    Account(AccountApplicationError),
    Failure(FetchPriceTask),
}

/// A fetch failure as plain values; both fetch surfaces share it.
pub enum FetchErrorView {
    Asset(AssetError),
    Account(AccountApplicationErrorView),
    Failure(FetchPriceTask),
}

impl View for FetchAllAssetPricesError {
    type V = FetchErrorView;

    open spec fn view(&self) -> FetchErrorView {
        match self {
            FetchAllAssetPricesError::Asset(e) => FetchErrorView::Asset(*e),
            FetchAllAssetPricesError::Account(e) => FetchErrorView::Account(e@),
            FetchAllAssetPricesError::Failure(e) => FetchErrorView::Failure(*e),
        }
    }
}

impl View for FetchAccountAssetPricesError {
    type V = FetchErrorView;

    open spec fn view(&self) -> FetchErrorView {
        match self {
            FetchAccountAssetPricesError::Asset(e) => FetchErrorView::Asset(*e),
            FetchAccountAssetPricesError::Account(e) => FetchErrorView::Account(e@),
            FetchAccountAssetPricesError::Failure(e) => FetchErrorView::Failure(*e),
        }
    }
}

} // verus!
