//! Failure leaves and composite of the open-holding use case.

use crate::context::account::{AccountApplicationError, OpeningBalanceDomainError, TransactionDomainError};
use vstd::prelude::*;

verus! {

/// Cross-context asset checks of the open-holding orchestrator.
#[derive(Debug, Clone, Copy, PartialEq, Eq, Structural)]
pub enum OpenHoldingApplicationError {
    /// No asset exists with the requested ID.
    AssetNotFound,
    /// Target asset is archived; a holding cannot be opened on it.
    ArchivedAsset,
    /// Target asset is a system cash asset; initial cash goes through a deposit.
    OpeningBalanceOnCashAsset,
}

/// Failure surface of the open-holding command.
#[derive(Debug, Clone)]
pub enum OpenHoldingError {
    Application(AccountApplicationError),
    UseCase(OpenHoldingApplicationError),
    Validation(OpeningBalanceDomainError),
    TxValidation(TransactionDomainError),
}

} // verus!
