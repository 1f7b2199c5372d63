//! Error leaves and composites of the account context. Leaves serialize as
//! `{ code: "<Variant>", ...payload }`; composites flatten their leaves.

use vstd::prelude::*;

verus! {

/// Application-layer errors raised by the account context.
#[derive(Debug, Clone)]
pub enum AccountApplicationError {
    /// No account exists with the requested ID.
    AccountNotFound { account_id: String },
    /// Account name (case-insensitive) collides with an existing one.
    NameAlreadyExists,
    /// Translation of any infrastructure failure of an account-side call.
    DatabaseError,
}

/// An account application error as plain values.
pub enum AccountApplicationErrorView {
    AccountNotFound { account_id: Seq<char> },
    NameAlreadyExists,
    DatabaseError,
}

impl View for AccountApplicationError {
    type V = AccountApplicationErrorView;

    open spec fn view(&self) -> AccountApplicationErrorView {
        match self {
            AccountApplicationError::AccountNotFound { account_id } =>
                AccountApplicationErrorView::AccountNotFound { account_id: account_id@ },
            AccountApplicationError::NameAlreadyExists => AccountApplicationErrorView::NameAlreadyExists,
            AccountApplicationError::DatabaseError => AccountApplicationErrorView::DatabaseError,
        }
    }
}

/// Rejections by the account constructors on their own input.
#[derive(Debug, Clone)]
pub enum AccountDomainError {
    NameEmpty,
    InvalidCurrency { currency: String },
}

/// Rejections by account aggregate operations on their loaded state.
#[derive(Debug, Clone, Copy, PartialEq, Eq, Structural)]
pub enum AccountOperationError {
    /// A withdrawal exceeds the cash held.
    InsufficientCash,
    /// A sale exceeds the quantity held.
    Oversell { available: i64, requested: i64 },
}

/// Validation rejections of the transaction factories.
#[derive(Debug, Clone, Copy, PartialEq, Eq, Structural)]
pub enum TransactionDomainError {
    InvalidDate,
    DateInFuture,
    DateTooOld,
    QuantityNotPositive,
    UnitPriceNegative,
    FeesNegative,
    ExchangeRateNotPositive,
    TotalAmountNotPositive,
    AmountNotPositive,
}

/// Rejections raised while recording an opening balance. The account
/// aggregate raises `InvalidTotalCost` on its own input; the asset checks
/// (missing, archived, cash asset) are raised by the open-holding
/// orchestrator as `OpenHoldingApplicationError`, and the variants of the
/// same names here are still classified like them at the command boundary.
#[derive(Debug, Clone, Copy, PartialEq, Eq, Structural)]
pub enum OpeningBalanceDomainError {
    InvalidTotalCost,
    AssetNotFound,
    ArchivedAsset,
    OpeningBalanceOnCashAsset,
}

/// Failure surface of every command that mutates an account's holdings
/// ledger (deposit, withdrawal, buy, sell, correct, cancel).
#[derive(Debug, Clone)]
pub enum HoldingTransactionError {
    Application(AccountApplicationError),
    Operation(AccountOperationError),
    Validation(TransactionDomainError),
}

/// Failure surface of the account create and update commands.
#[derive(Debug, Clone)]
pub enum AccountCrudError {
    Application(AccountApplicationError),
    Validation(AccountDomainError),
}

} // verus!
