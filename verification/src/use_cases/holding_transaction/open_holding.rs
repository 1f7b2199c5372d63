//! The open-holding boundary error and the classification of a failed
//! open-holding call into it.

use crate::context::account::errors::AccountApplicationErrorView;
use crate::context::account::{AccountApplicationError, OpeningBalanceDomainError, TransactionDomainError};
use crate::use_cases::holding_transaction::error::OpenHoldingApplicationError;
use vstd::prelude::*;

verus! {

/// Error returned to the frontend by the open-holding command.
#[derive(Debug, Clone)]
pub enum OpenHoldingCommandError {
    /// No account exists with the requested ID.
    AccountNotFound { account_id: String },
    /// No asset exists with the requested ID.
    AssetNotFound,
    /// Asset is archived; a holding cannot be opened on it.
    ArchivedAsset,
    /// Target asset is a system cash asset.
    OpeningBalanceOnCashAsset,
    /// Total cost is zero or negative.
    InvalidTotalCost,
    /// Quantity is zero or negative.
    QuantityNotPositive,
    /// Date string could not be parsed as `YYYY-MM-DD`.
    InvalidDate,
    /// Transaction date is in the future.
    DateInFuture,
    /// Transaction date is before 1900-01-01.
    DateTooOld,
    /// An unexpected server-side error; `hint` is a developer-only diagnostic.
    Unknown { hint: String },
}

/// An open-holding boundary error as plain values.
pub enum OpenHoldingCommandErrorView {
    AccountNotFound { account_id: Seq<char> },
    AssetNotFound,
    ArchivedAsset,
    OpeningBalanceOnCashAsset,
    InvalidTotalCost,
    QuantityNotPositive,
    InvalidDate,
    DateInFuture,
    DateTooOld,
    Unknown { hint: Seq<char> },
}

impl View for OpenHoldingCommandError {
    type V = OpenHoldingCommandErrorView;

    open spec fn view(&self) -> OpenHoldingCommandErrorView {
        match self {
            OpenHoldingCommandError::AccountNotFound { account_id } =>
                OpenHoldingCommandErrorView::AccountNotFound { account_id: account_id@ },
            OpenHoldingCommandError::AssetNotFound => OpenHoldingCommandErrorView::AssetNotFound,
            OpenHoldingCommandError::ArchivedAsset => OpenHoldingCommandErrorView::ArchivedAsset,
            OpenHoldingCommandError::OpeningBalanceOnCashAsset =>
                OpenHoldingCommandErrorView::OpeningBalanceOnCashAsset,
            OpenHoldingCommandError::InvalidTotalCost => OpenHoldingCommandErrorView::InvalidTotalCost,
            OpenHoldingCommandError::QuantityNotPositive => OpenHoldingCommandErrorView::QuantityNotPositive,
            OpenHoldingCommandError::InvalidDate => OpenHoldingCommandErrorView::InvalidDate,
            OpenHoldingCommandError::DateInFuture => OpenHoldingCommandErrorView::DateInFuture,
            OpenHoldingCommandError::DateTooOld => OpenHoldingCommandErrorView::DateTooOld,
            OpenHoldingCommandError::Unknown { hint } => OpenHoldingCommandErrorView::Unknown { hint: hint@ },
        }
    }
}

/// A failed open-holding call, as far as the command boundary reads it: the
/// opening-balance, use-case asset-check, transaction and account errors it
/// carries, if any, and `chain`, its rendering with every context it was
/// wrapped in.
#[derive(Debug, Clone)]
pub struct OpenHoldingFailure {
    pub opening_balance: Option<OpeningBalanceDomainError>,
    pub use_case: Option<OpenHoldingApplicationError>,
    pub transaction: Option<TransactionDomainError>,
    pub account: Option<AccountApplicationError>,
    pub chain: String,
}

impl OpenHoldingFailure {
    /// A failure that is the given opening-balance error, with an empty rendering.
    pub fn opening_balance(e: OpeningBalanceDomainError) -> (f: OpenHoldingFailure)
        ensures
            f.opening_balance == Some(e),
            f.use_case is None,
            f.transaction is None,
            f.account is None,
            f.chain@.len() == 0,
    {
        OpenHoldingFailure { opening_balance: Some(e), use_case: None, transaction: None, account: None, chain: String::new() }
    }

    /// A failure that is the given use-case asset-check error, with an empty rendering.
    pub fn use_case(e: OpenHoldingApplicationError) -> (f: OpenHoldingFailure)
        ensures
            f.opening_balance is None,
            f.use_case == Some(e),
            f.transaction is None,
            f.account is None,
            f.chain@.len() == 0,
    {
        OpenHoldingFailure { opening_balance: None, use_case: Some(e), transaction: None, account: None, chain: String::new() }
    }

    /// A failure that is the given transaction error, with an empty rendering.
    pub fn transaction(e: TransactionDomainError) -> (f: OpenHoldingFailure)
        ensures
            f.opening_balance is None,
            f.use_case is None,
            f.transaction == Some(e),
            f.account is None,
            f.chain@.len() == 0,
    {
        OpenHoldingFailure { opening_balance: None, use_case: None, transaction: Some(e), account: None, chain: String::new() }
    }

    /// A failure that is the given account error, with an empty rendering.
    pub fn account(e: AccountApplicationError) -> (f: OpenHoldingFailure)
        ensures
            f.opening_balance is None,
            f.use_case is None,
            f.transaction is None,
            f.account == Some(e),
            f.chain@.len() == 0,
    {
        OpenHoldingFailure { opening_balance: None, use_case: None, transaction: None, account: Some(e), chain: String::new() }
    }

    /// A failure of none of the classified kinds, rendered as `chain`.
    pub fn unclassified(chain: &str) -> (f: OpenHoldingFailure)
        ensures
            f.opening_balance is None,
            f.use_case is None,
            f.transaction is None,
            f.account is None,
            f.chain@ == chain@,
    {
        OpenHoldingFailure { opening_balance: None, use_case: None, transaction: None, account: None, chain: chain.to_owned() }
    }
}

/// The debug name of a transaction error variant.
pub open spec fn transaction_error_name(e: TransactionDomainError) -> Seq<char> {
    match e {
        TransactionDomainError::InvalidDate => "InvalidDate"@,
        TransactionDomainError::DateInFuture => "DateInFuture"@,
        TransactionDomainError::DateTooOld => "DateTooOld"@,
        TransactionDomainError::QuantityNotPositive => "QuantityNotPositive"@,
        TransactionDomainError::UnitPriceNegative => "UnitPriceNegative"@,
        TransactionDomainError::FeesNegative => "FeesNegative"@,
        TransactionDomainError::ExchangeRateNotPositive => "ExchangeRateNotPositive"@,
        TransactionDomainError::TotalAmountNotPositive => "TotalAmountNotPositive"@,
        TransactionDomainError::AmountNotPositive => "AmountNotPositive"@,
    }
}

/// The diagnostic of a transaction error that open-holding can never raise.
pub open spec fn impossible_transaction_hint(e: TransactionDomainError) -> Seq<char> {
    "BUG: impossible TransactionDomainError::"@ + transaction_error_name(e) + " in open_holding"@
}

/// The diagnostic of a failure no branch classifies.
pub open spec fn unexpected_hint(chain: Seq<char>) -> Seq<char> {
    "unexpected error in open_holding: "@ + chain
}

/// The open-holding boundary error of a failure. An opening-balance error is
/// checked first, then a use-case asset-check error, then a transaction
/// error, then an account error; each reachable variant maps to its namesake. The transaction errors that
/// open-holding cannot raise, and a name collision, map to `Unknown` with a
/// diagnostic naming the impossible error; an account database failure and
/// any other failure map to `Unknown` carrying the failure's rendering.
pub open spec fn spec_open_holding_error(f: OpenHoldingFailure) -> OpenHoldingCommandErrorView {
    match f.opening_balance {
        Some(OpeningBalanceDomainError::InvalidTotalCost) => OpenHoldingCommandErrorView::InvalidTotalCost,
        Some(OpeningBalanceDomainError::AssetNotFound) => OpenHoldingCommandErrorView::AssetNotFound,
        Some(OpeningBalanceDomainError::ArchivedAsset) => OpenHoldingCommandErrorView::ArchivedAsset,
        Some(OpeningBalanceDomainError::OpeningBalanceOnCashAsset) =>
            OpenHoldingCommandErrorView::OpeningBalanceOnCashAsset,
        None => match f.use_case {
            Some(OpenHoldingApplicationError::AssetNotFound) => OpenHoldingCommandErrorView::AssetNotFound,
            Some(OpenHoldingApplicationError::ArchivedAsset) => OpenHoldingCommandErrorView::ArchivedAsset,
            Some(OpenHoldingApplicationError::OpeningBalanceOnCashAsset) =>
                OpenHoldingCommandErrorView::OpeningBalanceOnCashAsset,
            None => spec_open_holding_tail(f),
        },
    }
}

/// The boundary error of a failure that carries neither an opening-balance
/// nor a use-case asset-check error.
pub open spec fn spec_open_holding_tail(f: OpenHoldingFailure) -> OpenHoldingCommandErrorView {
    match f.transaction {
        Some(TransactionDomainError::InvalidDate) => OpenHoldingCommandErrorView::InvalidDate,
        Some(TransactionDomainError::DateInFuture) => OpenHoldingCommandErrorView::DateInFuture,
        Some(TransactionDomainError::DateTooOld) => OpenHoldingCommandErrorView::DateTooOld,
        Some(TransactionDomainError::QuantityNotPositive) => OpenHoldingCommandErrorView::QuantityNotPositive,
        Some(t) => OpenHoldingCommandErrorView::Unknown { hint: impossible_transaction_hint(t) },
        None => match f.account {
            Some(a) => match a@ {
                AccountApplicationErrorView::AccountNotFound { account_id } =>
                    OpenHoldingCommandErrorView::AccountNotFound { account_id },
                AccountApplicationErrorView::NameAlreadyExists =>
                    OpenHoldingCommandErrorView::Unknown { hint: "BUG: NameAlreadyExists in open_holding"@ },
                AccountApplicationErrorView::DatabaseError =>
                    OpenHoldingCommandErrorView::Unknown { hint: unexpected_hint(f.chain@) },
            },
            None => OpenHoldingCommandErrorView::Unknown { hint: unexpected_hint(f.chain@) },
        },
    }
}

fn transaction_error_label(e: TransactionDomainError) -> (name: &'static str)
    ensures
        name@ == transaction_error_name(e),
{
    match e {
        TransactionDomainError::InvalidDate => "InvalidDate",
        TransactionDomainError::DateInFuture => "DateInFuture",
        TransactionDomainError::DateTooOld => "DateTooOld",
        TransactionDomainError::QuantityNotPositive => "QuantityNotPositive",
        TransactionDomainError::UnitPriceNegative => "UnitPriceNegative",
        TransactionDomainError::FeesNegative => "FeesNegative",
        TransactionDomainError::ExchangeRateNotPositive => "ExchangeRateNotPositive",
        TransactionDomainError::TotalAmountNotPositive => "TotalAmountNotPositive",
        TransactionDomainError::AmountNotPositive => "AmountNotPositive",
    }
}

fn unexpected(chain: &String) -> (r: OpenHoldingCommandError)
    ensures
        r@ == (OpenHoldingCommandErrorView::Unknown { hint: unexpected_hint(chain@) }),
{
    let mut hint = "unexpected error in open_holding: ".to_owned();
    hint.append(chain.as_str());
    OpenHoldingCommandError::Unknown { hint }
}

/// Classifies a failed open-holding call into its boundary error.
pub fn to_open_holding_error(e: OpenHoldingFailure) -> (r: OpenHoldingCommandError)
    ensures
        r@ == spec_open_holding_error(e),
{
    if let Some(err) = e.opening_balance {
        return match err {
            OpeningBalanceDomainError::InvalidTotalCost => OpenHoldingCommandError::InvalidTotalCost,
            OpeningBalanceDomainError::AssetNotFound => OpenHoldingCommandError::AssetNotFound,
            OpeningBalanceDomainError::ArchivedAsset => OpenHoldingCommandError::ArchivedAsset,
            OpeningBalanceDomainError::OpeningBalanceOnCashAsset =>
                OpenHoldingCommandError::OpeningBalanceOnCashAsset,
        };
    }
    if let Some(err) = e.use_case {
        return match err {
            OpenHoldingApplicationError::AssetNotFound => OpenHoldingCommandError::AssetNotFound,
            OpenHoldingApplicationError::ArchivedAsset => OpenHoldingCommandError::ArchivedAsset,
            OpenHoldingApplicationError::OpeningBalanceOnCashAsset =>
                OpenHoldingCommandError::OpeningBalanceOnCashAsset,
        };
    }
    if let Some(err) = e.transaction {
        return match err {
            TransactionDomainError::InvalidDate => OpenHoldingCommandError::InvalidDate,
            TransactionDomainError::DateInFuture => OpenHoldingCommandError::DateInFuture,
            TransactionDomainError::DateTooOld => OpenHoldingCommandError::DateTooOld,
            TransactionDomainError::QuantityNotPositive => OpenHoldingCommandError::QuantityNotPositive,
            TransactionDomainError::UnitPriceNegative
            | TransactionDomainError::FeesNegative
            | TransactionDomainError::ExchangeRateNotPositive
            | TransactionDomainError::TotalAmountNotPositive
            | TransactionDomainError::AmountNotPositive => {
                let mut hint = "BUG: impossible TransactionDomainError::".to_owned();
                hint.append(transaction_error_label(err));
                hint.append(" in open_holding");
                OpenHoldingCommandError::Unknown { hint }
            },
        };
    }
    if let Some(err) = &e.account {
        return match err {
            AccountApplicationError::AccountNotFound { account_id } =>
                OpenHoldingCommandError::AccountNotFound { account_id: account_id.clone() },
            AccountApplicationError::NameAlreadyExists =>
                OpenHoldingCommandError::Unknown { hint: "BUG: NameAlreadyExists in open_holding".to_owned() },
            AccountApplicationError::DatabaseError => unexpected(&e.chain),
        };
    }
    unexpected(&e.chain)
}

} // verus!
