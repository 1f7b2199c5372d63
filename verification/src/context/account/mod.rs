//! Account bounded context: holdings and the account-side error leaves.

pub mod errors;
pub mod holding;

pub use errors::{
    AccountApplicationError, AccountCrudError, AccountDomainError, AccountOperationError,
    HoldingTransactionError, OpeningBalanceDomainError, TransactionDomainError,
};
pub use holding::Holding;
