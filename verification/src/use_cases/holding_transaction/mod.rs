//! Holding-transaction commands: their parameters and the open-holding
//! failure surface.

pub mod dto;
pub mod error;
pub mod open_holding;

pub use dto::{
    BuyHoldingDTO, CorrectTransactionDTO, DepositDTO, OpenHoldingDTO, SellHoldingDTO,
    WithdrawalDTO,
};
pub use error::{OpenHoldingApplicationError, OpenHoldingError};
pub use open_holding::{to_open_holding_error, OpenHoldingCommandError, OpenHoldingFailure};
