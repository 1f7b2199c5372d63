//! Parameters of the holding-transaction commands. Quantities, prices, rates,
//! fees and amounts are micro-units; dates are `YYYY-MM-DD`.

use vstd::prelude::*;

verus! {

/// Parameters for recording an opening balance for an asset in an account.
#[derive(Debug, Clone)]
pub struct OpenHoldingDTO {
    pub account_id: String,
    pub asset_id: String,
    pub date: String,
    /// Strictly positive.
    pub quantity: i64,
    /// Total cost paid in account currency; strictly positive.
    pub total_cost: i64,
}

/// Parameters for recording a purchase of an asset into an account.
#[derive(Debug, Clone)]
pub struct BuyHoldingDTO {
    pub account_id: String,
    pub asset_id: String,
    pub date: String,
    pub quantity: i64,
    /// Unit price in asset currency.
    pub unit_price: i64,
    /// Exchange rate asset to account currency.
    pub exchange_rate: i64,
    /// Fees in account currency.
    pub fees: i64,
    pub note: Option<String>,
}

/// Parameters for recording a sale of an asset from an account.
#[derive(Debug, Clone)]
pub struct SellHoldingDTO {
    pub account_id: String,
    pub asset_id: String,
    pub date: String,
    pub quantity: i64,
    pub unit_price: i64,
    pub exchange_rate: i64,
    pub fees: i64,
    pub note: Option<String>,
}

/// Parameters for correcting an existing transaction; its account and asset
/// are kept from the transaction being corrected.
#[derive(Debug, Clone)]
pub struct CorrectTransactionDTO {
    pub date: String,
    pub quantity: i64,
    pub unit_price: i64,
    pub exchange_rate: i64,
    pub fees: i64,
    pub note: Option<String>,
}

/// Parameters for recording a cash deposit.
#[derive(Debug, Clone)]
pub struct DepositDTO {
    pub account_id: String,
    pub date: String,
    /// Strictly positive.
    pub amount_micros: i64,
    pub note: Option<String>,
}

/// Parameters for recording a cash withdrawal.
#[derive(Debug, Clone)]
pub struct WithdrawalDTO {
    pub account_id: String,
    pub date: String,
    /// Strictly positive.
    pub amount_micros: i64,
    pub note: Option<String>,
}

} // verus!
