//! Cross-context use cases.

pub mod asset_price_fetch;
pub mod asset_web_lookup;
pub mod holding_transaction;
