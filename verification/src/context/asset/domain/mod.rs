//! Asset domain: provider symbol derivation and the exchange catalogue.

pub mod exchange;
pub mod stooq_exchange_mapper;
pub mod stooq_symbol;
