//! Portfolio bookkeeping library: Stooq symbol derivation, exchange mapping,
//! price-fetch orchestration decisions and the typed error surfaces of the
//! account and asset contexts.

pub mod shared;
pub mod context;
pub mod use_cases;
