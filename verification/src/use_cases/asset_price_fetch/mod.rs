//! Price auto-fetch: at most one fetch task at a time, over the active,
//! non-cash holdings whose reference yields a Stooq symbol.

pub mod account;
pub mod all;
pub mod error;
pub mod guard;
pub mod run;
pub mod scope;

pub use account::FetchAccountAssetPricesUseCase;
pub use all::FetchAllAssetPricesUseCase;
pub use error::{FetchAccountAssetPricesError, FetchAllAssetPricesError, FetchPriceTask};
pub use guard::{FetchGuard, FetchGuardLease};
pub use scope::translate_asset_application_error;
