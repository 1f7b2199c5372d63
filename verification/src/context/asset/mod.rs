//! Asset bounded context.

pub mod domain;
pub mod errors;
pub mod model;
pub mod price_commands;
pub mod repository;

pub use domain::exchange;
pub use domain::exchange::Exchange;
pub use domain::stooq_exchange_mapper::exchange_to_stooq_suffix;
pub use domain::stooq_symbol::derive_stooq_symbol;
pub use errors::{
    AssetApplicationError, AssetCrudError, AssetDomainError, AssetError, AssetPriceDomainError,
    CategoryApplicationError, CategoryCrudError, CategoryDomainError,
};
pub use model::{Asset, AssetCategory, AssetClass, CreateAssetDTO, UpdateAssetDTO};
pub use price_commands::{
    to_asset_price_error, to_delete_asset_price_error, to_update_asset_price_error,
    AssetPriceCommandError, DeleteAssetPriceCommandError, PriceServiceFailure,
    UpdateAssetPriceCommandError,
};
