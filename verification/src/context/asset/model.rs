//! The asset aggregate as read by the price-fetch surface, and the write DTOs.

use vstd::prelude::*;

verus! {

/// Classification of an asset.
#[derive(Debug, Clone, Copy, PartialEq, Eq, Structural)]
pub enum AssetClass {
    Cash,
    Bonds,
    RealEstate,
    MutualFunds,
    ETF,
    Stocks,
    DigitalAsset,
    Derivatives,
}

/// A category assets are filed under.
#[derive(Debug, Clone)]
pub struct AssetCategory {
    pub id: String,
    pub name: String,
}

/// A financial asset.
#[derive(Debug, Clone)]
pub struct Asset {
    pub id: String,
    pub name: String,
    pub class: AssetClass,
    pub category: AssetCategory,
    /// ISO 4217 currency code.
    pub currency: String,
    /// 1-5 risk score.
    pub risk_level: u8,
    /// Ticker, ISIN or user-defined reference.
    pub reference: String,
    pub is_archived: bool,
}

/// Parameters for creating a new asset.
#[derive(Debug, Clone)]
pub struct CreateAssetDTO {
    /// Display name.
    pub name: String,
    /// Ticker, ISIN, or user-defined reference (mandatory).
    pub reference: String,
    /// Classification type.
    pub class: AssetClass,
    /// ISO currency code.
    pub currency: String,
    /// 1-5 risk score.
    pub risk_level: u8,
    /// ID of the primary category.
    pub category_id: String,
}

/// Parameters for updating an existing asset.
#[derive(Debug, Clone)]
pub struct UpdateAssetDTO {
    /// Target asset ID.
    pub asset_id: String,
    /// New display name.
    pub name: String,
    /// New reference (mandatory).
    pub reference: String,
    /// New classification.
    pub class: AssetClass,
    /// New currency.
    pub currency: String,
    /// New risk level.
    pub risk_level: u8,
    /// New category link.
    pub category_id: String,
}

} // verus!
