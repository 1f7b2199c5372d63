//! Error leaves and composites of the asset context. Leaves serialize as
//! `{ code: "<Variant>", ...payload }`; composites flatten their leaves.

use vstd::prelude::*;

verus! {

/// Application-layer rejections for the category sub-aggregate.
#[derive(Debug, Clone)]
pub enum CategoryApplicationError {
    /// No category exists with the requested ID.
    NotFound { id: String },
    /// A category with the same name (case-insensitive) already exists.
    DuplicateName,
    /// Translation of any infrastructure failure of a category-repo call.
    DatabaseError,
}

/// Application-layer rejections for the asset aggregate.
#[derive(Debug, Clone)]
pub enum AssetApplicationError {
    /// No asset exists with the requested ID.
    NotFound { id: String },
    /// Translation of any infrastructure failure of an asset-repo call.
    DatabaseError,
}

/// Rejections by the asset aggregate on its input or loaded state.
#[derive(Debug, Clone)]
pub enum AssetDomainError {
    NameEmpty,
    ReferenceEmpty,
    InvalidRiskLevel { received: i32 },
    InvalidCurrency { currency: String },
    Archived,
    CashAssetNotEditable,
}

/// Rejections by the category aggregate.
#[derive(Debug, Clone, Copy, PartialEq, Eq, Structural)]
pub enum CategoryDomainError {
    LabelEmpty,
    SystemReadonly,
    SystemProtected,
}

/// Rejections by the asset-price aggregate.
#[derive(Debug, Clone, Copy, PartialEq, Eq, Structural)]
pub enum AssetPriceDomainError {
    /// No price record exists for the requested asset and date.
    NotFound,
    /// Price must be strictly positive.
    NotPositive,
    /// Price value is not a finite number.
    NonFinite,
    /// Price date is in the future.
    DateInFuture,
}

/// Error of the asset context on the price-fetch surface.
#[derive(Debug, Clone, Copy, PartialEq, Eq, Structural)]
pub enum AssetError {
    /// Translation of any infrastructure failure of an asset-repo call.
    DatabaseError,
}

/// Failure surface of the asset create, update and unarchive commands.
#[derive(Debug, Clone)]
pub enum AssetCrudError {
    Application(AssetApplicationError),
    Validation(AssetDomainError),
    CategoryApplication(CategoryApplicationError),
}

/// Failure surface of the category create, update and delete commands.
#[derive(Debug, Clone)]
pub enum CategoryCrudError {
    Application(CategoryApplicationError),
    Validation(CategoryDomainError),
}

} // verus!
