//! Bounded contexts: accounts and assets.

pub mod account;
pub mod asset;
