//! Shared kernel: text helpers and the infrastructure error leaf.

pub mod cash;
pub mod error;
pub mod text;
