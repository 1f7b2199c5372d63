//! A position of one asset inside an account.

use vstd::prelude::*;

verus! {

/// A holding: which asset an account holds, and how much of it (micro-units).
#[derive(Debug, Clone)]
pub struct Holding {
    /// The held asset.
    pub asset_id: String,
    /// Quantity held, in micro-units; zero once the position is closed.
    pub quantity: i64,
}

/// A holding as plain values.
pub struct HoldingView {
    pub asset_id: Seq<char>,
    pub quantity: int,
}

impl View for Holding {
    type V = HoldingView;

    open spec fn view(&self) -> HoldingView {
        HoldingView { asset_id: self.asset_id@, quantity: self.quantity as int }
    }
}

} // verus!
