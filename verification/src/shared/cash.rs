//! The shared kernel's system cash assets.

use vstd::prelude::*;

verus! {

/// The identifier of the system cash asset of a currency: the cash prefix
/// followed by the currency code.
pub open spec fn spec_system_cash_asset_id(currency: Seq<char>) -> Seq<char> {
    "system-cash-"@ + currency
}

/// Whether `id` names a system cash asset, i.e. begins with the cash prefix.
pub open spec fn is_system_cash_asset_id(id: Seq<char>) -> bool {
    let prefix = spec_system_cash_asset_id(Seq::empty());
    prefix.len() <= id.len() && id.subrange(0, prefix.len() as int) == prefix
}

/// The identifier of the system cash asset of `currency`.
pub fn system_cash_asset_id(currency: &str) -> (id: String)
    ensures
        id@ == spec_system_cash_asset_id(currency@),
{
    let mut id = "system-cash-".to_owned();
    id.append(currency);
    id
}

} // verus!
