//! The shared infrastructure-error leaf.

use vstd::prelude::*;

verus! {

/// Opaque catch-all for an infrastructure failure with no domain meaning.
/// Wire shape `{ code: "Unknown", hint }`.
#[derive(Debug, Clone)]
pub enum InfrastructureError {
    /// `hint` is a developer-only diagnostic; it is not user-facing.
    Unknown { hint: String },
}

} // verus!
