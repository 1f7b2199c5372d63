//! Failure leaf of the asset web-lookup use case.

use vstd::prelude::*;

verus! {

/// Application-layer errors raised by the asset web lookup.
#[derive(Debug, Clone, Copy, PartialEq, Eq, Structural)]
pub enum WebLookupApplicationError {
    /// The lookup service answered HTTP 429; transient, retry after a wait.
    RateLimited,
    /// Network unreachable, connection timeout, or any non-2xx status but 429.
    NetworkError,
}

} // verus!
