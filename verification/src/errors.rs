//! Error taxonomy. A verification denial and a missing blob are defined
//! outcomes, not errors: they surface as `None`. Only infrastructure
//! failures are errors, split by whether retrying can help.

use vstd::prelude::*;

verus! {

/// An infrastructure failure of a blob-store backend.
#[derive(Clone, Copy, Debug, PartialEq, Eq, Structural)]
pub enum StoreError {
    /// A transient transport or availability failure; retrying may succeed.
    BackendUnavailable,
    /// The backend refused the operation (quota or policy); retrying cannot
    /// succeed without operator intervention.
    BackendRejected,
}

/// A failure of a gated write.
#[derive(Clone, Copy, Debug, PartialEq, Eq, Structural)]
pub enum PutError {
    /// The state oracle could not be queried; nothing was persisted, so the
    /// whole put is safe to retry.
    OracleUnavailable,
    /// The store backend was unavailable after the write was granted.
    BackendUnavailable,
    /// The store backend refused the write after it was granted.
    BackendRejected,
}

/// How a store failure surfaces from a gated write.
pub open spec fn put_error_of(e: StoreError) -> PutError {
    match e {
        StoreError::BackendUnavailable => PutError::BackendUnavailable,
        StoreError::BackendRejected => PutError::BackendRejected,
    }
}

/// Maps a store failure onto the corresponding gated-write failure.
pub fn store_error_to_put_error(e: StoreError) -> (r: PutError)
    ensures
        r == put_error_of(e),
{
    match e {
        StoreError::BackendUnavailable => PutError::BackendUnavailable,
        StoreError::BackendRejected => PutError::BackendRejected,
    }
}

} // verus!
