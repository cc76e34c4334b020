//! Error kinds of the matching core.
//!
//! All of these are local, recoverable conditions: each prevents one order
//! placement or one match from completing, and none corrupts other orders or
//! jobs.  Retrying after `AbortedComputation` is the caller's business and
//! needs a fresh computation id.

use vstd::prelude::*;

verus! {

#[derive(Clone, Copy, Debug, PartialEq, Eq, Structural)]
pub enum ErrorCode {
    /// Order creation was handed a malformed ciphertext bundle; rejected
    /// before any persistence.
    InvalidShardCount,
    /// Match submission referenced a missing, cancelled or already-matched
    /// order; rejected before job creation.
    InactiveOrder,
    /// The cluster signalled failure, or signature verification failed on
    /// the callback; the job is marked aborted and no trade state changes.
    AbortedComputation,
    /// A callback referenced a computation id that is not tracked.
    UnknownComputation,
    /// A callback referenced a job that is already terminal; the delivery
    /// is a no-op.
    DuplicateCallback,
}

} // verus!
