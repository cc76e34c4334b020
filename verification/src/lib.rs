//! Confidential order matching for a dark pool.
//!
//! Two parties place orders whose price, volume, side and minimum-fill
//! threshold are stored only as ciphertext shards.  A match between two
//! orders is decided by an external confidential-computation cluster; this
//! crate holds the parts whose correctness is proved:
//!
//! - the matching decision function that the cluster must evaluate
//!   bit-exactly ([`circuit`]),
//! - the persistent order records and their lifecycle ([`store`]),
//! - the byte layouts of the job request and the result payload ([`codec`]),
//! - the submit / callback state machine that tracks a match job from
//!   submission to its terminal state ([`orchestrator`]).
//!
//! Everything the cluster and the ledger substrate do themselves (transport,
//! signatures, persistence) stays outside; the library receives their
//! outcomes as plain values.

pub mod circuit;
pub mod codec;
pub mod errors;
pub mod orchestrator;
pub mod store;
