//! A hash-locked, single-claim value escrow.
//!
//! A depositor locks a quantity of value under a commitment (the SHA-256
//! digest of a secret). Any party who later presents the correct secret may
//! withdraw the full amount, exactly once. The core invariants: no claim
//! succeeds without the correct preimage, no record can be claimed twice,
//! and the balance bookkeeping never creates or destroys value.

pub mod codec;
pub mod escrow;
pub mod hash;
