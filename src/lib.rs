//! A proof-of-existence claim registry.
//!
//! Actors register byte fingerprints ("proofs") as owned at a block height,
//! revoke them, or hand them over to another actor. The registry is a pure
//! state machine: authentication of the caller, the current height and the
//! delivery of notifications are the host's business and are passed in or
//! handed back as plain values.
pub mod bounded;
pub mod laws;
pub mod registry;

pub use bounded::BoundedProof;
pub use registry::{AccountId, BlockNumber, Claim, Error, Event, Pallet};
