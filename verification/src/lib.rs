//! A minimal append-only registry ledger: uniquely identified, immutable
//! records allocated under a single administrator key and a monotonic
//! issuance counter, with deterministic address derivation for each record.
//!
//! The operations are pure state transitions: each takes the registry's
//! current state, authorizes the caller, appends exactly one record, and
//! advances the counter where the record is counter-addressed — or reports
//! a typed failure and changes nothing.

pub mod address;
pub mod arith;
pub mod errors;
pub mod keys;
pub mod laws;
pub mod ledger;
