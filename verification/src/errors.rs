//! The failure taxonomy of the registry: every mutating operation either
//! completes in full or reports exactly one of these and changes nothing.

use vstd::prelude::*;

verus! {

/// Why a registry operation was rejected.
#[derive(Clone, Copy, Debug, PartialEq, Eq, Structural)]
pub enum MoatError {
    /// The singleton registry state has already been created.
    AlreadyInitialized,
    /// The caller's key differs from the stored administrator key.
    Unauthorized,
    /// The 64-bit counter no longer fits the 32-bit entry identifier.
    NextIdOverflow,
    /// The 64-bit counter is at its maximum and cannot advance.
    Overflow,
    /// A creator-scoped commitment already exists for this
    /// `(creator, batch id)` pair.
    BatchAlreadyExists,
}

} // verus!
