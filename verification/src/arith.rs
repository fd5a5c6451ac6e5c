//! Checked arithmetic on the 64-bit issuance counter: increment that fails
//! deterministically at the maximum instead of wrapping, and narrowing of a
//! 64-bit value into a 32-bit identifier.

use vstd::prelude::*;

verus! {

/// Checked increment of the 64-bit counter: `Some(x + 1)` unless `x` is
/// already at the maximum, in which case `None`.
pub fn checked_increment(x: u64) -> (r: Option<u64>)
    ensures
        x < u64::MAX ==> r == Some((x + 1) as u64),
        x == u64::MAX ==> r is None,
{
    if x < u64::MAX {
        Some(x + 1)
    } else {
        None
    }
}

/// Checked narrowing of a 64-bit value into a 32-bit identifier: `Some`
/// exactly when the value fits.
pub fn narrow_to_u32(x: u64) -> (r: Option<u32>)
    ensures
        x <= u32::MAX ==> r == Some(x as u32),
        x > u32::MAX ==> r is None,
{
    if x <= u32::MAX as u64 {
        Some(x as u32)
    } else {
        None
    }
}

} // verus!
