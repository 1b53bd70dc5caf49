//! The limits of the counters that scores and figures are kept in.

use vstd::prelude::*;

verus! {

/// Whether `n` can be held in an `i32` counter.
pub open spec fn fits_i32(n: int) -> bool {
    i32::MIN <= n <= i32::MAX
}

/// Tests whether `n` can be held in an `i32` counter.
pub fn within_i32(n: i128) -> (within: bool)
    ensures
        within == fits_i32(n as int),
{
    -2147483648 <= n && n <= 2147483647
}

} // verus!
