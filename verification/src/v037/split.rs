//! Splitting one ABCI 0.37 service into four component services that share it
//! through a prioritised buffer.

use vstd::prelude::*;

verus! {

/// The size of each component's request queue for a requested `bound`: at
/// least one.
pub fn queue_bound(bound: usize) -> (r: usize)
    ensures
        r == if bound < 1 { 1 } else { bound },
{
    if bound < 1 {
        1
    } else {
        bound
    }
}

} // verus!
