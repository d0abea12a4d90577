//! Splitting one ABCI service into four component services that share it
//! through a prioritised buffer.

use vstd::prelude::*;

verus! {

/// The size of each component's request queue for a requested `bound`: at
/// least four.
pub fn queue_bound(bound: usize) -> (r: usize)
    ensures
        r == if bound < 4 { 4 } else { bound },
{
    if bound < 4 {
        4
    } else {
        bound
    }
}

} // verus!
