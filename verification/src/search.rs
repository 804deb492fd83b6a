//! The sample scan behind the closest-point search on a curve.
//!
//! The search samples the curve uniformly, takes the sample nearest the
//! query point, and then bisects around it.  The nearest-sample step is the
//! discrete part: given the squared distance of each sample as an
//! order-preserving integer key (non-negative doubles compare the same as
//! their bit patterns), pick the first sample whose distance no later
//! sample beats.

use vstd::prelude::*;

verus! {

/// Index of the first minimum of `keys`: every entry is at least as large,
/// and every earlier entry is strictly larger.
pub fn closest_sample_index(keys: &Vec<u64>) -> (best: usize)
    requires
        keys@.len() > 0,
    ensures
        best < keys@.len(),
        forall|j: int| 0 <= j < keys@.len() ==> keys@[best as int] <= keys@[j],
        forall|j: int| 0 <= j < best ==> keys@[best as int] < keys@[j],
{
    let mut best: usize = 0;
    let mut i: usize = 1;
    while i < keys.len()
        invariant
            keys@.len() > 0,
            best < i <= keys@.len(),
            forall|j: int| 0 <= j < i ==> keys@[best as int] <= keys@[j],
            forall|j: int| 0 <= j < best ==> keys@[best as int] < keys@[j],
        decreases keys@.len() - i,
    {
        if keys[i] < keys[best] {
            best = i;
        }
        i = i + 1;
    }
    best
}

} // verus!
