//! The decision of the sequence sampler: inverse-CDF selection of a state
//! from a row of cumulative probabilities and a uniform draw.
//!
//! The cumulative row and the draw are binary64 bit patterns; the running
//! sums themselves are produced by the caller.

use vstd::prelude::*;
use crate::bits::{float_le, ieee_le};

verus! {

/// Whether some cumulative entry is at or above the draw.
pub open spec fn some_entry_reaches(cumulative: Seq<u64>, draw: u64) -> bool {
    exists|j: int| 0 <= j < cumulative.len() && ieee_le(draw, #[trigger] cumulative[j])
}

/// Picks the first index whose cumulative probability is at or above the
/// draw; when no entry reaches the draw (which includes NaN entries and a
/// NaN draw), the caller's fallback state is kept. This is exactly the scan
/// of the sampler over one row of running sums.
pub fn pick_index(cumulative: &Vec<u64>, draw: u64, fallback: usize) -> (idx: usize)
    ensures
        some_entry_reaches(cumulative@, draw) ==> {
            &&& idx < cumulative@.len()
            &&& ieee_le(draw, cumulative@[idx as int])
            &&& (forall|j: int| 0 <= j < idx ==> !ieee_le(draw, #[trigger] cumulative@[j]))
        },
        !some_entry_reaches(cumulative@, draw) ==> idx == fallback,
{
    let mut i: usize = 0;
    while i < cumulative.len()
        invariant
            i <= cumulative@.len(),
            forall|j: int| 0 <= j < i ==> !ieee_le(draw, #[trigger] cumulative@[j]),
        decreases cumulative@.len() - i,
    {
        if float_le(draw, cumulative[i]) {
            return i;
        }
        i = i + 1;
    }
    fallback
}

} // verus!
