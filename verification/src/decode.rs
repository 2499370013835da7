//! The decisions of the Viterbi decoder: the first-index argmax used for
//! every cell and for the terminal state, and the backtrack that turns the
//! recorded predecessors into the state path.
//!
//! The dynamic-programming scores are binary64 bit patterns compared in the
//! order of [`crate::bits`]; the score arithmetic itself is done by the
//! caller.

use vstd::prelude::*;
use crate::bits::{float_lt, ieee_le, ieee_lt, is_nan, NEG_INFINITY_BITS};

verus! {

/// Whether some entry of the row compares strictly above negative infinity,
/// that is, whether the scan that starts from negative infinity ever moves.
pub open spec fn has_entry_above_neg_infinity(row: Seq<u64>) -> bool {
    exists|j: int| 0 <= j < row.len() && ieee_lt(NEG_INFINITY_BITS, #[trigger] row[j])
}

/// The index of the greatest entry of `row`, ties broken by the lowest
/// index, exactly as a scan that keeps the first score strictly above the
/// running maximum. NaN entries and a row of negative infinities never move
/// the scan, which then reports index 0.
pub fn argmax_first(row: &Vec<u64>) -> (idx: usize)
    requires
        row@.len() >= 1,
    ensures
        idx < row@.len(),
        has_entry_above_neg_infinity(row@) ==> {
            &&& ieee_lt(NEG_INFINITY_BITS, row@[idx as int])
            &&& (forall|j: int| 0 <= j < row@.len() ==> !ieee_lt(row@[idx as int], #[trigger] row@[j]))
            &&& (forall|j: int| 0 <= j < idx ==> !ieee_le(row@[idx as int], #[trigger] row@[j]))
        },
        !has_entry_above_neg_infinity(row@) ==> idx == 0,
{
    let mut best: usize = 0;
    let mut best_val: u64 = NEG_INFINITY_BITS;
    let mut i: usize = 0;
    while i < row.len()
        invariant
            row@.len() >= 1,
            i <= row@.len(),
            best < row@.len(),
            !is_nan(best_val),
            has_entry_above_neg_infinity(row@.take(i as int)) ==> {
                &&& best_val == row@[best as int]
                &&& ieee_lt(NEG_INFINITY_BITS, best_val)
                &&& (forall|j: int| 0 <= j < i ==> !ieee_lt(best_val, #[trigger] row@[j]))
                &&& (forall|j: int| 0 <= j < best ==> !ieee_le(best_val, #[trigger] row@[j]))
            },
            !has_entry_above_neg_infinity(row@.take(i as int)) ==> {
                &&& best == 0
                &&& best_val == NEG_INFINITY_BITS
                &&& (forall|j: int|
                    0 <= j < i ==> !ieee_lt(NEG_INFINITY_BITS, #[trigger] row@[j]))
            },
        decreases row@.len() - i,
    {
        proof {
            assert(row@.take(i as int + 1) =~= row@.take(i as int).push(row@[i as int]));
        }
        if float_lt(best_val, row[i]) {
            proof {
                assert(ieee_lt(NEG_INFINITY_BITS, row@[i as int])) by {
                    if best_val != NEG_INFINITY_BITS {
                        assert(ieee_lt(NEG_INFINITY_BITS, best_val));
                    }
                }
                assert(row@.take(i as int + 1)[i as int] == row@[i as int]);
                assert(has_entry_above_neg_infinity(row@.take(i as int + 1)));
            }
            best = i;
            best_val = row[i];
        }
        i = i + 1;
    }
    proof {
        assert(row@.take(row@.len() as int) =~= row@);
    }
    best
}

/// Reconstructs the most likely state path from the recorded predecessor
/// table: the last state is the given terminal state, and each earlier state
/// is the recorded predecessor of its successor. The path has one state per
/// time step and every state lies below the state count.
pub fn viterbi_backtrack(psi: &Vec<Vec<usize>>, n_states: usize, last_state: usize) -> (path: Vec<
    usize,
>)
    requires
        psi@.len() >= 1,
        last_state < n_states,
        forall|t: int| 0 <= t < psi@.len() ==> #[trigger] psi@[t]@.len() == n_states,
        forall|t: int, j: int|
            0 <= t < psi@.len() && 0 <= j < n_states ==> #[trigger] psi@[t]@[j] < n_states,
    ensures
        path@.len() == psi@.len(),
        forall|t: int| 0 <= t < path@.len() ==> #[trigger] path@[t] < n_states,
        path@[path@.len() - 1] == last_state,
        forall|t: int|
            0 <= t < path@.len() - 1 ==> #[trigger] path@[t] == psi@[t + 1]@[path@[t + 1] as int],
{
    let t_max = psi.len();
    let mut reversed: Vec<usize> = Vec::new();
    let mut current: usize = last_state;
    reversed.push(current);
    let mut k: usize = 1;
    while k < t_max
        invariant
            1 <= k <= t_max,
            t_max == psi@.len(),
            last_state < n_states,
            forall|t: int| 0 <= t < psi@.len() ==> #[trigger] psi@[t]@.len() == n_states,
            forall|t: int, j: int|
                0 <= t < psi@.len() && 0 <= j < n_states ==> #[trigger] psi@[t]@[j] < n_states,
            reversed@.len() == k,
            reversed@[0] == last_state,
            current == reversed@[k - 1],
            forall|r: int| 0 <= r < k ==> #[trigger] reversed@[r] < n_states,
            forall|r: int|
                1 <= r < k ==> #[trigger] reversed@[r] == psi@[t_max - r]@[reversed@[r - 1] as int],
        decreases t_max - k,
    {
        current = psi[t_max - k][current];
        reversed.push(current);
        k = k + 1;
    }
    let mut path: Vec<usize> = Vec::new();
    let mut t: usize = 0;
    while t < t_max
        invariant
            0 <= t <= t_max,
            t_max == reversed@.len(),
            path@.len() == t,
            forall|s: int| 0 <= s < t ==> #[trigger] path@[s] == reversed@[t_max - 1 - s],
        decreases t_max - t,
    {
        path.push(reversed[t_max - 1 - t]);
        t = t + 1;
    }
    proof {
        assert(path@[path@.len() - 1] == reversed@[0]);
        assert forall|s: int|
            0 <= s < path@.len() - 1 implies #[trigger] path@[s] == psi@[s + 1]@[path@[s + 1] as int] by {
            let r = t_max - 1 - s;
            assert(path@[s] == reversed@[r]);
            assert(path@[s + 1] == reversed@[r - 1]);
            assert(reversed@[r] == psi@[t_max - r]@[reversed@[r - 1] as int]);
        }
    }
    path
}

} // verus!
