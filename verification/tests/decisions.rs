//! The argmax, the backtrack and the inverse-CDF pick on concrete values.

use hmm_core::decode::{argmax_first, viterbi_backtrack};
use hmm_core::sampling::pick_index;

fn bits(values: &[f64]) -> Vec<u64> {
    values.iter().map(|v| v.to_bits()).collect()
}

#[test]
fn argmax_takes_the_greatest_entry() {
    assert_eq!(argmax_first(&bits(&[-3.0, -1.0, -2.0])), 1);
    assert_eq!(argmax_first(&bits(&[7.0])), 0);
    assert_eq!(argmax_first(&bits(&[-1.5, 0.0, 2.25, 2.0])), 2);
}

#[test]
fn argmax_breaks_ties_by_the_lowest_index() {
    assert_eq!(argmax_first(&bits(&[1.0, 2.0, 2.0, 1.0])), 1);
    assert_eq!(argmax_first(&bits(&[5.0, 5.0, 5.0])), 0);
    assert_eq!(argmax_first(&bits(&[-0.0, 0.0])), 0);
}

#[test]
fn argmax_of_all_negative_infinities_is_zero() {
    let v = bits(&[f64::NEG_INFINITY, f64::NEG_INFINITY, f64::NEG_INFINITY]);
    assert_eq!(argmax_first(&v), 0);
    let w = bits(&[f64::NEG_INFINITY, -7.0, -6.5]);
    assert_eq!(argmax_first(&w), 2);
}

#[test]
fn argmax_never_moves_to_nan() {
    assert_eq!(argmax_first(&bits(&[f64::NAN, 1.0, 2.0])), 2);
    assert_eq!(argmax_first(&bits(&[1.0, f64::NAN, 0.5])), 0);
    assert_eq!(argmax_first(&bits(&[f64::NAN, f64::NAN])), 0);
}

#[test]
fn backtrack_follows_the_recorded_predecessors() {
    // Three time steps over two states; row 0 of the table is unused.
    let psi = vec![vec![0, 0], vec![1, 0], vec![0, 1]];
    let path = viterbi_backtrack(&psi, 2, 1);
    assert_eq!(path.len(), 3);
    assert_eq!(path[2], 1);
    assert_eq!(path[1], psi[2][1]);
    assert_eq!(path[0], psi[1][path[1]]);
    assert_eq!(path, vec![0, 1, 1]);
}

#[test]
fn backtrack_of_one_step_is_the_terminal_state() {
    let psi = vec![vec![0, 0, 0]];
    assert_eq!(viterbi_backtrack(&psi, 3, 2), vec![2]);
}

#[test]
fn pick_takes_the_first_reaching_entry() {
    let cum = bits(&[0.25, 0.5, 0.75, 1.0]);
    assert_eq!(pick_index(&cum, 0.1f64.to_bits(), 9), 0);
    assert_eq!(pick_index(&cum, 0.25f64.to_bits(), 9), 0);
    assert_eq!(pick_index(&cum, 0.26f64.to_bits(), 9), 1);
    assert_eq!(pick_index(&cum, 0.99f64.to_bits(), 9), 3);
    assert_eq!(pick_index(&cum, 1.0f64.to_bits(), 9), 3);
}

#[test]
fn pick_keeps_the_fallback_when_nothing_reaches() {
    let cum = bits(&[0.25, 0.5, 0.75, 0.99]);
    assert_eq!(pick_index(&cum, 0.995f64.to_bits(), 2), 2);
    assert_eq!(pick_index(&cum, f64::NAN.to_bits(), 1), 1);
    let empty: Vec<u64> = Vec::new();
    assert_eq!(pick_index(&empty, 0.5f64.to_bits(), 0), 0);
}
