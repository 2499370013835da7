//! The trainer's phase machine and the degeneracy counters.

use hmm_core::trainer::{BaumWelchDriver, DegeneracyCounts, TrainPhase};

fn diff(a: f64, b: f64) -> u64 {
    (a - b).to_bits()
}

#[test]
fn a_run_starts_iterating() {
    let mut d = BaumWelchDriver::new(5, 1e-6f64.to_bits());
    assert_eq!(d.phase, TrainPhase::Initializing);
    assert_eq!(d.iterations_done, 0);
    assert!(d.trace.is_empty());
    d.start();
    assert_eq!(d.phase, TrainPhase::Iterating);
    assert!(d.is_running());
}

#[test]
fn a_zero_budget_is_spent_at_once() {
    let mut d = BaumWelchDriver::new(0, 1e-6f64.to_bits());
    d.start();
    assert_eq!(d.phase, TrainPhase::Exhausted);
    assert!(!d.has_converged());
}

#[test]
fn the_first_iteration_never_converges() {
    // The previous log-likelihood starts at negative infinity, so the first
    // change is infinite; and even a zero change is not taken for
    // convergence before a second iteration exists.
    let mut d = BaumWelchDriver::new(3, 1e-6f64.to_bits());
    d.start();
    d.record_iteration((-10.0f64).to_bits(), diff(-10.0, f64::NEG_INFINITY));
    assert_eq!(d.phase, TrainPhase::Iterating);
    let mut d2 = BaumWelchDriver::new(3, 1e-6f64.to_bits());
    d2.start();
    d2.record_iteration((-10.0f64).to_bits(), 0.0f64.to_bits());
    assert_eq!(d2.phase, TrainPhase::Iterating);
}

#[test]
fn a_settled_change_converges_the_run() {
    let mut d = BaumWelchDriver::new(10, 1e-6f64.to_bits());
    d.start();
    d.record_iteration((-10.0f64).to_bits(), diff(-10.0, f64::NEG_INFINITY));
    d.record_iteration((-9.0f64).to_bits(), diff(-9.0, -10.0));
    assert_eq!(d.phase, TrainPhase::Iterating);
    d.record_iteration((-9.0f64).to_bits(), diff(-9.0, -9.0));
    assert_eq!(d.phase, TrainPhase::Converged);
    assert!(d.has_converged());
    assert!(!d.is_running());
    assert_eq!(d.iterations_done, 3);
    let trace: Vec<f64> = d.trace.iter().map(|b| f64::from_bits(*b)).collect();
    assert_eq!(trace, vec![-10.0, -9.0, -9.0]);
}

#[test]
fn a_change_at_the_tolerance_does_not_converge() {
    let tol = 1e-6f64;
    let mut d = BaumWelchDriver::new(9, tol.to_bits());
    d.start();
    d.record_iteration((-5.0f64).to_bits(), diff(-5.0, f64::NEG_INFINITY));
    d.record_iteration((-5.0f64).to_bits(), tol.to_bits());
    assert_eq!(d.phase, TrainPhase::Iterating);
    d.record_iteration((-5.0f64).to_bits(), (-tol).to_bits());
    assert_eq!(d.phase, TrainPhase::Iterating);
    d.record_iteration((-5.0f64).to_bits(), (tol / 2.0).to_bits());
    assert_eq!(d.phase, TrainPhase::Converged);
}

#[test]
fn an_unsettled_run_exhausts_its_budget() {
    let mut d = BaumWelchDriver::new(2, 1e-6f64.to_bits());
    d.start();
    d.record_iteration((-10.0f64).to_bits(), diff(-10.0, f64::NEG_INFINITY));
    assert_eq!(d.phase, TrainPhase::Iterating);
    d.record_iteration((-5.0f64).to_bits(), diff(-5.0, -10.0));
    assert_eq!(d.phase, TrainPhase::Exhausted);
    assert!(!d.has_converged());
    assert_eq!(d.iterations_done, 2);
}

#[test]
fn degeneracy_counts_record_each_recovery() {
    let mut c = DegeneracyCounts::new();
    assert_eq!(c.zero_sum_rows, 0);
    c.note_zero_sum_row();
    c.note_zero_sum_row();
    c.note_kept_transition_row();
    c.note_kept_emission_state();
    c.note_kept_emission_state();
    c.note_kept_emission_state();
    assert_eq!(c.zero_sum_rows, 2);
    assert_eq!(c.kept_transition_rows, 1);
    assert_eq!(c.kept_emission_states, 3);
}
