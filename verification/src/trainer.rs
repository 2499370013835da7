//! The state machine of the Baum-Welch trainer.
//!
//! Training alternates floating-point work (the forward-backward pass, the
//! posteriors, the re-estimation) with decisions: go on, stop because the
//! log-likelihood settled, or stop because the iteration budget is spent.
//! The decisions live here, fully verified; the caller performs the
//! arithmetic of each iteration and reports its log-likelihood and its
//! change since the previous iteration, as binary64 bit patterns.

use vstd::prelude::*;
use crate::bits::{float_abs, float_lt, ieee_lt, magnitude};

verus! {

/// The phase of a training run: freshly set up, between iterations, stopped
/// early because the log-likelihood settled, or stopped at the iteration
/// budget.
#[derive(Debug, Clone, Copy, PartialEq, Eq, Structural)]
pub enum TrainPhase {
    Initializing,
    Iterating,
    Converged,
    Exhausted,
}

/// Drives a training run: counts iterations, records the log-likelihood
/// trace, and decides after each iteration whether to go on. Running the
/// budget out is a normal outcome, distinguishable from convergence.
#[derive(Debug, Clone)]
pub struct BaumWelchDriver {
    pub max_iterations: usize,
    pub tolerance: u64,
    pub iterations_done: usize,
    pub phase: TrainPhase,
    pub trace: Vec<u64>,
}

impl BaumWelchDriver {
    /// The driver's invariant: the trace holds one entry per finished
    /// iteration, and each phase agrees with the iteration count.
    pub open spec fn wf(self) -> bool {
        &&& self.trace@.len() == self.iterations_done
        &&& self.iterations_done <= self.max_iterations
        &&& (self.phase == TrainPhase::Initializing ==> self.iterations_done == 0)
        &&& (self.phase == TrainPhase::Iterating ==> self.iterations_done < self.max_iterations)
        &&& (self.phase == TrainPhase::Exhausted ==> self.iterations_done == self.max_iterations)
    }

    /// Whether an iteration whose log-likelihood moved by `change` settles
    /// the run: the magnitude of the change lies strictly below the
    /// tolerance, and at least one earlier iteration exists to compare
    /// against — the first iteration is never taken for convergence.
    pub open spec fn converges_with(self, change: u64) -> bool {
        self.iterations_done >= 1 && ieee_lt(magnitude(change), self.tolerance)
    }

    /// Sets up a run with an iteration budget and a convergence tolerance
    /// (a binary64 bit pattern).
    pub fn new(max_iterations: usize, tolerance: u64) -> (d: Self)
        ensures
            d.wf(),
            d.max_iterations == max_iterations,
            d.tolerance == tolerance,
            d.iterations_done == 0,
            d.phase == TrainPhase::Initializing,
            d.trace@ =~= Seq::<u64>::empty(),
    {
        BaumWelchDriver {
            max_iterations,
            tolerance,
            iterations_done: 0,
            phase: TrainPhase::Initializing,
            trace: Vec::new(),
        }
    }

    /// Leaves the setup phase once the model is initialized. A budget of
    /// zero iterations is spent at once.
    pub fn start(&mut self)
        requires
            old(self).wf(),
            old(self).phase == TrainPhase::Initializing,
        ensures
            final(self).wf(),
            final(self).max_iterations == old(self).max_iterations,
            final(self).tolerance == old(self).tolerance,
            final(self).iterations_done == 0,
            final(self).trace == old(self).trace,
            final(self).phase == (if old(self).max_iterations == 0 {
                TrainPhase::Exhausted
            } else {
                TrainPhase::Iterating
            }),
    {
        if self.max_iterations == 0 {
            self.phase = TrainPhase::Exhausted;
        } else {
            self.phase = TrainPhase::Iterating;
        }
    }

    /// Records one finished iteration: its log-likelihood joins the trace,
    /// and the phase moves to `Converged` when the change settles the run,
    /// to `Exhausted` when the budget is spent, and stays `Iterating`
    /// otherwise.
    pub fn record_iteration(&mut self, log_likelihood: u64, change: u64)
        requires
            old(self).wf(),
            old(self).phase == TrainPhase::Iterating,
        ensures
            final(self).wf(),
            final(self).max_iterations == old(self).max_iterations,
            final(self).tolerance == old(self).tolerance,
            final(self).iterations_done == old(self).iterations_done + 1,
            final(self).trace@ =~= old(self).trace@.push(log_likelihood),
            final(self).phase == (if old(self).converges_with(change) {
                TrainPhase::Converged
            } else if old(self).iterations_done + 1 == old(self).max_iterations {
                TrainPhase::Exhausted
            } else {
                TrainPhase::Iterating
            }),
    {
        let settled = self.iterations_done >= 1 && float_lt(float_abs(change), self.tolerance);
        self.trace.push(log_likelihood);
        self.iterations_done = self.iterations_done + 1;
        if settled {
            self.phase = TrainPhase::Converged;
        } else if self.iterations_done == self.max_iterations {
            self.phase = TrainPhase::Exhausted;
        } else {
            self.phase = TrainPhase::Iterating;
        }
    }

    /// Whether another iteration should run.
    pub fn is_running(&self) -> (r: bool)
        ensures
            r == (self.phase == TrainPhase::Iterating),
    {
        self.phase == TrainPhase::Iterating
    }

    /// Whether the run stopped early because the log-likelihood settled.
    pub fn has_converged(&self) -> (r: bool)
        ensures
            r == (self.phase == TrainPhase::Converged),
    {
        self.phase == TrainPhase::Converged
    }
}

/// Counts the numerical degeneracies a run recovered from. Each recovery
/// is silent by design — the affected row or parameter keeps its previous
/// value — so these counts are the only way to observe one.
#[derive(Debug, Clone, Copy, PartialEq, Eq, Structural)]
pub struct DegeneracyCounts {
    pub zero_sum_rows: usize,
    pub kept_transition_rows: usize,
    pub kept_emission_states: usize,
}

impl DegeneracyCounts {
    /// No degeneracies yet.
    pub fn new() -> (c: Self)
        ensures
            c.zero_sum_rows == 0,
            c.kept_transition_rows == 0,
            c.kept_emission_states == 0,
    {
        DegeneracyCounts { zero_sum_rows: 0, kept_transition_rows: 0, kept_emission_states: 0 }
    }

    /// Notes a table row whose scaling or normalizing sum was zero and
    /// which was therefore left as it was. Saturates at the counter limit.
    pub fn note_zero_sum_row(&mut self)
        ensures
            final(self).zero_sum_rows == (if old(self).zero_sum_rows < usize::MAX {
                old(self).zero_sum_rows + 1
            } else {
                old(self).zero_sum_rows as int
            }),
            final(self).kept_transition_rows == old(self).kept_transition_rows,
            final(self).kept_emission_states == old(self).kept_emission_states,
    {
        if self.zero_sum_rows < usize::MAX {
            self.zero_sum_rows = self.zero_sum_rows + 1;
        }
    }

    /// Notes a transition row kept from the previous iteration because its
    /// accumulated posterior weight was too small to divide by.
    pub fn note_kept_transition_row(&mut self)
        ensures
            final(self).kept_transition_rows == (if old(self).kept_transition_rows < usize::MAX {
                old(self).kept_transition_rows + 1
            } else {
                old(self).kept_transition_rows as int
            }),
            final(self).zero_sum_rows == old(self).zero_sum_rows,
            final(self).kept_emission_states == old(self).kept_emission_states,
    {
        if self.kept_transition_rows < usize::MAX {
            self.kept_transition_rows = self.kept_transition_rows + 1;
        }
    }

    /// Notes a state whose emission parameters were kept because its
    /// posterior weight was too small.
    pub fn note_kept_emission_state(&mut self)
        ensures
            final(self).kept_emission_states == (if old(self).kept_emission_states < usize::MAX {
                old(self).kept_emission_states + 1
            } else {
                old(self).kept_emission_states as int
            }),
            final(self).zero_sum_rows == old(self).zero_sum_rows,
            final(self).kept_transition_rows == old(self).kept_transition_rows,
    {
        if self.kept_emission_states < usize::MAX {
            self.kept_emission_states = self.kept_emission_states + 1;
        }
    }
}

/// The first iteration of a run is never taken for convergence, whatever
/// change is reported for it: there is no earlier log-likelihood to have
/// settled against.
pub proof fn lemma_first_iteration_never_converges(d: BaumWelchDriver, change: u64)
    requires
        d.iterations_done == 0,
    ensures
        !d.converges_with(change),
{
}

} // verus!
