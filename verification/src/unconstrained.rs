//! Control core of the conjugate-gradient minimizer.
//!
//! Each outer iteration the numerical layer reports plain events — was the
//! direction a descent direction, did the line search succeed, did the
//! gradient norm fall below a threshold — and this module decides restart,
//! convergence, failure and iteration accounting.

use vstd::prelude::*;
use crate::line_search;

verus! {

/// Why the minimizer declared convergence.
#[derive(Clone, Copy, Debug, PartialEq, Eq, Structural)]
pub enum ConvergedReason {
    /// The gradient norm fell below `grad_rtol`.
    Rtol,
    /// The gradient norm fell below `grad_atol`.
    Atol,
}

/// Terminal failures of the minimizer.
#[derive(Clone, Copy, Debug, PartialEq, Eq, Structural)]
pub enum Error {
    /// A line-search failure, forwarded unchanged.
    LineSearch(line_search::Error),
    /// The outer loop exhausted its iteration budget.
    MaxIterations(u64),
}

/// Direction update rule for the conjugate-gradient iteration.
#[derive(Clone, Copy, Debug, PartialEq, Eq, Structural)]
pub enum Direction {
    Steepest,
    FletcherReeves,
    PolakRibiere,
}

/// Discrete configuration of the minimizer: the iteration budget, the
/// restart period, the direction rule and the line-search strategy tag.
/// The numerical thresholds (`grad_rtol`, `grad_atol`) and the strategy's
/// step parameters live with the numerical layer.
#[derive(Clone, Copy, Debug, PartialEq, Eq, Structural)]
pub struct Options {
    pub max_iter: u64,
    pub restart: u64,
    pub direction: Direction,
    pub ls_method: line_search::Method,
}

/// What the numerical layer reports at the end of one outer iteration.
#[derive(Clone, Copy, Debug, PartialEq, Eq, Structural)]
pub enum IterOutcome {
    /// The line search failed; the error is forwarded as it came.
    SearchFailed(line_search::Error),
    /// The point advanced and the gradient was recomputed; the flags say
    /// whether its norm fell below `grad_rtol` resp. `grad_atol`.
    Advanced { rtol_hit: bool, atol_hit: bool },
}

/// What the minimizer does after one outer iteration.
#[derive(Clone, Copy, Debug, PartialEq, Eq, Structural)]
pub enum CgVerdict {
    /// Run the next iteration.
    Continue,
    /// Stop and report convergence.
    Converged(ConvergedReason),
    /// Stop and report this failure.
    Failed(Error),
}

/// Driver state of the conjugate-gradient outer loop: the 1-indexed
/// number of the iteration about to run, the iteration budget and the
/// restart period.
#[derive(Clone, Copy, Debug, PartialEq, Eq, Structural)]
pub struct CgCtrl {
    pub iter: u64,
    pub max_iter: u64,
    pub restart_period: u64,
}

impl CgCtrl {
    pub open spec fn wf(self) -> bool {
        &&& 1 <= self.iter <= self.max_iter + 1
        &&& self.restart_period >= 1
        &&& self.max_iter < u64::MAX
    }

    /// A fresh driver, about to run iteration 1.
    pub fn new(opts: Options) -> (c: Self)
        requires
            opts.restart >= 1,
            opts.max_iter < u64::MAX,
        ensures
            c.wf(),
            c.iter == 1,
            c.max_iter == opts.max_iter,
            c.restart_period == opts.restart,
    {
        CgCtrl { iter: 1, max_iter: opts.max_iter, restart_period: opts.restart }
    }

    /// Whether the iteration about to run is within the budget.
    pub fn has_iterations_left(&self) -> (r: bool)
        ensures
            r == (self.iter <= self.max_iter),
    {
        self.iter <= self.max_iter
    }

    /// The failure reported once the budget is exhausted.
    pub fn exhausted_error(&self) -> (e: Error)
        requires
            self.iter > self.max_iter,
        ensures
            e == Error::MaxIterations(self.max_iter),
    {
        Error::MaxIterations(self.max_iter)
    }

    /// The restart rule of the current iteration.
    pub open spec fn restart_spec(self, descending: bool) -> bool {
        self.iter % self.restart_period == 0 || !descending
    }

    /// Decides the restart of the current iteration: the direction is reset
    /// to the steepest-descent direction `-g` when the iteration number is a
    /// multiple of the restart period, or when the current direction is not
    /// a descent direction.
    pub fn restart_now(&self, descending: bool) -> (r: bool)
        requires
            self.wf(),
        ensures
            r == self.restart_spec(descending),
    {
        self.iter % self.restart_period == 0 || !descending
    }

    /// Decides convergence from the two threshold flags.  `Rtol` is checked
    /// first: when both thresholds are met the reason is `Rtol`.
    pub fn is_converged(&self, rtol_hit: bool, atol_hit: bool) -> (r: Option<ConvergedReason>)
        ensures
            r == (if rtol_hit {
                Some(ConvergedReason::Rtol)
            } else if atol_hit {
                Some(ConvergedReason::Atol)
            } else {
                None::<ConvergedReason>
            }),
    {
        if rtol_hit {
            Some(ConvergedReason::Rtol)
        } else if atol_hit {
            Some(ConvergedReason::Atol)
        } else {
            None
        }
    }

    /// The transition the driver makes once an iteration's outcome is known.
    pub open spec fn step_spec(self, outcome: IterOutcome) -> (Self, CgVerdict) {
        match outcome {
            IterOutcome::SearchFailed(e) => (self, CgVerdict::Failed(Error::LineSearch(e))),
            IterOutcome::Advanced { rtol_hit, atol_hit } => {
                if rtol_hit {
                    (self, CgVerdict::Converged(ConvergedReason::Rtol))
                } else if atol_hit {
                    (self, CgVerdict::Converged(ConvergedReason::Atol))
                } else {
                    (CgCtrl { iter: (self.iter + 1) as u64, ..self }, CgVerdict::Continue)
                }
            }
        }
    }

    /// Consumes the outcome of the current iteration.  A line-search
    /// failure is forwarded unchanged and at once; convergence stops the
    /// loop with `Rtol` checked before `Atol`; otherwise the next
    /// iteration begins.  Only a continuing iteration advances the count,
    /// so on a stop `self.iter` is the iteration that stopped.
    pub fn advance(&mut self, outcome: IterOutcome) -> (v: CgVerdict)
        requires
            old(self).wf(),
            old(self).iter <= old(self).max_iter,
        ensures
            final(self).wf(),
            (*final(self), v) == old(self).step_spec(outcome),
            final(self).max_iter == old(self).max_iter,
            final(self).restart_period == old(self).restart_period,
    {
        match outcome {
            IterOutcome::SearchFailed(e) => CgVerdict::Failed(Error::LineSearch(e)),
            IterOutcome::Advanced { rtol_hit, atol_hit } => {
                match self.is_converged(rtol_hit, atol_hit) {
                    Some(reason) => CgVerdict::Converged(reason),
                    None => {
                        self.iter = self.iter + 1;
                        CgVerdict::Continue
                    }
                }
            }
        }
    }

    /// The verdict of a whole run fed by a history of iteration outcomes:
    /// iterate until a terminal verdict, or until the budget is exhausted,
    /// which fails with `MaxIterations`.  `Continue` stands for a history
    /// too short to reach either.
    pub open spec fn run_spec(self, events: Seq<IterOutcome>) -> CgVerdict
        decreases events.len(),
    {
        if self.iter > self.max_iter {
            CgVerdict::Failed(Error::MaxIterations(self.max_iter))
        } else if events.len() == 0 {
            CgVerdict::Continue
        } else {
            let (s2, v) = self.step_spec(events.first());
            if v == CgVerdict::Continue {
                s2.run_spec(events.drop_first())
            } else {
                v
            }
        }
    }
}

/// With a restart period of one, every iteration restarts, whatever the
/// iteration number and whether or not the direction still descends: the
/// iteration degenerates to steepest descent, each direction `-g`.
pub proof fn lemma_restart_every_iteration(s: CgCtrl, descending: bool)
    requires
        s.wf(),
        s.restart_period == 1,
    ensures
        s.restart_spec(descending),
{
}

/// The outer loop terminates: a run from a well-formed state reaches a
/// terminal verdict — convergence or a typed failure — within its
/// iteration budget, whatever the iteration outcomes are.
pub proof fn lemma_run_terminates(s: CgCtrl, events: Seq<IterOutcome>)
    requires
        s.wf(),
        events.len() >= s.max_iter - s.iter + 1,
    ensures
        s.run_spec(events) != CgVerdict::Continue,
    decreases events.len(),
{
    if s.iter <= s.max_iter {
        let (s2, v) = s.step_spec(events.first());
        if v == CgVerdict::Continue {
            lemma_run_terminates(s2, events.drop_first());
        }
    }
}

} // verus!
