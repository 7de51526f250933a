//! Control core of the interpolation line search.
//!
//! The search explores a fixed schedule of trial pairs: the initial pair,
//! then each round one pair shrinking toward zero and one pair growing away
//! from zero.  The numerical layer evaluates the objective at a trial pair,
//! forms an interpolation guess and tests the Wolfe conditions; this module
//! decides which trial comes next and when the search fails.

use vstd::prelude::*;

verus! {

/// Terminal failures of a line search.
#[derive(Clone, Copy, Debug, PartialEq, Eq, Structural)]
pub enum Error {
    /// No interpolation candidate could be formed or accepted.
    NotDecreasing,
    /// The sufficient-decrease condition failed.
    Armijo,
    /// The curvature condition failed.
    Curvature,
    /// The bracket search exhausted its rounds.
    MaxIterations,
    /// Reserved guard for a vanishing step.
    StepSizeSmall,
}

/// The Wolfe acceptance gate.  The sufficient-decrease test is checked
/// first and short-circuits: a step failing both conditions reports
/// `Armijo`, never `Curvature`.
pub fn wolfe_verdict(armijo_ok: bool, curvature_ok: bool) -> (r: Result<(), Error>)
    ensures
        r == (if !armijo_ok {
            Err::<(), Error>(Error::Armijo)
        } else if !curvature_ok {
            Err::<(), Error>(Error::Curvature)
        } else {
            Ok::<(), Error>(())
        }),
{
    if !armijo_ok {
        return Err(Error::Armijo);
    }
    if !curvature_ok {
        return Err(Error::Curvature);
    }
    Ok(())
}

/// One trial of the search schedule.  `First` is the pair of provisional
/// steps the search opens with; in round `round` the `Low` pair has been
/// shrunk toward zero `round + 1` times and the `High` pair grown away
/// from zero `round + 1` times.
#[derive(Clone, Copy, Debug, PartialEq, Eq, Structural)]
pub enum Trial {
    First,
    Low { round: usize },
    High { round: usize },
}

/// What the search does after a trial was evaluated.
#[derive(Clone, Copy, Debug, PartialEq, Eq, Structural)]
pub enum Verdict {
    /// The trial's guess satisfied the Wolfe conditions: stop and return it.
    Accepted,
    /// Move on to the next trial of the schedule.
    Continue,
    /// The schedule is exhausted: fail with this error.
    Failed(Error),
}

/// Driver state of the interpolation search: which trial of the schedule
/// runs next.  The schedule holds the initial pair and then a shrinking
/// and a growing pair per round, `1 + 2 * maxiter` trials in all.
#[derive(Clone, Copy, Debug, PartialEq, Eq, Structural)]
pub struct InterpCtrl {
    pub maxiter: usize,
    pub next_trial: usize,
}

impl InterpCtrl {
    /// How many trials the schedule holds in all.
    pub open spec fn total_trials(self) -> int {
        1 + 2 * self.maxiter
    }

    pub open spec fn wf(self) -> bool {
        &&& self.maxiter <= (usize::MAX - 1) / 2
        &&& self.next_trial <= self.total_trials()
    }

    /// The trial at position `i` of the schedule: the initial pair first,
    /// then the shrinking and the growing pair of each round in turn.
    pub open spec fn trial_at(i: int) -> Trial {
        if i == 0 {
            Trial::First
        } else if (i - 1) % 2 == 0 {
            Trial::Low { round: ((i - 1) / 2) as usize }
        } else {
            Trial::High { round: ((i - 1) / 2) as usize }
        }
    }

    /// A fresh driver, about to run the initial trial.
    pub fn new(maxiter: usize) -> (c: Self)
        requires
            maxiter <= (usize::MAX - 1) / 2,
        ensures
            c.wf(),
            c.maxiter == maxiter,
            c.next_trial == 0,
    {
        InterpCtrl { maxiter, next_trial: 0 }
    }

    /// The trial to evaluate next.
    pub fn current(&self) -> (t: Trial)
        requires
            self.wf(),
            self.next_trial < self.total_trials(),
        ensures
            t == Self::trial_at(self.next_trial as int),
    {
        if self.next_trial == 0 {
            Trial::First
        } else {
            let k: usize = (self.next_trial - 1) / 2;
            if (self.next_trial - 1) % 2 == 0 {
                Trial::Low { round: k }
            } else {
                Trial::High { round: k }
            }
        }
    }

    /// The transition the driver makes once a trial's outcome is known.
    pub open spec fn step_spec(self, accepted: bool) -> (Self, Verdict) {
        let stepped = InterpCtrl { next_trial: (self.next_trial + 1) as usize, ..self };
        let v = if accepted {
            Verdict::Accepted
        } else if self.next_trial + 1 == self.total_trials() {
            Verdict::Failed(Error::MaxIterations)
        } else {
            Verdict::Continue
        };
        (stepped, v)
    }

    /// Consumes the outcome of the current trial.  An accepted guess stops
    /// the search at once; otherwise the schedule moves on, and running out
    /// of trials is the sole terminal failure, `MaxIterations`.
    pub fn advance(&mut self, accepted: bool) -> (v: Verdict)
        requires
            old(self).wf(),
            old(self).next_trial < old(self).total_trials(),
        ensures
            final(self).wf(),
            (*final(self), v) == old(self).step_spec(accepted),
            final(self).maxiter == old(self).maxiter,
            final(self).next_trial == old(self).next_trial + 1,
            v == Verdict::Continue ==> final(self).next_trial < final(self).total_trials(),
    {
        self.next_trial = self.next_trial + 1;
        if accepted {
            Verdict::Accepted
        } else if self.next_trial == 1 + 2 * self.maxiter {
            Verdict::Failed(Error::MaxIterations)
        } else {
            Verdict::Continue
        }
    }
}

/// The verdict of a whole search fed by a history of trial outcomes:
/// step through the schedule until a guess is accepted or the schedule
/// runs out.  `Continue` stands for a history too short to reach either.
pub open spec fn search_run_spec(s: InterpCtrl, outcomes: Seq<bool>) -> Verdict
    decreases outcomes.len(),
{
    if s.next_trial >= s.total_trials() || outcomes.len() == 0 {
        Verdict::Continue
    } else {
        let (s2, v) = s.step_spec(outcomes.first());
        if v == Verdict::Continue {
            search_run_spec(s2, outcomes.drop_first())
        } else {
            v
        }
    }
}

/// The search terminates within its schedule, and exhausting the schedule
/// is its sole terminal failure: whatever the trial outcomes are, a run
/// over the remaining schedule ends in `Accepted` or in
/// `Failed(MaxIterations)`.
pub proof fn lemma_search_terminates(s: InterpCtrl, outcomes: Seq<bool>)
    requires
        s.wf(),
        s.next_trial < s.total_trials(),
        outcomes.len() >= s.total_trials() - s.next_trial,
    ensures
        search_run_spec(s, outcomes) == Verdict::Accepted || search_run_spec(s, outcomes)
            == Verdict::Failed(Error::MaxIterations),
    decreases outcomes.len(),
{
    let (s2, v) = s.step_spec(outcomes.first());
    if v == Verdict::Continue {
        lemma_search_terminates(s2, outcomes.drop_first());
    }
}

/// Both trial families are explored in every round, the shrinking pair
/// first: round `k` occupies schedule positions `2k + 1` and `2k + 2`.
pub proof fn lemma_trial_schedule(k: int)
    requires
        0 <= k <= (usize::MAX - 1) / 2,
    ensures
        InterpCtrl::trial_at(0) == Trial::First,
        InterpCtrl::trial_at(2 * k + 1) == (Trial::Low { round: k as usize }),
        InterpCtrl::trial_at(2 * k + 2) == (Trial::High { round: k as usize }),
{
}

/// Strategy tag consumed by the factory: the discrete parameters of each
/// available line-search strategy.
#[derive(Clone, Copy, Debug, PartialEq, Eq, Structural)]
pub enum Method {
    Interp { maxiter: usize },
}

/// Builds the driver for the chosen strategy.
pub fn create(method: Method) -> (c: InterpCtrl)
    requires
        method matches Method::Interp { maxiter } ==> maxiter <= (usize::MAX - 1) / 2,
    ensures
        c.wf(),
        c.next_trial == 0,
        method == (Method::Interp { maxiter: c.maxiter }),
{
    match method {
        Method::Interp { maxiter } => InterpCtrl::new(maxiter),
    }
}

} // verus!
