//! Evaluation counting for a wrapped objective.
//!
//! The numerical layer wraps the caller's objective in a decorator that
//! forwards every call and records it here.  The counters are exact: one
//! increment per delegated call, never decremented, reset only by building
//! a fresh counter.

use vstd::prelude::*;

verus! {

/// The two kinds of delegated calls that the counting wrapper records.
#[derive(Clone, Copy, Debug, PartialEq, Eq, Structural)]
pub enum CallKind {
    Eval,
    Grad,
}

/// Pair of monotone call counters owned by the counting wrapper.
#[derive(Clone, Copy, Debug, PartialEq, Eq, Structural)]
pub struct EvalCounter {
    pub fun_evals: u64,
    pub grad_evals: u64,
}

impl EvalCounter {
    /// A fresh counter: no calls recorded yet.
    pub fn new() -> (c: Self)
        ensures
            c.fun_evals == 0,
            c.grad_evals == 0,
    {
        EvalCounter { fun_evals: 0, grad_evals: 0 }
    }

    /// Records one delegated call: the matching counter grows by exactly
    /// one and the other is untouched.
    pub fn record(&mut self, kind: CallKind)
        requires
            kind == CallKind::Eval ==> old(self).fun_evals < u64::MAX,
            kind == CallKind::Grad ==> old(self).grad_evals < u64::MAX,
        ensures
            kind == CallKind::Eval ==> final(self).fun_evals == old(self).fun_evals + 1
                && final(self).grad_evals == old(self).grad_evals,
            kind == CallKind::Grad ==> final(self).grad_evals == old(self).grad_evals + 1
                && final(self).fun_evals == old(self).fun_evals,
    {
        match kind {
            CallKind::Eval => {
                self.fun_evals = self.fun_evals + 1;
            }
            CallKind::Grad => {
                self.grad_evals = self.grad_evals + 1;
            }
        }
    }
}

/// How many events of the given kind a call history holds.
pub open spec fn count_matching(events: Seq<CallKind>, kind: CallKind) -> nat
    decreases events.len(),
{
    if events.len() == 0 {
        0
    } else {
        (if events.first() == kind {
            1nat
        } else {
            0nat
        }) + count_matching(events.drop_first(), kind)
    }
}

pub proof fn lemma_count_le_len(events: Seq<CallKind>, kind: CallKind)
    ensures
        count_matching(events, kind) <= events.len(),
    decreases events.len(),
{
    if events.len() > 0 {
        lemma_count_le_len(events.drop_first(), kind);
    }
}

pub proof fn lemma_count_push(events: Seq<CallKind>, e: CallKind, kind: CallKind)
    ensures
        count_matching(events.push(e), kind) == count_matching(events, kind) + (if e == kind {
            1int
        } else {
            0int
        }),
    decreases events.len(),
{
    if events.len() == 0 {
        assert(events.push(e).first() == e);
        assert(events.push(e).drop_first() =~= Seq::<CallKind>::empty());
        assert(count_matching(events.push(e), kind) == (if e == kind { 1nat } else { 0nat })
            + count_matching(Seq::<CallKind>::empty(), kind));
    } else {
        assert(events.push(e).first() == events.first());
        assert(events.push(e).drop_first() =~= events.drop_first().push(e));
        lemma_count_push(events.drop_first(), e, kind);
        assert(count_matching(events.push(e), kind) == (if events.first() == kind { 1nat } else { 0nat })
            + count_matching(events.drop_first().push(e), kind));
    }
}

/// The counter pair after a call history, starting from the given counts:
/// each event moves the pair exactly as `record` moves the counters.
pub open spec fn counts_after(fun: int, grad: int, events: Seq<CallKind>) -> (int, int)
    decreases events.len(),
{
    if events.len() == 0 {
        (fun, grad)
    } else if events.first() == CallKind::Eval {
        counts_after(fun + 1, grad, events.drop_first())
    } else {
        counts_after(fun, grad + 1, events.drop_first())
    }
}

/// Counting invariant: after any history of `n` forwarded `eval` calls and
/// `m` forwarded `grad` calls, in any interleaving, the counters stand at
/// exactly their starting values plus `n` and `m`.  The shared handle
/// serializes the owners' calls, so every run of the wrapper is one such
/// history.
pub proof fn lemma_counts_are_exact(fun: int, grad: int, events: Seq<CallKind>)
    ensures
        counts_after(fun, grad, events) == (
            fun + count_matching(events, CallKind::Eval),
            grad + count_matching(events, CallKind::Grad),
        ),
    decreases events.len(),
{
    if events.len() > 0 {
        if events.first() == CallKind::Eval {
            lemma_counts_are_exact(fun + 1, grad, events.drop_first());
        } else {
            lemma_counts_are_exact(fun, grad + 1, events.drop_first());
        }
    }
}

/// Replays a call history on a fresh counter: the result is exactly the
/// number of `Eval` and of `Grad` events in the history.
pub fn replay(events: &Vec<CallKind>) -> (c: EvalCounter)
    requires
        events@.len() < u64::MAX,
    ensures
        c.fun_evals == count_matching(events@, CallKind::Eval),
        c.grad_evals == count_matching(events@, CallKind::Grad),
{
    let mut c = EvalCounter::new();
    let mut i: usize = 0;
    while i < events.len()
        invariant
            i <= events@.len() < u64::MAX,
            c.fun_evals == count_matching(events@.take(i as int), CallKind::Eval),
            c.grad_evals == count_matching(events@.take(i as int), CallKind::Grad),
        decreases events@.len() - i,
    {
        proof {
            lemma_count_le_len(events@.take(i as int), CallKind::Eval);
            lemma_count_le_len(events@.take(i as int), CallKind::Grad);
            lemma_count_push(events@.take(i as int), events@[i as int], CallKind::Eval);
            lemma_count_push(events@.take(i as int), events@[i as int], CallKind::Grad);
            assert(events@.take(i + 1) =~= events@.take(i as int).push(events@[i as int]));
        }
        c.record(events[i]);
        i = i + 1;
    }
    proof {
        assert(events@.take(events@.len() as int) =~= events@);
    }
    c
}

} // verus!
