use topohedral_optimize::counting::{replay, CallKind, EvalCounter};

#[test]
fn test_fresh_counter_is_zero() {
    let c = EvalCounter::new();
    assert_eq!(c.fun_evals, 0);
    assert_eq!(c.grad_evals, 0);
}

#[test]
fn test_each_call_counts_exactly_once() {
    let mut c = EvalCounter::new();
    c.record(CallKind::Eval);
    c.record(CallKind::Eval);
    c.record(CallKind::Grad);
    c.record(CallKind::Eval);
    assert_eq!(c.fun_evals, 3);
    assert_eq!(c.grad_evals, 1);
}

#[test]
fn test_replay_counts_a_history_exactly() {
    // Five evals and three grads, interleaved: the counters land on
    // exactly five and three.
    let history = vec![
        CallKind::Eval,
        CallKind::Grad,
        CallKind::Eval,
        CallKind::Eval,
        CallKind::Grad,
        CallKind::Eval,
        CallKind::Grad,
        CallKind::Eval,
    ];
    let c = replay(&history);
    assert_eq!(c.fun_evals, 5);
    assert_eq!(c.grad_evals, 3);
}

#[test]
fn test_replay_empty_history() {
    let c = replay(&Vec::new());
    assert_eq!(c.fun_evals, 0);
    assert_eq!(c.grad_evals, 0);
}
