use topohedral_optimize::line_search;
use topohedral_optimize::unconstrained::{
    CgCtrl, CgVerdict, ConvergedReason, Direction, Error, IterOutcome, Options,
};

fn opts(max_iter: u64, restart: u64) -> Options {
    Options {
        max_iter,
        restart,
        direction: Direction::Steepest,
        ls_method: line_search::Method::Interp { maxiter: 10 },
    }
}

#[test]
fn test_restart_every_iteration_with_period_one() {
    // Restart period 1 degenerates to steepest descent: the restart rule
    // fires on every iteration, whatever the descent flag says.
    let mut ctrl = CgCtrl::new(opts(50, 1));
    for _ in 0..10 {
        assert!(ctrl.restart_now(true));
        assert!(ctrl.restart_now(false));
        let v = ctrl.advance(IterOutcome::Advanced { rtol_hit: false, atol_hit: false });
        assert_eq!(v, CgVerdict::Continue);
    }
}

#[test]
fn test_restart_at_period_multiples() {
    let mut ctrl = CgCtrl::new(opts(50, 3));
    let mut fired = Vec::new();
    for _ in 1..=6 {
        fired.push(ctrl.restart_now(true));
        ctrl.advance(IterOutcome::Advanced { rtol_hit: false, atol_hit: false });
    }
    assert_eq!(fired, vec![false, false, true, false, false, true]);
}

#[test]
fn test_non_descent_direction_forces_restart() {
    let ctrl = CgCtrl::new(opts(50, 10));
    // Iteration 1 is not a multiple of 10, yet a non-descent direction
    // must still force a restart.
    assert!(!ctrl.restart_now(true));
    assert!(ctrl.restart_now(false));
}

#[test]
fn test_convergence_reason_rtol_before_atol() {
    let ctrl = CgCtrl::new(opts(10, 2));
    assert_eq!(ctrl.is_converged(true, true), Some(ConvergedReason::Rtol));
    assert_eq!(ctrl.is_converged(true, false), Some(ConvergedReason::Rtol));
    assert_eq!(ctrl.is_converged(false, true), Some(ConvergedReason::Atol));
    assert_eq!(ctrl.is_converged(false, false), None);
}

#[test]
fn test_line_search_failure_is_forwarded_unchanged() {
    let mut ctrl = CgCtrl::new(opts(10, 2));
    let v = ctrl.advance(IterOutcome::SearchFailed(line_search::Error::Curvature));
    assert_eq!(
        v,
        CgVerdict::Failed(Error::LineSearch(line_search::Error::Curvature))
    );
    let mut ctrl2 = CgCtrl::new(opts(10, 2));
    let v2 = ctrl2.advance(IterOutcome::SearchFailed(line_search::Error::Armijo));
    assert_eq!(
        v2,
        CgVerdict::Failed(Error::LineSearch(line_search::Error::Armijo))
    );
}

#[test]
fn test_budget_exhaustion_fails_with_max_iterations() {
    let mut ctrl = CgCtrl::new(opts(2, 5));
    assert!(ctrl.has_iterations_left());
    assert_eq!(
        ctrl.advance(IterOutcome::Advanced { rtol_hit: false, atol_hit: false }),
        CgVerdict::Continue
    );
    assert!(ctrl.has_iterations_left());
    assert_eq!(
        ctrl.advance(IterOutcome::Advanced { rtol_hit: false, atol_hit: false }),
        CgVerdict::Continue
    );
    assert!(!ctrl.has_iterations_left());
    assert_eq!(ctrl.exhausted_error(), Error::MaxIterations(2));
}

#[test]
fn test_zero_budget_has_no_iterations() {
    let ctrl = CgCtrl::new(opts(0, 1));
    assert!(!ctrl.has_iterations_left());
    assert_eq!(ctrl.exhausted_error(), Error::MaxIterations(0));
}

#[test]
fn test_convergence_keeps_iteration_number() {
    let mut ctrl = CgCtrl::new(opts(10, 3));
    ctrl.advance(IterOutcome::Advanced { rtol_hit: false, atol_hit: false });
    ctrl.advance(IterOutcome::Advanced { rtol_hit: false, atol_hit: false });
    let v = ctrl.advance(IterOutcome::Advanced { rtol_hit: true, atol_hit: false });
    assert_eq!(v, CgVerdict::Converged(ConvergedReason::Rtol));
    // The third iteration converged; the count does not move past it.
    assert_eq!(ctrl.iter, 3);
}
