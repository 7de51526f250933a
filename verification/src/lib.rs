//! Control core of a gradient-based unconstrained minimizer.
//!
//! The numerical layer (objective evaluation, interpolation arithmetic,
//! vector algebra) feeds this core plain events: whether a trial step was
//! accepted, whether a gradient norm fell below a threshold, whether a
//! direction is a descent direction.  The core decides what happens next —
//! which trial to run, when to restart, when to declare convergence, which
//! error to surface — and every one of those decisions is verified here.

pub mod counting;
pub mod line_search;
pub mod unconstrained;
