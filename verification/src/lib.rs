//! A constrained nonlinear-programming solver over an abstract, exactly
//! specified scalar arithmetic.
//!
//! A caller describes a problem through the [`NLP`](nlp::NLP) interface and a
//! scalar arithmetic through the [`Scalar`](scalar::Scalar) trait — most
//! usefully a wrapper around a floating-point type, decoded from the bit
//! patterns in [`scalar`] — and delegates the search to the
//! [`Solver`](solver::Solver): a log-barrier for the variable bounds, an
//! augmented Lagrangian for the constraints, steepest-descent and
//! quasi-Newton search directions, and a backtracking line search.  Every
//! computation the solver makes is pinned by its contract to a composition
//! of the scalar operations.

pub mod nlp;
pub mod optimizer;
pub mod options;
pub mod output;
pub mod scalar;
pub mod step_size_control;
pub mod solver;
pub mod vec_utils;

pub use nlp::{NlpInfo, ObjectiveSense, VariableBounds, NLP};
pub use optimizer::{Bfgs, OptContext, Optimizer, SteepestDescent};
pub use options::Options;
pub use options::{
    BoundsHandler as OptionsBoundsHandler, ConstraintsHandler as OptionsConstraintsHandler,
    Logger as OptionsLogger, StepSizeControl as OptionsStepSizeControl,
};
pub use output::{Frequency, SolverLogger, StdoutLogger};
pub use scalar::Scalar;
pub use step_size_control::{ArmijoGoldsteinRule, ObjectiveFn, StepInfo, StepSizeControl};
pub use solver::{AdaptedObjective, AugmentedLagrangianConstraintHandler, BarrierBoundsHandler, Solution, Solver};
pub use vec_utils::{add, inner_product, norm2, norm2_sqr, scaled};
