use vstd::prelude::*;

verus! {

use crate::scalar::{
    Scalar,
    BITS_ONE,
    BITS_HALF,
    BITS_FIFTH,
    BITS_1E_MINUS_6,
    BITS_1E_PLUS_9,
};

/// Settings of the backtracking line search: the starting step, the
/// backtracking factor, and the sufficient-decrease constant.
pub struct StepSizeControl<S> {
    pub alpha_0: S,
    pub tau: S,
    pub c: S,
}

impl<S: Scalar> Default for StepSizeControl<S> {
    /// The documented defaults: step one, halving, one fifth.
    fn default() -> (r: Self)
        ensures
            r.alpha_0 == S::from_bits_spec(BITS_ONE),
            r.tau == S::from_bits_spec(BITS_HALF),
            r.c == S::from_bits_spec(BITS_FIFTH),
    {
        Self {
            alpha_0: S::from_bits(BITS_ONE),
            tau: S::from_bits(BITS_HALF),
            c: S::from_bits(BITS_FIFTH),
        }
    }
}

/// Settings of the logarithmic barrier: its starting parameter and the
/// factor it shrinks by each outer iteration.
pub struct BoundsHandler<S> {
    pub barrier_parameter: S,
    pub barrier_decrease_factor: S,
}

impl<S: Scalar> Default for BoundsHandler<S> {
    /// The documented defaults: ten to the minus sixth, halving.
    fn default() -> (r: Self)
        ensures
            r.barrier_parameter == S::from_bits_spec(BITS_1E_MINUS_6),
            r.barrier_decrease_factor == S::from_bits_spec(BITS_HALF),
    {
        Self {
            barrier_parameter: S::from_bits(BITS_1E_MINUS_6),
            barrier_decrease_factor: S::from_bits(BITS_HALF),
        }
    }
}

/// Settings of the augmented-Lagrangian handler: the fixed penalty
/// coefficient.
pub struct ConstraintsHandler<S> {
    pub c: S,
}

impl<S: Scalar> Default for ConstraintsHandler<S> {
    /// The documented default: ten to the ninth.
    fn default() -> (r: Self)
        ensures
            r.c == S::from_bits_spec(BITS_1E_PLUS_9),
    {
        Self { c: S::from_bits(BITS_1E_PLUS_9) }
    }
}

/// Settings of the iteration log: one line every so many iterations.
pub struct Logger {
    pub frequency: u32,
}

impl Default for Logger {
    /// The documented default: every iteration.
    fn default() -> (r: Self)
        ensures
            r.frequency == 1u32,
    {
        Self { frequency: 1 }
    }
}

/// All settings of one solve.
pub struct Options<S> {
    pub step_size_control: StepSizeControl<S>,
    pub bounds_handler: BoundsHandler<S>,
    pub constraints_handler: ConstraintsHandler<S>,
    pub logger: Logger,
}

impl<S: Scalar> Default for Options<S> {
    /// Every group at its documented default.
    fn default() -> (r: Self)
        ensures
            r.step_size_control.alpha_0 == S::from_bits_spec(BITS_ONE),
            r.step_size_control.tau == S::from_bits_spec(BITS_HALF),
            r.step_size_control.c == S::from_bits_spec(BITS_FIFTH),
            r.bounds_handler.barrier_parameter == S::from_bits_spec(BITS_1E_MINUS_6),
            r.bounds_handler.barrier_decrease_factor == S::from_bits_spec(BITS_HALF),
            r.constraints_handler.c == S::from_bits_spec(BITS_1E_PLUS_9),
            r.logger.frequency == 1u32,
    {
        Self {
            step_size_control: Default::default(),
            bounds_handler: Default::default(),
            constraints_handler: Default::default(),
            logger: Default::default(),
        }
    }
}

} // verus!
