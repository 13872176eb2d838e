use vstd::prelude::*;

verus! {

use crate::nlp::{ObjectiveSense, VariableBounds};
use crate::scalar::{Scalar, BITS_INFINITY, BITS_NEG_INFINITY, BITS_NEG_ONE, BITS_ONE, BITS_ZERO};
use crate::vec_utils::zero_of;

/// The sign the barrier contribution carries: it always discourages
/// approaching a bound, so it enters negated when minimizing and as is when
/// maximizing.
pub open spec fn sense_factor_spec<S: Scalar>(sense: ObjectiveSense) -> S {
    match sense {
        ObjectiveSense::Min => S::from_bits_spec(BITS_NEG_ONE),
        ObjectiveSense::Max => S::from_bits_spec(BITS_ONE),
    }
}

/// Whether a lower bound takes part in the barrier: only when it lies above
/// negative infinity.
pub open spec fn lb_active_spec<S: Scalar>(b: VariableBounds<S>) -> bool {
    S::from_bits_spec(BITS_NEG_INFINITY).below_spec(b.lb)
}

/// Whether an upper bound takes part in the barrier: only when it lies below
/// positive infinity.
pub open spec fn ub_active_spec<S: Scalar>(b: VariableBounds<S>) -> bool {
    b.ub.below_spec(S::from_bits_spec(BITS_INFINITY))
}

/// One variable's barrier term: the logarithm of the distance to each
/// active bound, weighted by the barrier parameter.  Both bounds enter
/// positively, so the term falls toward negative infinity at either bound,
/// and with the minimize sense factor the adapted value grows there: the
/// standard logarithmic barrier.  The gradient term below is its derivative.
pub open spec fn barrier_term_spec<S: Scalar>(b: VariableBounds<S>, x: S, mu: S) -> S {
    let after_lb: S = if lb_active_spec(b) {
        zero_of::<S>().add_spec(mu.mul_spec(x.sub_spec(b.lb).ln_spec()))
    } else {
        zero_of::<S>()
    };
    if ub_active_spec(b) {
        after_lb.add_spec(mu.mul_spec(b.ub.sub_spec(x).ln_spec()))
    } else {
        after_lb
    }
}

/// The barrier-adapted objective: the pure value plus, variable by variable
/// in order, the barrier term times the sense factor.
pub open spec fn barrier_value_spec<S: Scalar>(
    f: S,
    bounds: Seq<VariableBounds<S>>,
    xs: Seq<S>,
    mu: S,
    factor: S,
) -> S
    decreases xs.len(),
{
    if xs.len() == 0 {
        f
    } else {
        barrier_value_spec(f, bounds.drop_last(), xs.drop_last(), mu, factor).add_spec(
            barrier_term_spec(bounds[xs.len() - 1], xs.last(), mu).mul_spec(factor),
        )
    }
}

/// One variable's barrier gradient term: the componentwise derivative of
/// the barrier term — the inverse distance to each active bound, weighted
/// by the barrier parameter, entering positively for the lower bound and
/// negatively for the upper.  With the minimize sense factor the adapted
/// gradient grows against a step toward either bound.
pub open spec fn barrier_grad_term_spec<S: Scalar>(b: VariableBounds<S>, x: S, mu: S) -> S {
    let one: S = S::from_bits_spec(BITS_ONE);
    let after_lb: S = if lb_active_spec(b) {
        zero_of::<S>().add_spec(mu.mul_spec(one.div_spec(x.sub_spec(b.lb))))
    } else {
        zero_of::<S>()
    };
    if ub_active_spec(b) {
        after_lb.sub_spec(mu.mul_spec(one.div_spec(b.ub.sub_spec(x))))
    } else {
        after_lb
    }
}

/// The barrier-adapted gradient: componentwise, the pure gradient plus the
/// barrier gradient term times the sense factor.
pub open spec fn barrier_grad_spec<S: Scalar>(
    grad: Seq<S>,
    bounds: Seq<VariableBounds<S>>,
    xs: Seq<S>,
    mu: S,
    factor: S,
) -> Seq<S> {
    Seq::new(
        grad.len(),
        |i: int| grad[i].add_spec(barrier_grad_term_spec(bounds[i], xs[i], mu).mul_spec(factor)),
    )
}

/// Adapts objective values and gradients to a problem's variable bounds with
/// a logarithmic barrier, and anneals the barrier parameter once per outer
/// iteration.
pub struct BarrierBoundsHandler<S> {
    pub bounds: Vec<VariableBounds<S>>,
    pub sense: ObjectiveSense,
    pub barrier_parameter: S,
    pub barrier_decrease_factor: S,
}

impl<S: Scalar> BarrierBoundsHandler<S> {
    /// The pure objective value plus the barrier contribution of every
    /// variable, so that steps toward a bound look worse in the adapted
    /// objective whatever the sense.
    pub fn adapted_objective_value(&self, xs: &Vec<S>, pure_objective_value: S) -> (r: S)
        requires
            xs@.len() == self.bounds@.len(),
        ensures
            r == barrier_value_spec(
                pure_objective_value,
                self.bounds@,
                xs@,
                self.barrier_parameter,
                sense_factor_spec::<S>(self.sense),
            ),
    {
        let factor: S = match self.sense {
            ObjectiveSense::Min => S::from_bits(BITS_NEG_ONE),
            ObjectiveSense::Max => S::from_bits(BITS_ONE),
        };
        let mut sum = pure_objective_value;
        let mut i: usize = 0;
        while i < xs.len()
            invariant
                i <= xs.len(),
                xs@.len() == self.bounds@.len(),
                factor == sense_factor_spec::<S>(self.sense),
                sum == barrier_value_spec(
                    pure_objective_value,
                    self.bounds@.take(i as int),
                    xs@.take(i as int),
                    self.barrier_parameter,
                    factor,
                ),
            decreases xs.len() - i,
        {
            let b = self.bounds[i];
            let x = xs[i];
            let mut barrier_term = S::from_bits(BITS_ZERO);
            if S::from_bits(BITS_NEG_INFINITY).below(b.lb) {
                barrier_term = barrier_term.add(
                    self.barrier_parameter.mul(x.sub(b.lb).ln()),
                );
            }
            if b.ub.below(S::from_bits(BITS_INFINITY)) {
                barrier_term = barrier_term.add(
                    self.barrier_parameter.mul(b.ub.sub(x).ln()),
                );
            }
            sum = sum.add(barrier_term.mul(factor));
            proof {
                assert(xs@.take(i + 1).drop_last() =~= xs@.take(i as int));
                assert(self.bounds@.take(i + 1).drop_last() =~= self.bounds@.take(i as int));
                assert(xs@.take(i + 1).last() == xs@[i as int]);
                assert(self.bounds@.take(i + 1)[xs@.take(i + 1).len() - 1] == self.bounds@[
                    i as int]);
            }
            i += 1;
        }
        proof {
            assert(xs@.take(xs@.len() as int) =~= xs@);
            assert(self.bounds@.take(self.bounds@.len() as int) =~= self.bounds@);
        }
        sum
    }

    /// The pure gradient plus, componentwise, the barrier gradient term
    /// times the sense factor.
    pub fn adapted_objective_gradient(&self, xs: &Vec<S>, pure_objective_grad: &Vec<S>) -> (r: Vec<
        S,
    >)
        requires
            xs@.len() == self.bounds@.len(),
            pure_objective_grad@.len() == xs@.len(),
        ensures
            r@ == barrier_grad_spec(
                pure_objective_grad@,
                self.bounds@,
                xs@,
                self.barrier_parameter,
                sense_factor_spec::<S>(self.sense),
            ),
    {
        let factor: S = match self.sense {
            ObjectiveSense::Min => S::from_bits(BITS_NEG_ONE),
            ObjectiveSense::Max => S::from_bits(BITS_ONE),
        };
        let ghost target = barrier_grad_spec(
            pure_objective_grad@,
            self.bounds@,
            xs@,
            self.barrier_parameter,
            sense_factor_spec::<S>(self.sense),
        );
        let mut out: Vec<S> = Vec::new();
        let mut i: usize = 0;
        while i < xs.len()
            invariant
                i <= xs.len(),
                xs@.len() == self.bounds@.len(),
                pure_objective_grad@.len() == xs@.len(),
                factor == sense_factor_spec::<S>(self.sense),
                target == barrier_grad_spec(
                    pure_objective_grad@,
                    self.bounds@,
                    xs@,
                    self.barrier_parameter,
                    factor,
                ),
                out@.len() == i,
                forall|k: int| 0 <= k < i ==> out@[k] == target[k],
            decreases xs.len() - i,
        {
            let b = self.bounds[i];
            let x = xs[i];
            let one = S::from_bits(BITS_ONE);
            let mut grad_barrier_term = S::from_bits(BITS_ZERO);
            if S::from_bits(BITS_NEG_INFINITY).below(b.lb) {
                grad_barrier_term = grad_barrier_term.add(
                    self.barrier_parameter.mul(one.div(x.sub(b.lb))),
                );
            }
            if b.ub.below(S::from_bits(BITS_INFINITY)) {
                grad_barrier_term = grad_barrier_term.sub(
                    self.barrier_parameter.mul(one.div(b.ub.sub(x))),
                );
            }
            out.push(pure_objective_grad[i].add(grad_barrier_term.mul(factor)));
            i += 1;
        }
        proof {
            assert(out@ =~= target);
        }
        out
    }

    /// Shrinks the barrier parameter by the configured factor; everything
    /// else stays as it was.
    pub fn update_barrier_parameter(&mut self)
        ensures
            final(self).barrier_parameter == old(self).barrier_parameter.mul_spec(
                old(self).barrier_decrease_factor,
            ),
            final(self).bounds == old(self).bounds,
            final(self).sense == old(self).sense,
            final(self).barrier_decrease_factor == old(self).barrier_decrease_factor,
    {
        self.barrier_parameter = self.barrier_parameter.mul(self.barrier_decrease_factor);
    }
}

} // verus!
