use vstd::prelude::*;

verus! {

use crate::nlp::ObjectiveSense;
use crate::scalar::{Scalar, BITS_1E_MINUS_4, BITS_HALF, BITS_ONE_MINUS_1E_MINUS_4, BITS_ZERO};
use crate::vec_utils::{added_spec, dot_spec, inner_product, scaled, scaled_spec};

/// An objective an optimization step can evaluate: a pure function of the
/// point, defined on the points its domain admits.  The solver feeds the
/// line search its fully adapted objective through this interface.
pub trait ObjectiveFn<S: Scalar> {
    /// The points the objective may be evaluated at.
    spec fn in_domain(&self, x: Seq<S>) -> bool;

    /// The value as a pure function of the point.
    spec fn value_spec(&self, x: Seq<S>) -> S;

    fn value(&self, x: &Vec<S>) -> (r: S)
        requires
            self.in_domain(x@),
        ensures
            r == self.value_spec(x@),
    ;
}

/// What a completed step reports: the objective value the search started
/// from, and the accepted step length.
pub struct StepInfo<S> {
    pub obj_value: S,
    pub direction_scale_factor: S,
}

/// How many trial steps one search phase may take before it settles for the
/// step it has.  A million halvings or shrinks take any positive
/// floating-point step to zero or to the smallest subnormal, where further
/// shrinking changes nothing, so the cap decides nothing a longer search
/// could; it makes every search finite.
pub const SEARCH_LIMIT: u64 = 0x10_0000;

/// `base`, multiplied by `factor` this many times over.
pub open spec fn pow_mul_spec<S: Scalar>(base: S, factor: S, times: nat) -> S
    decreases times,
{
    if times == 0 {
        base
    } else {
        pow_mul_spec(base, factor, (times - 1) as nat).mul_spec(factor)
    }
}

/// Whether a trial step of weight `alpha_t` fails the sufficient-decrease
/// test: when minimizing, the observed decrease falls short of the weight;
/// when maximizing, the observed decrease exceeds it (the increase falls
/// short).
pub open spec fn insufficient_spec<S: Scalar>(
    sense: ObjectiveSense,
    f_x: S,
    f_x_step: S,
    alpha_t: S,
) -> bool {
    match sense {
        ObjectiveSense::Min => f_x.sub_spec(f_x_step).below_spec(alpha_t),
        ObjectiveSense::Max => alpha_t.below_spec(f_x.sub_spec(f_x_step)),
    }
}

/// A strategy that picks a step length along a direction and applies it to
/// the point.  Whatever the strategy, the new point is the old one advanced
/// by the direction scaled with the reported factor, and the reported value
/// is the objective at the old point.
pub trait StepSizeControl<S: Scalar> {
    fn do_step<F: ObjectiveFn<S>>(
        &self,
        f: &F,
        x: &mut Vec<S>,
        grad_f: &Vec<S>,
        direction: &Vec<S>,
        sense: &ObjectiveSense,
    ) -> (r: StepInfo<S>)
        requires
            grad_f@.len() == direction@.len(),
            direction@.len() == old(x)@.len(),
            forall|y: Seq<S>| y.len() == old(x)@.len() ==> #[trigger] f.in_domain(y),
        ensures
            r.obj_value == f.value_spec(old(x)@),
            final(x)@ == added_spec(
                old(x)@,
                scaled_spec(direction@, r.direction_scale_factor),
            ),
    ;
}

/// Backtracking line search under the sufficient-decrease rule: start from
/// the configured step, halve it while the trial value is invalid, then
/// shrink it by the backtracking factor until the decrease (or increase,
/// when maximizing) is sufficient.
pub struct ArmijoGoldsteinRule<S> {
    pub alpha_0: S,
    pub tau: S,
    pub c: S,
}

impl<S: Scalar> ArmijoGoldsteinRule<S> {
    /// A rule with the given parameters, each clamped into its safe range:
    /// the starting step away from zero, the backtracking factor and the
    /// sufficient-decrease constant strictly inside the unit interval.
    pub fn new(alpha_0: S, tau: S, c: S) -> (r: Self)
        ensures
            r.alpha_0 == alpha_0.max_spec(S::from_bits_spec(BITS_1E_MINUS_4)),
            r.tau == tau.max_spec(S::from_bits_spec(BITS_1E_MINUS_4)).min_spec(
                S::from_bits_spec(BITS_ONE_MINUS_1E_MINUS_4),
            ),
            r.c == c.max_spec(S::from_bits_spec(BITS_1E_MINUS_4)).min_spec(
                S::from_bits_spec(BITS_ONE_MINUS_1E_MINUS_4),
            ),
    {
        let lo = S::from_bits(BITS_1E_MINUS_4);
        let hi = S::from_bits(BITS_ONE_MINUS_1E_MINUS_4);
        ArmijoGoldsteinRule {
            alpha_0: alpha_0.max(lo),
            tau: tau.max(lo).min(hi),
            c: c.max(lo).min(hi),
        }
    }
}

impl<S: Scalar> StepSizeControl<S> for ArmijoGoldsteinRule<S> {
    /// One backtracking search.  Besides what every step rule promises, the
    /// accepted step length is the starting step after some halvings and
    /// some shrinks by the backtracking factor, and — unless the search ran
    /// its shrink phase completely dry — the trial it accepted passed the
    /// sufficient-decrease test.
    fn do_step<F: ObjectiveFn<S>>(
        &self,
        f: &F,
        x: &mut Vec<S>,
        grad_f: &Vec<S>,
        direction: &Vec<S>,
        sense: &ObjectiveSense,
    ) -> (r: StepInfo<S>)
        ensures
            (exists|halvings: nat, shrinks: nat|
                {
                    &&& halvings <= SEARCH_LIMIT as nat
                    &&& shrinks <= SEARCH_LIMIT as nat
                    &&& r.direction_scale_factor == #[trigger] pow_mul_spec(
                        pow_mul_spec(self.alpha_0, S::from_bits_spec(BITS_HALF), halvings),
                        self.tau,
                        shrinks,
                    )
                    &&& (shrinks == SEARCH_LIMIT as nat || !insufficient_spec(
                        *sense,
                        f.value_spec(old(x)@),
                        f.value_spec(final(x)@),
                        r.direction_scale_factor.mul_spec(
                            self.c.neg_spec().mul_spec(dot_spec(grad_f@, direction@)),
                        ),
                    ))
                }),
    {
        let m: S = match inner_product(grad_f, direction) {
            Some(v) => v,
            None => {
                proof {
                    assert(false);
                }
                S::from_bits(BITS_ZERO)
            },
        };
        let t = self.c.neg().mul(m);

        let f_x: S = f.value(x);
        let mut alpha_j = self.alpha_0;
        let mut x_step = advanced(x, direction, alpha_j);
        let mut f_x_step = f.value(&x_step);

        let half = S::from_bits(BITS_HALF);
        let mut halvings: u64 = 0;
        while f_x_step.is_nan() && halvings < SEARCH_LIMIT
            invariant
                direction@.len() == x@.len(),
                x@ == old(x)@,
                forall|y: Seq<S>| y.len() == old(x)@.len() ==> #[trigger] f.in_domain(y),
                halvings <= SEARCH_LIMIT,
                alpha_j == pow_mul_spec(
                    self.alpha_0,
                    S::from_bits_spec(BITS_HALF),
                    halvings as nat,
                ),
                half == S::from_bits_spec(BITS_HALF),
                x_step@ == added_spec(x@, scaled_spec(direction@, alpha_j)),
                f_x_step == f.value_spec(x_step@),
            decreases SEARCH_LIMIT - halvings,
        {
            alpha_j = alpha_j.mul(half);
            halvings += 1;
            x_step = advanced(x, direction, alpha_j);
            f_x_step = f.value(&x_step);
        }

        let ghost alpha_after_halving = alpha_j;
        let mut shrinks: u64 = 0;
        while insufficient(sense, f_x, f_x_step, alpha_j.mul(t)) && shrinks < SEARCH_LIMIT
            invariant
                direction@.len() == x@.len(),
                x@ == old(x)@,
                forall|y: Seq<S>| y.len() == old(x)@.len() ==> #[trigger] f.in_domain(y),
                shrinks <= SEARCH_LIMIT,
                halvings <= SEARCH_LIMIT,
                alpha_j == pow_mul_spec(alpha_after_halving, self.tau, shrinks as nat),
                alpha_after_halving == pow_mul_spec(
                    self.alpha_0,
                    S::from_bits_spec(BITS_HALF),
                    halvings as nat,
                ),
                x_step@ == added_spec(x@, scaled_spec(direction@, alpha_j)),
                f_x_step == f.value_spec(x_step@),
            decreases SEARCH_LIMIT - shrinks,
        {
            alpha_j = alpha_j.mul(self.tau);
            shrinks += 1;
            x_step = advanced(x, direction, alpha_j);
            f_x_step = f.value(&x_step);
        }

        proof {
            assert(alpha_j == pow_mul_spec(
                pow_mul_spec(self.alpha_0, S::from_bits_spec(BITS_HALF), halvings as nat),
                self.tau,
                shrinks as nat,
            ));
        }
        *x = x_step;
        StepInfo { obj_value: f_x, direction_scale_factor: alpha_j }
    }
}

/// The point advanced along the direction by the given step length.
fn advanced<S: Scalar>(x: &Vec<S>, direction: &Vec<S>, alpha: S) -> (r: Vec<S>)
    requires
        direction@.len() == x@.len(),
    ensures
        r@ == added_spec(x@, scaled_spec(direction@, alpha)),
{
    let step = scaled(direction, alpha);
    match crate::vec_utils::add(x, &step) {
        Some(v) => v,
        None => {
            proof {
                assert(false);
            }
            Vec::new()
        },
    }
}

/// Whether the trial fails the sufficient-decrease test for this sense.
fn insufficient<S: Scalar>(sense: &ObjectiveSense, f_x: S, f_x_step: S, alpha_t: S) -> (r: bool)
    ensures
        r == insufficient_spec(*sense, f_x, f_x_step, alpha_t),
{
    match sense {
        ObjectiveSense::Min => f_x.sub(f_x_step).below(alpha_t),
        ObjectiveSense::Max => alpha_t.below(f_x.sub(f_x_step)),
    }
}

} // verus!
