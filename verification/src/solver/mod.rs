use vstd::prelude::*;

pub mod augmented_lagrangian_constraint_handler;
pub mod barrier_bounds_handler;

pub use augmented_lagrangian_constraint_handler::AugmentedLagrangianConstraintHandler;
pub use barrier_bounds_handler::BarrierBoundsHandler;

verus! {

use crate::nlp::{ObjectiveSense, NLP};
use crate::optimizer::{copied, filled, identity_spec, mat_view, Bfgs, OptContext, Optimizer};
use crate::options::Options;
use crate::output::{SolverLogger, StdoutLogger};
use crate::scalar::{Scalar, BITS_1E_MINUS_10, BITS_1E_MINUS_4, BITS_NEG_ONE, BITS_ZERO};
use crate::solver::augmented_lagrangian_constraint_handler::{
    al_grad_spec,
    al_value_spec,
    eq_factor_spec,
    ineq_factor_spec,
};
use crate::solver::barrier_bounds_handler::{
    barrier_grad_spec,
    barrier_value_spec,
    sense_factor_spec,
};
use crate::step_size_control::{
    pow_mul_spec,
    ArmijoGoldsteinRule,
    ObjectiveFn,
    StepSizeControl,
};
use crate::vec_utils::{dot_spec, norm2_sqr, scaled, scaled_spec, zero_of};

/// The objective the solver actually minimizes: the problem's own objective
/// when minimizing, and its negation when maximizing.  The solver always
/// minimizes internally; a maximization problem enters with its objective
/// and gradient negated at the problem boundary, so that no component of
/// the pipeline branches on the sense.
pub open spec fn internal_objective_spec<S: Scalar, N: NLP<S>>(nlp: &N, x: Seq<S>) -> S {
    match nlp.info_spec().sense {
        ObjectiveSense::Min => nlp.objective_spec(x),
        ObjectiveSense::Max => nlp.objective_spec(x).neg_spec(),
    }
}

/// The gradient of the internally minimized objective: the problem's own
/// gradient, scaled by minus one when maximizing.
pub open spec fn internal_grad_spec<S: Scalar, N: NLP<S>>(nlp: &N, x: Seq<S>) -> Seq<S> {
    match nlp.info_spec().sense {
        ObjectiveSense::Min => nlp.grad_objective_spec(x),
        ObjectiveSense::Max => scaled_spec(
            nlp.grad_objective_spec(x),
            S::from_bits_spec(BITS_NEG_ONE),
        ),
    }
}

/// The internally minimized objective at a point.
pub fn internal_objective<S: Scalar, N: NLP<S>>(nlp: &N, x: &Vec<S>) -> (r: S)
    ensures
        r == internal_objective_spec(nlp, x@),
{
    let value = nlp.objective(x);
    match nlp.info().sense {
        ObjectiveSense::Min => value,
        ObjectiveSense::Max => value.neg(),
    }
}

/// The gradient of the internally minimized objective at a point.
pub fn internal_grad<S: Scalar, N: NLP<S>>(nlp: &N, x: &Vec<S>) -> (r: Vec<S>)
    ensures
        r@ == internal_grad_spec(nlp, x@),
        r@.len() == nlp.info_spec().num_variables,
{
    let grad = nlp.grad_objective(x);
    match nlp.info().sense {
        ObjectiveSense::Min => grad,
        ObjectiveSense::Max => scaled(
            &grad,
            S::from_bits(BITS_NEG_ONE),
        ),
    }
}

/// The fully adapted objective value at a point: the internally minimized
/// objective, passed through the barrier and then through the augmented
/// Lagrangian.
pub open spec fn adapted_value_spec<S: Scalar, N: NLP<S>>(
    nlp: &N,
    bounds_handler: &BarrierBoundsHandler<S>,
    constraints_handler: &AugmentedLagrangianConstraintHandler<S>,
    x: Seq<S>,
) -> S {
    al_value_spec(
        barrier_value_spec(
            internal_objective_spec(nlp, x),
            bounds_handler.bounds@,
            x,
            bounds_handler.barrier_parameter,
            sense_factor_spec::<S>(bounds_handler.sense),
        ),
        constraints_handler.lambda@,
        nlp.equality_constraints_spec(x),
        constraints_handler.mu@,
        nlp.inequality_constraints_spec(x),
        constraints_handler.c,
    )
}

/// The fully adapted gradient at a point: the gradient of the internally
/// minimized objective, passed through the barrier and then through the
/// augmented Lagrangian.
pub open spec fn adapted_grad_spec<S: Scalar, N: NLP<S>>(
    nlp: &N,
    bounds_handler: &BarrierBoundsHandler<S>,
    constraints_handler: &AugmentedLagrangianConstraintHandler<S>,
    x: Seq<S>,
) -> Seq<S> {
    let g = nlp.inequality_constraints_spec(x);
    let h = nlp.equality_constraints_spec(x);
    al_grad_spec(
        barrier_grad_spec(
            internal_grad_spec(nlp, x),
            bounds_handler.bounds@,
            x,
            bounds_handler.barrier_parameter,
            sense_factor_spec::<S>(bounds_handler.sense),
        ),
        nlp.grad_inequality_constraints_spec(x),
        Seq::new(g.len(), |j: int| ineq_factor_spec(constraints_handler.c, g[j], constraints_handler.mu@[j])),
        nlp.grad_equality_constraints_spec(x),
        Seq::new(
            h.len(),
            |j: int| eq_factor_spec(constraints_handler.c, h[j], constraints_handler.lambda@[j]),
        ),
    )
}

/// Whether a handler pair is sized for the problem: one bound per variable
/// and one multiplier per constraint.
pub open spec fn handlers_match_spec<S: Scalar, N: NLP<S>>(
    nlp: &N,
    bounds_handler: &BarrierBoundsHandler<S>,
    constraints_handler: &AugmentedLagrangianConstraintHandler<S>,
) -> bool {
    &&& bounds_handler.bounds@.len() == nlp.info_spec().num_variables
    &&& constraints_handler.mu@.len() == nlp.info_spec().num_inequality_constraints
    &&& constraints_handler.lambda@.len() == nlp.info_spec().num_equality_constraints
}

/// The objective the line search sees: the problem's objective after both
/// adaptations, as one evaluation.
pub struct AdaptedObjective<'a, S: Scalar, N: NLP<S>> {
    pub nlp: &'a N,
    pub bounds_handler: &'a BarrierBoundsHandler<S>,
    pub constraints_handler: &'a AugmentedLagrangianConstraintHandler<S>,
}

impl<'a, S: Scalar, N: NLP<S>> ObjectiveFn<S> for AdaptedObjective<'a, S, N> {
    open spec fn in_domain(&self, x: Seq<S>) -> bool {
        &&& x.len() == self.nlp.info_spec().num_variables
        &&& handlers_match_spec(self.nlp, self.bounds_handler, self.constraints_handler)
    }

    open spec fn value_spec(&self, x: Seq<S>) -> S {
        adapted_value_spec(self.nlp, self.bounds_handler, self.constraints_handler, x)
    }

    fn value(&self, x: &Vec<S>) -> (r: S) {
        let pure_value = internal_objective(self.nlp, x);
        let barrier_value = self.bounds_handler.adapted_objective_value(x, pure_value);
        let g = self.nlp.inequality_constraints(x);
        let h = self.nlp.equality_constraints(x);
        self.constraints_handler.adapted_objective_value(barrier_value, &g, &h)
    }
}

/// How many outer iterations one solve may take: the iteration counter's
/// whole range.  A solve that converges stops on its own long before; the
/// cap makes the loop provably finite.
pub const MAX_ITERATIONS: u32 = 0xFFFF_FFFF;

/// How a returned solution echoes the run's final context: its fields are
/// the context's current value, current point and iteration count.
pub open spec fn final_context_spec<S: Scalar>(r: Solution<S>, ctx: OptContext<S>) -> bool {
    &&& r.best_objective_value == ctx.objective_current
    &&& r.best_solution@ == ctx.x_current@
    &&& r.num_iterations == ctx.iteration
}

/// Whether the loop's degenerate-direction exit fired: the proposed
/// direction and the adapted gradient both have a squared norm below the
/// flat threshold.  A flat direction alone can be the artifact of a
/// degenerate quasi-Newton approximation while the gradient still points
/// somewhere; the loop goes on in that case, and the optimizer's guards
/// rebuild the approximation, so only the double test counts as
/// convergence.
pub open spec fn flat_exit_spec<S: Scalar>(d: Seq<S>, grad: Seq<S>) -> bool {
    &&& dot_spec(d, d).below_spec(S::from_bits_spec(BITS_1E_MINUS_10))
    &&& dot_spec(grad, grad).below_spec(S::from_bits_spec(BITS_1E_MINUS_10))
}

/// Whether the multiplier estimates are exactly one update — projected for
/// the inequalities, plain for the equalities — of the given earlier
/// estimates, taken at the problem's residuals at `x`.
pub open spec fn multipliers_updated_at_spec<S: Scalar, N: NLP<S>>(
    nlp: &N,
    constraints_handler: &AugmentedLagrangianConstraintHandler<S>,
    x: Seq<S>,
    prev_mu: Seq<S>,
    prev_lambda: Seq<S>,
) -> bool {
    &&& constraints_handler.mu@ == Seq::new(
        prev_mu.len(),
        |j: int|
            ineq_factor_spec(
                constraints_handler.c,
                nlp.inequality_constraints_spec(x)[j],
                prev_mu[j],
            ),
    )
    &&& constraints_handler.lambda@ == Seq::new(
        prev_lambda.len(),
        |j: int|
            eq_factor_spec(
                constraints_handler.c,
                nlp.equality_constraints_spec(x)[j],
                prev_lambda[j],
            ),
    )
}

/// Orchestrates one optimization run: it pulls gradients and residuals from
/// the problem, normalizes them so that the run always minimizes, pipes them
/// through the bounds handler and then the constraint handler, asks the
/// optimizer for a direction, lets the step rule advance the point, updates
/// the barrier parameter and the multipliers, and reports to the logger,
/// until the optimizer calls the values converged or the direction goes
/// flat.
pub struct Solver<'a, S: Scalar, N: NLP<S>, C: StepSizeControl<S>, O: Optimizer<S, N>, L: SolverLogger<S>> {
    pub nlp: &'a N,
    pub step_size_control: C,
    pub optimizer: O,
    pub bounds_handler: BarrierBoundsHandler<S>,
    pub constraints_handler: AugmentedLagrangianConstraintHandler<S>,
    pub logger: L,
}

impl<'a, S: Scalar, N: NLP<S>> Solver<
    'a,
    S,
    N,
    ArmijoGoldsteinRule<S>,
    Bfgs<S>,
    StdoutLogger,
> {
    /// The default assembly: the quasi-Newton strategy, the backtracking
    /// line search, the two handlers sized for the problem with multipliers
    /// at zero, and a standard-output logger, all configured from the
    /// options.
    pub fn new(nlp: &'a N, options: Options<S>) -> (r: Self)
        ensures
            r.nlp == nlp,
            r.step_size_control.alpha_0 == options.step_size_control.alpha_0.max_spec(
                S::from_bits_spec(BITS_1E_MINUS_4),
            ),
            r.optimizer.n == nlp.info_spec().num_variables,
            mat_view(r.optimizer.h) == identity_spec::<S>(nlp.info_spec().num_variables as nat),
            r.bounds_handler.bounds@ == nlp.bounds_spec(),
            r.bounds_handler.sense == ObjectiveSense::Min,
            r.bounds_handler.barrier_parameter == options.bounds_handler.barrier_parameter,
            r.bounds_handler.barrier_decrease_factor
                == options.bounds_handler.barrier_decrease_factor,
            r.constraints_handler.mu@ == Seq::new(
                nlp.info_spec().num_inequality_constraints as nat,
                |j: int| zero_of::<S>(),
            ),
            r.constraints_handler.lambda@ == Seq::new(
                nlp.info_spec().num_equality_constraints as nat,
                |j: int| zero_of::<S>(),
            ),
            r.constraints_handler.c == options.constraints_handler.c,
            r.logger.freq_spec() == options.logger.frequency,
            handlers_match_spec(nlp, &r.bounds_handler, &r.constraints_handler),
    {
        let info = nlp.info();
        let num_ineq = info.num_inequality_constraints;
        let num_eq = info.num_equality_constraints;
        Solver {
            nlp,
            step_size_control: ArmijoGoldsteinRule::new(
                options.step_size_control.alpha_0,
                options.step_size_control.tau,
                options.step_size_control.c,
            ),
            optimizer: Bfgs::new(nlp),
            bounds_handler: BarrierBoundsHandler {
                bounds: nlp.bounds(),
                sense: ObjectiveSense::Min,
                barrier_parameter: options.bounds_handler.barrier_parameter,
                barrier_decrease_factor: options.bounds_handler.barrier_decrease_factor,
            },
            constraints_handler: AugmentedLagrangianConstraintHandler {
                mu: filled(num_ineq as usize, S::from_bits(BITS_ZERO)),
                lambda: filled(num_eq as usize, S::from_bits(BITS_ZERO)),
                c: options.constraints_handler.c,
            },
            logger: StdoutLogger::new(options.logger.frequency),
        }
    }
}

impl<S: Scalar, N: NLP<S>, C: StepSizeControl<S>, O: Optimizer<S, N>, L: SolverLogger<S>> Solver<
    '_,
    S,
    N,
    C,
    O,
    L,
> {
    /// One full run.  The returned point has the problem's dimension; the
    /// problem, the bounds, the sense, the backtracking rule and the penalty
    /// coefficient come out as they went in.  The outcome is pinned to the
    /// run's final context: the returned value, point and iteration count
    /// are that context's; the run ended because the optimizer called the
    /// values converged, the adapted gradient and the proposed direction
    /// both went flat, or the iteration cap was reached; the barrier
    /// parameter was annealed exactly once per iteration that reached the
    /// line search (all of them, except the last one under the flat exit);
    /// and the multipliers are one projected update, at the residuals of the
    /// final point, of an earlier multiplier state — or untouched when no
    /// iteration completed.  For a maximizing problem the returned best
    /// value is the internally minimized — negated, then adapted —
    /// objective.
    pub fn solve(&mut self) -> (r: Solution<S>)
        requires
            handlers_match_spec(
                old(self).nlp,
                &old(self).bounds_handler,
                &old(self).constraints_handler,
            ),
        ensures
            r.best_solution@.len() == old(self).nlp.info_spec().num_variables,
            final(self).nlp == old(self).nlp,
            final(self).step_size_control == old(self).step_size_control,
            final(self).bounds_handler.bounds == old(self).bounds_handler.bounds,
            final(self).bounds_handler.sense == old(self).bounds_handler.sense,
            final(self).bounds_handler.barrier_decrease_factor == old(
                self,
            ).bounds_handler.barrier_decrease_factor,
            final(self).constraints_handler.c == old(self).constraints_handler.c,
            handlers_match_spec(
                final(self).nlp,
                &final(self).bounds_handler,
                &final(self).constraints_handler,
            ),
            (exists|ctx: OptContext<S>, completed: nat|
                #![trigger final_context_spec(r, ctx), pow_mul_spec(
                    old(self).bounds_handler.barrier_parameter,
                    old(self).bounds_handler.barrier_decrease_factor,
                    completed,
                )]
                {
                    &&& final_context_spec(r, ctx)
                    &&& ctx.wf(old(self).nlp.info_spec().num_variables as nat)
                    &&& final(self).bounds_handler.barrier_parameter == pow_mul_spec(
                        old(self).bounds_handler.barrier_parameter,
                        old(self).bounds_handler.barrier_decrease_factor,
                        completed,
                    )
                    &&& (completed == 0 ==> final(self).constraints_handler.mu@ == old(
                        self,
                    ).constraints_handler.mu@ && final(self).constraints_handler.lambda@ == old(
                        self,
                    ).constraints_handler.lambda@)
                    &&& (completed > 0 ==> (exists|prev_mu: Seq<S>, prev_lambda: Seq<S>|
                        #[trigger] multipliers_updated_at_spec(
                            final(self).nlp,
                            &final(self).constraints_handler,
                            ctx.x_current@,
                            prev_mu,
                            prev_lambda,
                        )))
                    &&& {
                        ||| final(self).optimizer.done_spec(ctx) && completed == ctx.iteration
                            as nat
                        ||| ctx.iteration == MAX_ITERATIONS && completed == ctx.iteration as nat
                        ||| (exists|d: Seq<S>| #[trigger] flat_exit_spec(d, ctx.objective_grad@))
                            && completed + 1 == ctx.iteration as nat
                    }
                }),
    {
        let ghost n = self.nlp.info_spec().num_variables as nat;
        let mut context = self.optimizer.initialize(
            self.nlp,
            &self.bounds_handler,
            &self.constraints_handler,
        );
        let ghost mut completed: nat = 0nat;
        let ghost mut last_prev_mu: Seq<S> = Seq::empty();
        let ghost mut last_prev_lambda: Seq<S> = Seq::empty();
        let ghost mut break_direction: Seq<S> = Seq::empty();
        let mut done = self.optimizer.done(&context);
        while !done && context.iteration < MAX_ITERATIONS
            invariant_except_break
                done == self.optimizer.done_spec(context),
                completed == context.iteration as nat,
            invariant
                self.nlp == old(self).nlp,
                self.step_size_control == old(self).step_size_control,
                self.bounds_handler.bounds == old(self).bounds_handler.bounds,
                self.bounds_handler.sense == old(self).bounds_handler.sense,
                self.bounds_handler.barrier_decrease_factor == old(
                    self,
                ).bounds_handler.barrier_decrease_factor,
                self.constraints_handler.c == old(self).constraints_handler.c,
                handlers_match_spec(self.nlp, &self.bounds_handler, &self.constraints_handler),
                self.optimizer.ready_spec(n),
                n == self.nlp.info_spec().num_variables as nat,
                context.wf(n),
                context.iteration <= MAX_ITERATIONS,
                completed <= context.iteration,
                self.bounds_handler.barrier_parameter == pow_mul_spec(
                    old(self).bounds_handler.barrier_parameter,
                    old(self).bounds_handler.barrier_decrease_factor,
                    completed,
                ),
                completed == 0 ==> self.constraints_handler.mu@ == old(
                    self,
                ).constraints_handler.mu@ && self.constraints_handler.lambda@ == old(
                    self,
                ).constraints_handler.lambda@,
                completed > 0 ==> multipliers_updated_at_spec(
                    self.nlp,
                    &self.constraints_handler,
                    context.x_current@,
                    last_prev_mu,
                    last_prev_lambda,
                ),
            ensures
                ({
                    ||| self.optimizer.done_spec(context) && completed == context.iteration as nat
                    ||| context.iteration == MAX_ITERATIONS && completed == context.iteration
                        as nat
                    ||| flat_exit_spec(break_direction, context.objective_grad@) && completed + 1
                        == context.iteration as nat
                }),
            decreases MAX_ITERATIONS - context.iteration,
        {
            context.objective_previous = context.objective_current;
            context.iteration += 1;

            let g = self.nlp.inequality_constraints(&context.x_current);
            let h = self.nlp.equality_constraints(&context.x_current);
            let pure_grad = internal_grad(self.nlp, &context.x_current);
            let grad_f = self.bounds_handler.adapted_objective_gradient(
                &context.x_current,
                &pure_grad,
            );
            let grad_g = self.nlp.grad_inequality_constraints(&context.x_current);
            let grad_h = self.nlp.grad_equality_constraints(&context.x_current);
            context.objective_grad = self.constraints_handler.adapted_objective_grad(
                &grad_f,
                &g,
                &grad_g,
                &h,
                &grad_h,
            );

            let d = self.optimizer.iterate(self.nlp, &mut context);
            context.x_previous = copied(&context.x_current);

            let flat_threshold = S::from_bits(BITS_1E_MINUS_10);
            if norm2_sqr(&d).below(flat_threshold) && norm2_sqr(&context.objective_grad).below(
                flat_threshold,
            ) {
                proof {
                    break_direction = d@;
                }
                break;
            }

            let step_info = {
                let adapted = AdaptedObjective {
                    nlp: self.nlp,
                    bounds_handler: &self.bounds_handler,
                    constraints_handler: &self.constraints_handler,
                };
                self.step_size_control.do_step(
                    &adapted,
                    &mut context.x_current,
                    &context.objective_grad,
                    &d,
                    &ObjectiveSense::Min,
                )
            };

            context.objective_current = step_info.obj_value;
            context.direction_scale_factor = step_info.direction_scale_factor;

            self.bounds_handler.update_barrier_parameter();
            proof {
                completed = completed + 1;
            }

            let g_after = self.nlp.inequality_constraints(&context.x_current);
            let h_after = self.nlp.equality_constraints(&context.x_current);
            proof {
                last_prev_mu = self.constraints_handler.mu@;
                last_prev_lambda = self.constraints_handler.lambda@;
            }
            self.constraints_handler.update_multipliers(&g_after, &h_after);
            proof {
                assert(self.constraints_handler.mu@ =~= Seq::new(
                    last_prev_mu.len(),
                    |j: int|
                        ineq_factor_spec(
                            self.constraints_handler.c,
                            self.nlp.inequality_constraints_spec(context.x_current@)[j],
                            last_prev_mu[j],
                        ),
                ));
                assert(self.constraints_handler.lambda@ =~= Seq::new(
                    last_prev_lambda.len(),
                    |j: int|
                        eq_factor_spec(
                            self.constraints_handler.c,
                            self.nlp.equality_constraints_spec(context.x_current@)[j],
                            last_prev_lambda[j],
                        ),
                ));
            }

            self.logger.log(&context, false);
            done = self.optimizer.done(&context);
        }

        self.logger.log(&context, true);

        let ghost final_ctx = context;
        let solution = Solution {
            best_objective_value: context.objective_current,
            best_solution: context.x_current,
            num_iterations: context.iteration,
        };
        proof {
            assert(final_context_spec(solution, final_ctx));
        }
        solution
    }
}

/// What one solve produces: the best adapted objective value, the point it
/// was found at, and how many iterations were spent.  The value is the
/// internally minimized adapted objective, so for a maximizing problem it
/// carries the negated sign.
pub struct Solution<S> {
    pub best_objective_value: S,
    pub best_solution: Vec<S>,
    pub num_iterations: u32,
}

impl<S: Scalar> Solution<S> {
    /// The canonical rendering: the value, the point, and the iteration
    /// count, one line each.
    pub fn describe(&self) -> String {
        let mut out = String::from_str("best objective value: ");
        out.append(self.best_objective_value.describe().as_str());
        out.append("\nbest solution: [");
        let mut i: usize = 0;
        while i < self.best_solution.len()
            decreases self.best_solution@.len() - i,
        {
            if i > 0 {
                out.append(", ");
            }
            out.append(self.best_solution[i].describe().as_str());
            i += 1;
        }
        out.append("]\nin ");
        out.append(crate::scalar::decimal_digits(self.num_iterations as i64).as_str());
        out.append(" iterations");
        out
    }
}

} // verus!
