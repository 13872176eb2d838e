use vstd::prelude::*;

verus! {

use crate::nlp::NLP;
use crate::scalar::{
    Scalar,
    BITS_1E_MINUS_12,
    BITS_1E_MINUS_9,
    BITS_INFINITY,
    BITS_NEG_ONE,
    BITS_ONE,
    BITS_ZERO,
};
use crate::solver::augmented_lagrangian_constraint_handler::{eq_factor_spec, ineq_factor_spec};
use crate::solver::{
    adapted_grad_spec,
    handlers_match_spec,
    internal_grad,
    AugmentedLagrangianConstraintHandler,
    BarrierBoundsHandler,
};
use crate::vec_utils::{dot_spec, inner_product, scaled, scaled_spec, zero_of};

/// The mutable state of one solve: the iteration count, the current and
/// previous point, the current and previous adapted objective value, the
/// current adapted gradient, and the step length the last line search
/// accepted.  The previous point and value always hold the state right
/// before the most recent accepted step.
pub struct OptContext<S> {
    pub iteration: u32,
    pub x_current: Vec<S>,
    pub x_previous: Vec<S>,
    pub objective_current: S,
    pub objective_previous: S,
    pub objective_grad: Vec<S>,
    pub direction_scale_factor: S,
}

impl<S: Scalar> OptContext<S> {
    /// Whether every vector of the context is sized for this many variables.
    pub open spec fn wf(self, n: nat) -> bool {
        &&& self.x_current@.len() == n
        &&& self.x_previous@.len() == n
        &&& self.objective_grad@.len() == n
    }
}

/// A copy of the vector; the elements are plain values.
pub(crate) fn copied<S: Scalar>(v: &Vec<S>) -> (r: Vec<S>)
    ensures
        r@ == v@,
{
    let mut out: Vec<S> = Vec::new();
    let mut i: usize = 0;
    while i < v.len()
        invariant
            i <= v.len(),
            out@ == v@.take(i as int),
        decreases v.len() - i,
    {
        out.push(v[i]);
        proof {
            assert(out@ =~= v@.take(i + 1));
        }
        i += 1;
    }
    proof {
        assert(v@.take(v@.len() as int) =~= v@);
    }
    out
}

/// A vector of this many copies of one value.
pub(crate) fn filled<S: Scalar>(n: usize, v: S) -> (r: Vec<S>)
    ensures
        r@ == Seq::new(n as nat, |i: int| v),
{
    let mut out: Vec<S> = Vec::new();
    let mut i: usize = 0;
    while i < n
        invariant
            i <= n,
            out@.len() == i,
            forall|k: int| 0 <= k < i ==> out@[k] == v,
        decreases n - i,
    {
        out.push(v);
        i += 1;
    }
    proof {
        assert(out@ =~= Seq::new(n as nat, |i: int| v));
    }
    out
}

/// The rows of a matrix held as a vector of row vectors.
pub open spec fn mat_view<S>(m: Vec<Vec<S>>) -> Seq<Seq<S>> {
    m@.map_values(|row: Vec<S>| row@)
}

/// Whether a matrix has this many rows and columns.
pub open spec fn square_spec<S>(m: Seq<Seq<S>>, n: nat) -> bool {
    &&& m.len() == n
    &&& forall|i: int| 0 <= i < m.len() ==> #[trigger] m[i].len() == n
}

/// A square matrix's rows, seen through the vector of row vectors, all have
/// its size.
pub proof fn lemma_square_rows<S>(m: Vec<Vec<S>>, n: nat)
    requires
        square_spec(mat_view(m), n),
    ensures
        m@.len() == n,
        forall|i: int| 0 <= i < m@.len() ==> #[trigger] m@[i]@.len() == n,
{
    assert forall|i: int| 0 <= i < m@.len() implies #[trigger] m@[i]@.len() == n by {
        assert(mat_view(m)[i] == m@[i]@);
    }
}

/// The identity matrix: one on the diagonal, zero elsewhere.
pub open spec fn identity_spec<S: Scalar>(n: nat) -> Seq<Seq<S>> {
    Seq::new(
        n,
        |i: int|
            Seq::new(
                n,
                |j: int|
                    if i == j {
                        S::from_bits_spec(BITS_ONE)
                    } else {
                        zero_of::<S>()
                    },
            ),
    )
}

/// The matrix-vector product, each component a dot product of a row with the
/// vector.
pub open spec fn matvec_spec<S: Scalar>(m: Seq<Seq<S>>, v: Seq<S>) -> Seq<S> {
    Seq::new(m.len(), |i: int| dot_spec(m[i], v))
}

/// The identity matrix of the given size.
fn identity<S: Scalar>(n: usize) -> (r: Vec<Vec<S>>)
    ensures
        mat_view(r) == identity_spec::<S>(n as nat),
        r@.len() == n,
{
    let ghost target = identity_spec::<S>(n as nat);
    let mut rows: Vec<Vec<S>> = Vec::new();
    let mut i: usize = 0;
    while i < n
        invariant
            i <= n,
            rows@.len() == i,
            target == identity_spec::<S>(n as nat),
            forall|k: int| 0 <= k < i ==> #[trigger] rows@[k]@ == target[k],
        decreases n - i,
    {
        let mut row: Vec<S> = Vec::new();
        let mut j: usize = 0;
        while j < n
            invariant
                j <= n,
                i < n,
                row@.len() == j,
                target == identity_spec::<S>(n as nat),
                forall|k: int| 0 <= k < j ==> row@[k] == target[i as int][k],
            decreases n - j,
        {
            if i == j {
                row.push(S::from_bits(BITS_ONE));
            } else {
                row.push(S::from_bits(BITS_ZERO));
            }
            j += 1;
        }
        proof {
            assert(row@ =~= target[i as int]);
        }
        rows.push(row);
        i += 1;
    }
    proof {
        assert(mat_view(rows) =~= target);
    }
    rows
}

/// The product of a square matrix with a vector.
fn matvec<S: Scalar>(m: &Vec<Vec<S>>, v: &Vec<S>) -> (r: Vec<S>)
    requires
        forall|i: int| 0 <= i < m@.len() ==> #[trigger] m@[i]@.len() == v@.len(),
    ensures
        r@ == matvec_spec(mat_view(*m), v@),
{
    let ghost target = matvec_spec(mat_view(*m), v@);
    let mut out: Vec<S> = Vec::new();
    let mut i: usize = 0;
    while i < m.len()
        invariant
            i <= m@.len(),
            forall|k: int| 0 <= k < m@.len() ==> #[trigger] m@[k]@.len() == v@.len(),
            target == matvec_spec(mat_view(*m), v@),
            out@.len() == i,
            forall|k: int| 0 <= k < i ==> out@[k] == target[k],
        decreases m@.len() - i,
    {
        let row_dot: S = match inner_product(&m[i], v) {
            Some(d) => d,
            None => {
                proof {
                    assert(false);
                }
                S::from_bits(BITS_ZERO)
            },
        };
        out.push(row_dot);
        i += 1;
    }
    proof {
        assert(out@ =~= target);
    }
    out
}

/// The difference of two equally long vectors, componentwise.
pub open spec fn diff_spec<S: Scalar>(a: Seq<S>, b: Seq<S>) -> Seq<S> {
    Seq::new(a.len(), |i: int| a[i].sub_spec(b[i]))
}

/// The componentwise difference of two vectors.
fn vec_sub<S: Scalar>(a: &Vec<S>, b: &Vec<S>) -> (r: Vec<S>)
    requires
        a@.len() == b@.len(),
    ensures
        r@ == diff_spec(a@, b@),
{
    let mut out: Vec<S> = Vec::new();
    let mut i: usize = 0;
    while i < a.len()
        invariant
            i <= a@.len(),
            a@.len() == b@.len(),
            out@.len() == i,
            forall|k: int| 0 <= k < i ==> out@[k] == a@[k].sub_spec(b@[k]),
        decreases a@.len() - i,
    {
        out.push(a[i].sub(b[i]));
        i += 1;
    }
    proof {
        assert(out@ =~= diff_spec(a@, b@));
    }
    out
}

/// A strategy that proposes a search direction each iteration and decides
/// when the values have converged.
pub trait Optimizer<S: Scalar, N: NLP<S>> {
    /// Whether the strategy's internal state is sized for this many
    /// variables.
    spec fn ready_spec(&self, n: nat) -> bool;

    /// Whether the strategy regards this context as converged.
    spec fn done_spec(&self, context: OptContext<S>) -> bool;

    /// The starting context of a solve: the initial guess as both current
    /// and previous point, iteration zero, and a previous value of infinity
    /// so that the first iteration always proceeds.
    fn initialize(
        &mut self,
        nlp: &N,
        bounds_handler: &BarrierBoundsHandler<S>,
        constraint_handler: &AugmentedLagrangianConstraintHandler<S>,
    ) -> (r: OptContext<S>)
        requires
            handlers_match_spec(nlp, bounds_handler, constraint_handler),
        ensures
            final(self).ready_spec(nlp.info_spec().num_variables as nat),
            r.wf(nlp.info_spec().num_variables as nat),
            r.iteration == 0,
            r.x_current@ == nlp.initial_guess_spec(),
            r.x_previous@ == nlp.initial_guess_spec(),
            r.objective_current == S::from_bits_spec(BITS_ZERO),
            r.objective_previous == S::from_bits_spec(BITS_INFINITY),
            r.direction_scale_factor == S::from_bits_spec(BITS_ONE),
    ;

    /// The search direction for the current context.  The context itself is
    /// left as it was.
    fn iterate(&mut self, nlp: &N, context: &mut OptContext<S>) -> (d: Vec<S>)
        requires
            old(self).ready_spec(nlp.info_spec().num_variables as nat),
            old(context).wf(nlp.info_spec().num_variables as nat),
        ensures
            final(self).ready_spec(nlp.info_spec().num_variables as nat),
            *final(context) == *old(context),
            d@.len() == nlp.info_spec().num_variables,
    ;

    fn done(&self, context: &OptContext<S>) -> (r: bool)
        ensures
            r == self.done_spec(*context),
    ;
}

/// The gradient method: the direction is the negated adapted gradient.
pub struct SteepestDescent {}

/// Whether two successive adapted values lie within this tolerance of each
/// other, which is the strategy's convergence test.
pub open spec fn values_close_spec<S: Scalar>(context: OptContext<S>, tolerance_bits: u64) -> bool {
    context.objective_current.sub_spec(context.objective_previous).abs_spec().below_spec(
        S::from_bits_spec(tolerance_bits),
    )
}

impl<S: Scalar, N: NLP<S>> Optimizer<S, N> for SteepestDescent {
    open spec fn ready_spec(&self, n: nat) -> bool {
        true
    }

    open spec fn done_spec(&self, context: OptContext<S>) -> bool {
        values_close_spec(context, BITS_1E_MINUS_9)
    }

    /// Besides what every strategy promises, the starting gradient is all
    /// infinite.
    fn initialize(
        &mut self,
        nlp: &N,
        _bounds_handler: &BarrierBoundsHandler<S>,
        _constraint_handler: &AugmentedLagrangianConstraintHandler<S>,
    ) -> (r: OptContext<S>)
        ensures
            r.objective_grad@ == Seq::new(
                nlp.info_spec().num_variables as nat,
                |i: int| S::from_bits_spec(BITS_INFINITY),
            ),
    {
        let nlp_info = nlp.info();
        let n = nlp_info.num_variables;

        OptContext {
            iteration: 0,
            x_current: nlp.initial_guess(),
            x_previous: nlp.initial_guess(),
            objective_current: S::from_bits(BITS_ZERO),
            objective_previous: S::from_bits(BITS_INFINITY),
            objective_grad: filled(n as usize, S::from_bits(BITS_INFINITY)),
            direction_scale_factor: S::from_bits(BITS_ONE),
        }
    }

    /// The direction is exactly the adapted gradient scaled by minus one.
    fn iterate(&mut self, _nlp: &N, context: &mut OptContext<S>) -> (d: Vec<S>)
        ensures
            d@ == scaled_spec(old(context).objective_grad@, S::from_bits_spec(BITS_NEG_ONE)),
    {
        scaled(&context.objective_grad, S::from_bits(BITS_NEG_ONE))
    }

    fn done(&self, context: &OptContext<S>) -> (r: bool) {
        context.objective_current.sub(context.objective_previous).abs().below(
            S::from_bits(BITS_1E_MINUS_9),
        )
    }
}

/// The gradient difference the quasi-Newton update works from.
pub open spec fn bfgs_q_spec<S: Scalar>(g_next: Seq<S>, g_k: Seq<S>) -> Seq<S> {
    diff_spec(g_next, g_k)
}

/// The last accepted step: the previous direction scaled by the accepted
/// step length.
pub open spec fn bfgs_p_spec<S: Scalar>(d_k: Seq<S>, scale: S) -> Seq<S> {
    scaled_spec(d_k, scale)
}

/// The rank-two inverse-Hessian update, entry by entry: the old entry, plus
/// the weighted outer product of the step with itself, minus the two mixed
/// outer products of the step and the propagated gradient difference.
pub open spec fn bfgs_updated_spec<S: Scalar>(
    h: Seq<Seq<S>>,
    p: Seq<S>,
    hq: Seq<S>,
    alpha: S,
    neg_inv_rho: S,
) -> Seq<Seq<S>> {
    Seq::new(
        h.len(),
        |i: int|
            Seq::new(
                h[i].len(),
                |j: int|
                    h[i][j].add_spec(alpha.mul_spec(p[i].mul_spec(p[j]))).add_spec(
                        neg_inv_rho.mul_spec(p[i].mul_spec(hq[j])),
                    ).add_spec(neg_inv_rho.mul_spec(hq[i].mul_spec(p[j]))),
            ),
    )
}

/// The approximate inverse Hessian after the curvature-guarded update.
/// With a clearly positive curvature term the rank-two update is applied,
/// which keeps a positive-definite approximation positive definite.  Any
/// other curvature term — nearly zero, negative or invalid — would have the
/// update divide by (nearly) nothing or destroy positive definiteness, so
/// the approximation is restarted at the identity instead.
pub open spec fn bfgs_curvature_h_spec<S: Scalar>(
    h: Seq<Seq<S>>,
    g_next: Seq<S>,
    g_k: Seq<S>,
    d_k: Seq<S>,
    scale: S,
) -> Seq<Seq<S>> {
    let q = bfgs_q_spec(g_next, g_k);
    let p = bfgs_p_spec(d_k, scale);
    let hq = matvec_spec(h, q);
    let rho = dot_spec(p, q);
    if S::from_bits_spec(BITS_1E_MINUS_12).below_spec(rho) {
        let one = S::from_bits_spec(BITS_ONE);
        let alpha = one.div_spec(rho).add_spec(dot_spec(q, hq).div_spec(rho.mul_spec(rho)));
        let neg_inv_rho = S::from_bits_spec(BITS_NEG_ONE).div_spec(rho);
        bfgs_updated_spec(h, p, hq, alpha, neg_inv_rho)
    } else {
        identity_spec::<S>(h.len())
    }
}

/// The rank-two update keeps a symmetric matrix symmetric whenever the
/// scalar sum is commutative and associative and the scalar product is
/// commutative: the three correction terms of the transposed entry are the
/// same values, added in another order.  Exact arithmetics satisfy the
/// hypotheses; saturating or floating sums satisfy only some of them, which
/// is why the approximation's symmetry is a law about the update formula and
/// not an invariant of every instance.
pub proof fn lemma_rank_two_update_symmetric<S: Scalar>(
    h: Seq<Seq<S>>,
    p: Seq<S>,
    hq: Seq<S>,
    alpha: S,
    neg_inv_rho: S,
    n: nat,
)
    requires
        square_spec(h, n),
        p.len() == n,
        hq.len() == n,
        forall|i: int, j: int| 0 <= i < n && 0 <= j < n ==> h[i][j] == h[j][i],
        forall|x: S, y: S| #[trigger] x.add_spec(y) == y.add_spec(x),
        forall|x: S, y: S, z: S|
            #[trigger] x.add_spec(y).add_spec(z) == x.add_spec(y.add_spec(z)),
        forall|x: S, y: S| #[trigger] x.mul_spec(y) == y.mul_spec(x),
    ensures
        forall|i: int, j: int|
            0 <= i < n && 0 <= j < n ==> #[trigger] bfgs_updated_spec(
                h,
                p,
                hq,
                alpha,
                neg_inv_rho,
            )[i][j] == bfgs_updated_spec(h, p, hq, alpha, neg_inv_rho)[j][i],
{
    assert forall|i: int, j: int|
        0 <= i < n && 0 <= j < n implies #[trigger] bfgs_updated_spec(
        h,
        p,
        hq,
        alpha,
        neg_inv_rho,
    )[i][j] == bfgs_updated_spec(h, p, hq, alpha, neg_inv_rho)[j][i] by {
        let base = h[i][j].add_spec(alpha.mul_spec(p[i].mul_spec(p[j])));
        let mixed_a = neg_inv_rho.mul_spec(p[i].mul_spec(hq[j]));
        let mixed_b = neg_inv_rho.mul_spec(hq[i].mul_spec(p[j]));
        assert(h[j][i].add_spec(alpha.mul_spec(p[j].mul_spec(p[i]))) == base);
        assert(neg_inv_rho.mul_spec(p[j].mul_spec(hq[i])) == mixed_b);
        assert(neg_inv_rho.mul_spec(hq[j].mul_spec(p[i])) == mixed_a);
        assert(base.add_spec(mixed_b).add_spec(mixed_a) == base.add_spec(
            mixed_b.add_spec(mixed_a),
        ));
        assert(base.add_spec(mixed_a).add_spec(mixed_b) == base.add_spec(
            mixed_a.add_spec(mixed_b),
        ));
        assert(mixed_b.add_spec(mixed_a) == mixed_a.add_spec(mixed_b));
    }
}

/// What becomes of the approximate inverse Hessian in one iteration: the
/// curvature-guarded update, discarded for the identity when the direction
/// it proposes is not a descent direction for the gradient — the sign that
/// the approximation has lost positive definiteness after all.
pub open spec fn bfgs_next_h_spec<S: Scalar>(
    h: Seq<Seq<S>>,
    g_next: Seq<S>,
    g_k: Seq<S>,
    d_k: Seq<S>,
    scale: S,
) -> Seq<Seq<S>> {
    let h1 = bfgs_curvature_h_spec(h, g_next, g_k, d_k, scale);
    let d1 = scaled_spec(matvec_spec(h1, g_next), S::from_bits_spec(BITS_NEG_ONE));
    if dot_spec(d1, g_next).below_spec(zero_of::<S>()) {
        h1
    } else {
        identity_spec::<S>(h.len())
    }
}

/// The quasi-Newton strategy: it maintains an approximation of the inverse
/// Hessian, rebuilt by a rank-two update from each accepted step, and points
/// the search along that approximation applied to the negated gradient.
pub struct Bfgs<S> {
    pub g_k: Vec<S>,
    pub d_k: Vec<S>,
    pub h: Vec<Vec<S>>,
    pub n: u32,
}

impl<S: Scalar> Bfgs<S> {
    /// A fresh strategy for this problem: the approximate inverse Hessian
    /// starts as the identity, and the gradient and direction estimates stay
    /// empty until the first initialization.
    pub fn new<N: NLP<S>>(nlp: &N) -> (r: Self)
        ensures
            r.n == nlp.info_spec().num_variables,
            mat_view(r.h) == identity_spec::<S>(nlp.info_spec().num_variables as nat),
            r.g_k@.len() == 0,
            r.d_k@.len() == 0,
    {
        let n = nlp.info().num_variables;
        let h = identity(n as usize);

        Bfgs { g_k: Vec::new(), d_k: Vec::new(), h, n }
    }
}

impl<S: Scalar, N: NLP<S>> Optimizer<S, N> for Bfgs<S> {
    open spec fn ready_spec(&self, n: nat) -> bool {
        &&& self.n as nat == n
        &&& self.g_k@.len() == n
        &&& self.d_k@.len() == n
        &&& square_spec(mat_view(self.h), n)
    }

    open spec fn done_spec(&self, context: OptContext<S>) -> bool {
        values_close_spec(context, BITS_1E_MINUS_12)
    }

    /// Besides what every strategy promises: the gradient estimate becomes
    /// the adapted gradient at the initial guess, the direction its product
    /// with the approximate inverse Hessian, scaled by minus one, and an
    /// approximation sized for another problem is restarted at the identity.
    fn initialize(
        &mut self,
        nlp: &N,
        bounds_handler: &BarrierBoundsHandler<S>,
        constraint_handler: &AugmentedLagrangianConstraintHandler<S>,
    ) -> (r: OptContext<S>)
        ensures
            final(self).g_k@ == adapted_grad_spec(
                nlp,
                bounds_handler,
                constraint_handler,
                nlp.initial_guess_spec(),
            ),
            final(self).d_k@ == scaled_spec(
                matvec_spec(mat_view(final(self).h), final(self).g_k@),
                S::from_bits_spec(BITS_NEG_ONE),
            ),
            r.objective_grad@ == final(self).g_k@,
            mat_view(final(self).h) == if square_spec(
                mat_view(old(self).h),
                nlp.info_spec().num_variables as nat,
            ) && old(self).n == nlp.info_spec().num_variables {
                mat_view(old(self).h)
            } else {
                identity_spec::<S>(nlp.info_spec().num_variables as nat)
            },
    {
        let n = nlp.info().num_variables;

        if !(self.n == n && is_square(&self.h, n as usize)) {
            self.h = identity(n as usize);
            self.n = n;
        }

        let initial_point = nlp.initial_guess();

        let g = nlp.inequality_constraints(&initial_point);
        let h_res = nlp.equality_constraints(&initial_point);
        let pure_grad = internal_grad(nlp, &initial_point);
        let grad_f = bounds_handler.adapted_objective_gradient(&initial_point, &pure_grad);

        let grad_g = nlp.grad_inequality_constraints(&initial_point);
        let grad_h = nlp.grad_equality_constraints(&initial_point);
        let objective_grad = constraint_handler.adapted_objective_grad(
            &grad_f,
            &g,
            &grad_g,
            &h_res,
            &grad_h,
        );
        proof {
            assert(Seq::new(
                g@.len(),
                |j: int| ineq_factor_spec(
                    constraint_handler.c,
                    g@[j],
                    constraint_handler.mu@[j],
                ),
            ) =~= Seq::new(
                nlp.inequality_constraints_spec(initial_point@).len(),
                |j: int| ineq_factor_spec(
                    constraint_handler.c,
                    nlp.inequality_constraints_spec(initial_point@)[j],
                    constraint_handler.mu@[j],
                ),
            ));
            assert(Seq::new(
                h_res@.len(),
                |j: int| eq_factor_spec(
                    constraint_handler.c,
                    h_res@[j],
                    constraint_handler.lambda@[j],
                ),
            ) =~= Seq::new(
                nlp.equality_constraints_spec(initial_point@).len(),
                |j: int| eq_factor_spec(
                    constraint_handler.c,
                    nlp.equality_constraints_spec(initial_point@)[j],
                    constraint_handler.lambda@[j],
                ),
            ));
            assert(objective_grad@ == adapted_grad_spec(
                nlp,
                bounds_handler,
                constraint_handler,
                nlp.initial_guess_spec(),
            ));
        }

        self.g_k = copied(&objective_grad);
        proof {
            lemma_square_rows(self.h, n as nat);
        }
        let h_g = matvec(&self.h, &self.g_k);
        self.d_k = scaled(&h_g, S::from_bits(BITS_NEG_ONE));

        OptContext {
            iteration: 0,
            x_current: nlp.initial_guess(),
            x_previous: nlp.initial_guess(),
            objective_current: S::from_bits(BITS_ZERO),
            objective_previous: S::from_bits(BITS_INFINITY),
            objective_grad,
            direction_scale_factor: S::from_bits(BITS_ONE),
        }
    }

    /// Besides what every strategy promises: on the very first iteration the
    /// direction computed at initialization is reused and nothing changes;
    /// afterwards the gradient estimate moves to the context's gradient, the
    /// approximate inverse Hessian takes its (possibly skipped) rank-two
    /// update, and the direction is the updated approximation applied to the
    /// new gradient, scaled by minus one.
    fn iterate(&mut self, nlp: &N, context: &mut OptContext<S>) -> (d: Vec<S>)
        ensures
            old(context).iteration == 1 ==> *final(self) == *old(self) && d@ == old(self).d_k@,
            old(context).iteration != 1 ==> {
                &&& final(self).g_k@ == old(context).objective_grad@
                &&& mat_view(final(self).h) == bfgs_next_h_spec(
                    mat_view(old(self).h),
                    old(context).objective_grad@,
                    old(self).g_k@,
                    old(self).d_k@,
                    old(context).direction_scale_factor,
                )
                &&& final(self).d_k@ == scaled_spec(
                    matvec_spec(mat_view(final(self).h), final(self).g_k@),
                    S::from_bits_spec(BITS_NEG_ONE),
                )
                &&& d@ == final(self).d_k@
            },
    {
        if context.iteration == 1 {
            return copied(&self.d_k);
        }

        let g_k_next = copied(&context.objective_grad);
        let q_k = vec_sub(&g_k_next, &self.g_k);
        let p_k = scaled(&self.d_k, context.direction_scale_factor);

        self.g_k = g_k_next;

        proof {
            lemma_square_rows(self.h, nlp.info_spec().num_variables as nat);
        }
        let h_q_k = matvec(&self.h, &q_k);

        let p_k_q_k: S = match inner_product(&p_k, &q_k) {
            Some(v) => v,
            None => {
                proof {
                    assert(false);
                }
                S::from_bits(BITS_ZERO)
            },
        };

        if S::from_bits(BITS_1E_MINUS_12).below(p_k_q_k) {
            let q_h_q: S = match inner_product(&q_k, &h_q_k) {
                Some(v) => v,
                None => {
                    proof {
                        assert(false);
                    }
                    S::from_bits(BITS_ZERO)
                },
            };
            let one = S::from_bits(BITS_ONE);
            let alpha = one.div(p_k_q_k).add(q_h_q.div(p_k_q_k.mul(p_k_q_k)));
            let neg_inv_rho = S::from_bits(BITS_NEG_ONE).div(p_k_q_k);
            self.h = rank_two_update(&self.h, &p_k, &h_q_k, alpha, neg_inv_rho);
            proof {
                assert(square_spec(
                    mat_view(self.h),
                    nlp.info_spec().num_variables as nat,
                )) by {
                    assert forall|i: int| 0 <= i < mat_view(self.h).len() implies #[trigger]
                        mat_view(self.h)[i].len() == nlp.info_spec().num_variables as nat by {
                        assert(mat_view(self.h)[i] == bfgs_curvature_h_spec(
                            mat_view(old(self).h),
                            old(context).objective_grad@,
                            old(self).g_k@,
                            old(self).d_k@,
                            old(context).direction_scale_factor,
                        )[i]);
                    }
                };
            }
        } else {
            let n = self.h.len();
            self.h = identity(n);
        }

        proof {
            lemma_square_rows(self.h, nlp.info_spec().num_variables as nat);
        }
        let h_g = matvec(&self.h, &self.g_k);
        let mut direction = scaled(&h_g, S::from_bits(BITS_NEG_ONE));

        let slope: S = match inner_product(&direction, &self.g_k) {
            Some(v) => v,
            None => {
                proof {
                    assert(false);
                }
                S::from_bits(BITS_ZERO)
            },
        };
        if !slope.below(S::from_bits(BITS_ZERO)) {
            let n = self.h.len();
            self.h = identity(n);
            proof {
                lemma_square_rows(self.h, nlp.info_spec().num_variables as nat);
            }
            let h_g_reset = matvec(&self.h, &self.g_k);
            direction = scaled(&h_g_reset, S::from_bits(BITS_NEG_ONE));
        }
        self.d_k = direction;

        copied(&self.d_k)
    }

    fn done(&self, context: &OptContext<S>) -> (r: bool) {
        context.objective_current.sub(context.objective_previous).abs().below(
            S::from_bits(BITS_1E_MINUS_12),
        )
    }
}

/// Whether the matrix has this many rows, each of this length.
fn is_square<S: Scalar>(m: &Vec<Vec<S>>, n: usize) -> (r: bool)
    ensures
        r == square_spec(mat_view(*m), n as nat),
{
    if m.len() != n {
        proof {
            assert(mat_view(*m).len() == m@.len());
        }
        return false;
    }
    let mut i: usize = 0;
    while i < m.len()
        invariant
            i <= m@.len(),
            m@.len() == n,
            forall|k: int| 0 <= k < i ==> #[trigger] m@[k]@.len() == n,
        decreases m@.len() - i,
    {
        if m[i].len() != n {
            proof {
                assert(mat_view(*m)[i as int].len() != n as nat);
            }
            return false;
        }
        i += 1;
    }
    proof {
        assert forall|k: int| 0 <= k < mat_view(*m).len() implies #[trigger] mat_view(*m)[k].len()
            == n as nat by {
            assert(mat_view(*m)[k] == m@[k]@);
        }
    }
    true
}

/// The rank-two update applied to every entry of the matrix.
fn rank_two_update<S: Scalar>(
    h: &Vec<Vec<S>>,
    p: &Vec<S>,
    hq: &Vec<S>,
    alpha: S,
    neg_inv_rho: S,
) -> (r: Vec<Vec<S>>)
    requires
        p@.len() == h@.len(),
        hq@.len() == h@.len(),
        forall|i: int| 0 <= i < h@.len() ==> #[trigger] h@[i]@.len() == h@.len(),
    ensures
        mat_view(r) == bfgs_updated_spec(mat_view(*h), p@, hq@, alpha, neg_inv_rho),
{
    let ghost target = bfgs_updated_spec(mat_view(*h), p@, hq@, alpha, neg_inv_rho);
    let n = h.len();
    let mut rows: Vec<Vec<S>> = Vec::new();
    let mut i: usize = 0;
    while i < n
        invariant
            i <= n,
            n == h@.len(),
            p@.len() == n,
            hq@.len() == n,
            forall|k: int| 0 <= k < n ==> #[trigger] h@[k]@.len() == n,
            target == bfgs_updated_spec(mat_view(*h), p@, hq@, alpha, neg_inv_rho),
            rows@.len() == i,
            forall|k: int| 0 <= k < i ==> #[trigger] rows@[k]@ == target[k],
        decreases n - i,
    {
        let mut row: Vec<S> = Vec::new();
        let mut j: usize = 0;
        while j < n
            invariant
                j <= n,
                i < n,
                n == h@.len(),
                p@.len() == n,
                hq@.len() == n,
                forall|k: int| 0 <= k < n ==> #[trigger] h@[k]@.len() == n,
                target == bfgs_updated_spec(mat_view(*h), p@, hq@, alpha, neg_inv_rho),
                row@.len() == j,
                forall|k: int| 0 <= k < j ==> row@[k] == target[i as int][k],
            decreases n - j,
        {
            let entry = h[i][j].add(alpha.mul(p[i].mul(p[j]))).add(
                neg_inv_rho.mul(p[i].mul(hq[j])),
            ).add(neg_inv_rho.mul(hq[i].mul(p[j])));
            row.push(entry);
            j += 1;
        }
        proof {
            assert(row@ =~= target[i as int]);
        }
        rows.push(row);
        i += 1;
    }
    proof {
        assert(mat_view(rows) =~= target);
    }
    rows
}

} // verus!
