use vstd::prelude::*;

verus! {

use crate::scalar::{Scalar, BITS_HALF, BITS_ZERO};
use crate::vec_utils::{dot_spec, zero_of};

/// One inequality constraint's penalization: half the difference between the
/// squared projected multiplier estimate and the squared multiplier, over the
/// penalty coefficient.
pub open spec fn ineq_penalization_spec<S: Scalar>(c: S, t: S, mu: S) -> S {
    let projected = zero_of::<S>().max_spec(mu.add_spec(c.mul_spec(t)));
    S::from_bits_spec(BITS_HALF).div_spec(c).mul_spec(
        projected.mul_spec(projected).sub_spec(mu.mul_spec(mu)),
    )
}

/// Sum of the inequality penalizations, taken in order starting from zero.
pub open spec fn penalization_sum_spec<S: Scalar>(c: S, g: Seq<S>, mu: Seq<S>) -> S
    decreases g.len(),
{
    if g.len() == 0 {
        zero_of::<S>()
    } else {
        penalization_sum_spec(c, g.drop_last(), mu.drop_last()).add_spec(
            ineq_penalization_spec(c, g.last(), mu[g.len() - 1]),
        )
    }
}

/// The Lagrangian-adapted objective: the incoming value, plus the multiplier
/// and quadratic-penalty terms of the equality residuals when there are any,
/// plus every inequality penalization.
pub open spec fn al_value_spec<S: Scalar>(
    f: S,
    lambda: Seq<S>,
    h: Seq<S>,
    mu: Seq<S>,
    g: Seq<S>,
    c: S,
) -> S {
    let with_eq: S = if h.len() > 0 {
        f.add_spec(
            dot_spec(lambda, h).add_spec(
                S::from_bits_spec(BITS_HALF).mul_spec(c).mul_spec(dot_spec(h, h)),
            ),
        )
    } else {
        f
    };
    with_eq.add_spec(penalization_sum_spec(c, g, mu))
}

/// One inequality constraint's gradient weight: the projected multiplier
/// estimate.
pub open spec fn ineq_factor_spec<S: Scalar>(c: S, g_j: S, mu_j: S) -> S {
    zero_of::<S>().max_spec(mu_j.add_spec(c.mul_spec(g_j)))
}

/// One equality constraint's gradient weight: the multiplier plus the
/// penalized residual.
pub open spec fn eq_factor_spec<S: Scalar>(c: S, h_j: S, lambda_j: S) -> S {
    lambda_j.add_spec(c.mul_spec(h_j))
}

/// Component `i` of the weighted sum of constraint-gradient rows, the rows
/// taken in order starting from zero.
pub open spec fn weighted_rows_spec<S: Scalar>(rows: Seq<Seq<S>>, factors: Seq<S>, i: int) -> S
    decreases rows.len(),
{
    if rows.len() == 0 {
        zero_of::<S>()
    } else {
        weighted_rows_spec(rows.drop_last(), factors.drop_last(), i).add_spec(
            factors[rows.len() - 1].mul_spec(rows.last()[i]),
        )
    }
}

/// The Lagrangian-adapted gradient: componentwise, the incoming gradient
/// plus the weighted inequality rows plus the weighted equality rows.
pub open spec fn al_grad_spec<S: Scalar>(
    grad_f: Seq<S>,
    ineq_rows: Seq<Seq<S>>,
    ineq_factors: Seq<S>,
    eq_rows: Seq<Seq<S>>,
    eq_factors: Seq<S>,
) -> Seq<S> {
    Seq::new(
        grad_f.len(),
        |i: int|
            grad_f[i].add_spec(weighted_rows_spec(ineq_rows, ineq_factors, i)).add_spec(
                weighted_rows_spec(eq_rows, eq_factors, i),
            ),
    )
}

/// Adapts objective values and gradients to a problem's constraints with an
/// augmented Lagrangian, and updates the multiplier estimates once per outer
/// iteration.
pub struct AugmentedLagrangianConstraintHandler<S> {
    pub mu: Vec<S>,
    pub lambda: Vec<S>,
    pub c: S,
}

impl<S: Scalar> AugmentedLagrangianConstraintHandler<S> {
    /// The incoming (already bounds-adapted) objective value plus the
    /// multiplier and penalty terms of both constraint families.
    pub fn adapted_objective_value(&self, f: S, g: &Vec<S>, h: &Vec<S>) -> (r: S)
        requires
            h@.len() == self.lambda@.len(),
            g@.len() == self.mu@.len(),
        ensures
            r == al_value_spec(f, self.lambda@, h@, self.mu@, g@, self.c),
    {
        let mut obj = f;
        if h.len() > 0 {
            let dot = match crate::vec_utils::inner_product(&self.lambda, h) {
                Some(d) => d,
                None => {
                    proof {
                        assert(false);
                    }
                    f
                },
            };
            let half_c = S::from_bits(BITS_HALF).mul(self.c);
            obj = obj.add(dot.add(half_c.mul(crate::vec_utils::norm2_sqr(h))));
        }
        let mut pen = S::from_bits(BITS_ZERO);
        let mut j: usize = 0;
        while j < g.len()
            invariant
                j <= g.len(),
                g@.len() == self.mu@.len(),
                pen == penalization_sum_spec(self.c, g@.take(j as int), self.mu@.take(j as int)),
            decreases g.len() - j,
        {
            let mu_j = self.mu[j];
            let projected = S::from_bits(BITS_ZERO).max(mu_j.add(self.c.mul(g[j])));
            pen = pen.add(
                S::from_bits(BITS_HALF).div(self.c).mul(
                    projected.mul(projected).sub(mu_j.mul(mu_j)),
                ),
            );
            proof {
                assert(g@.take(j + 1).drop_last() =~= g@.take(j as int));
                assert(self.mu@.take(j + 1).drop_last() =~= self.mu@.take(j as int));
            }
            j += 1;
        }
        proof {
            assert(g@.take(g@.len() as int) =~= g@);
            assert(self.mu@.take(self.mu@.len() as int) =~= self.mu@);
        }
        obj.add(pen)
    }

    /// The incoming (already bounds-adapted) gradient plus the
    /// constraint-gradient rows, each weighted by its multiplier estimate.
    pub fn adapted_objective_grad(
        &self,
        grad_f: &Vec<S>,
        g: &Vec<S>,
        grad_g: &Vec<Vec<S>>,
        h: &Vec<S>,
        grad_h: &Vec<Vec<S>>,
    ) -> (r: Vec<S>)
        requires
            grad_g@.len() == g@.len(),
            g@.len() == self.mu@.len(),
            grad_h@.len() == h@.len(),
            h@.len() == self.lambda@.len(),
            forall|j: int| 0 <= j < grad_g@.len() ==> #[trigger] grad_g@[j]@.len()
                == grad_f@.len(),
            forall|j: int| 0 <= j < grad_h@.len() ==> #[trigger] grad_h@[j]@.len()
                == grad_f@.len(),
        ensures
            r@ == al_grad_spec(
                grad_f@,
                grad_g@.map_values(|row: Vec<S>| row@),
                Seq::new(g@.len(), |j: int| ineq_factor_spec(self.c, g@[j], self.mu@[j])),
                grad_h@.map_values(|row: Vec<S>| row@),
                Seq::new(h@.len(), |j: int| eq_factor_spec(self.c, h@[j], self.lambda@[j])),
            ),
    {
        let ghost ineq_rows = grad_g@.map_values(|row: Vec<S>| row@);
        let ghost ineq_factors = Seq::new(
            g@.len(),
            |j: int| ineq_factor_spec(self.c, g@[j], self.mu@[j]),
        );
        let ghost eq_rows = grad_h@.map_values(|row: Vec<S>| row@);
        let ghost eq_factors = Seq::new(
            h@.len(),
            |j: int| eq_factor_spec(self.c, h@[j], self.lambda@[j]),
        );
        let n = grad_f.len();

        let grad_ineq = Self::weighted_row_sum(n, grad_g, g, &self.mu, self.c, true);
        proof {
            assert(forall|i: int| 0 <= i < n ==> #[trigger] grad_ineq@[i] == weighted_rows_spec(
                ineq_rows, ineq_factors, i));
        }
        let grad_eq = Self::weighted_row_sum(n, grad_h, h, &self.lambda, self.c, false);

        let mut out: Vec<S> = Vec::new();
        let mut i: usize = 0;
        while i < n
            invariant
                i <= n,
                n == grad_f@.len(),
                grad_ineq@.len() == n,
                grad_eq@.len() == n,
                forall|k: int| 0 <= k < n ==> #[trigger] grad_ineq@[k] == weighted_rows_spec(
                    ineq_rows, ineq_factors, k),
                forall|k: int| 0 <= k < n ==> #[trigger] grad_eq@[k] == weighted_rows_spec(
                    eq_rows, eq_factors, k),
                out@.len() == i,
                forall|k: int| 0 <= k < i ==> #[trigger] out@[k] == grad_f@[k].add_spec(
                    grad_ineq@[k]).add_spec(grad_eq@[k]),
            decreases n - i,
        {
            out.push(grad_f[i].add(grad_ineq[i]).add(grad_eq[i]));
            i += 1;
        }
        proof {
            assert(out@ =~= al_grad_spec(grad_f@, ineq_rows, ineq_factors, eq_rows, eq_factors));
        }
        out
    }

    /// The weighted sum of constraint-gradient rows: each row scaled by its
    /// factor (projected for inequalities, plain for equalities) and summed
    /// componentwise, rows in order.
    fn weighted_row_sum(
        n: usize,
        rows: &Vec<Vec<S>>,
        residuals: &Vec<S>,
        multipliers: &Vec<S>,
        c: S,
        project: bool,
    ) -> (r: Vec<S>)
        requires
            rows@.len() == residuals@.len(),
            residuals@.len() == multipliers@.len(),
            forall|j: int| 0 <= j < rows@.len() ==> #[trigger] rows@[j]@.len() == n,
        ensures
            r@.len() == n,
            forall|i: int|
                0 <= i < n ==> #[trigger] r@[i] == weighted_rows_spec(
                    rows@.map_values(|row: Vec<S>| row@),
                    if project {
                        Seq::new(
                            residuals@.len(),
                            |j: int| ineq_factor_spec(c, residuals@[j], multipliers@[j]),
                        )
                    } else {
                        Seq::new(
                            residuals@.len(),
                            |j: int| eq_factor_spec(c, residuals@[j], multipliers@[j]),
                        )
                    },
                    i,
                ),
    {
        let ghost row_views = rows@.map_values(|row: Vec<S>| row@);
        let ghost factors: Seq<S> = if project {
            Seq::new(residuals@.len(), |j: int| ineq_factor_spec(c, residuals@[j], multipliers@[j]))
        } else {
            Seq::new(residuals@.len(), |j: int| eq_factor_spec(c, residuals@[j], multipliers@[j]))
        };
        let mut out: Vec<S> = Vec::new();
        let mut i: usize = 0;
        while i < n
            invariant
                i <= n,
                out@.len() == i,
                forall|k: int| 0 <= k < i ==> #[trigger] out@[k] == zero_of::<S>(),
            decreases n - i,
        {
            out.push(S::from_bits(BITS_ZERO));
            i += 1;
        }
        let mut j: usize = 0;
        while j < rows.len()
            invariant
                j <= rows@.len(),
                rows@.len() == residuals@.len(),
                residuals@.len() == multipliers@.len(),
                forall|jj: int| 0 <= jj < rows@.len() ==> #[trigger] rows@[jj]@.len() == n,
                row_views == rows@.map_values(|row: Vec<S>| row@),
                factors.len() == rows@.len(),
                forall|jj: int|
                    0 <= jj < rows@.len() ==> factors[jj] == if project {
                        ineq_factor_spec(c, residuals@[jj], multipliers@[jj])
                    } else {
                        eq_factor_spec(c, residuals@[jj], multipliers@[jj])
                    },
                out@.len() == n,
                forall|i2: int|
                    0 <= i2 < n ==> #[trigger] out@[i2] == weighted_rows_spec(
                        row_views.take(j as int),
                        factors.take(j as int),
                        i2,
                    ),
            decreases rows@.len() - j,
        {
            let factor: S = if project {
                S::from_bits(BITS_ZERO).max(multipliers[j].add(c.mul(residuals[j])))
            } else {
                multipliers[j].add(c.mul(residuals[j]))
            };
            let ghost out_before = out@;
            let row = &rows[j];
            let mut i2: usize = 0;
            while i2 < n
                invariant
                    i2 <= n,
                    out@.len() == n,
                    row@.len() == n,
                    row@ == row_views[j as int],
                    0 <= j < row_views.len(),
                    factor == factors[j as int],
                    forall|k: int| 0 <= k < i2 ==> #[trigger] out@[k] == out_before[k].add_spec(
                        factor.mul_spec(row@[k])),
                    forall|k: int| i2 <= k < n ==> #[trigger] out@[k] == out_before[k],
                decreases n - i2,
            {
                let updated = out[i2].add(factor.mul(row[i2]));
                out.set(i2, updated);
                i2 += 1;
            }
            proof {
                assert(row_views.take(j + 1).drop_last() =~= row_views.take(j as int));
                assert(factors.take(j + 1).drop_last() =~= factors.take(j as int));
                assert(forall|k: int|
                    0 <= k < n ==> #[trigger] out@[k] == weighted_rows_spec(
                        row_views.take(j + 1),
                        factors.take(j + 1),
                        k,
                    ));
            }
            j += 1;
        }
        proof {
            assert(row_views.take(rows@.len() as int) =~= row_views);
            assert(factors.take(rows@.len() as int) =~= factors);
        }
        out
    }

    /// One multiplier update per accepted outer iteration: every inequality
    /// multiplier moves to its projected estimate, so it never goes negative,
    /// and every equality multiplier absorbs its penalized residual.  The
    /// penalty coefficient stays fixed.
    pub fn update_multipliers(&mut self, g: &Vec<S>, h: &Vec<S>)
        requires
            g@.len() == old(self).mu@.len(),
            h@.len() == old(self).lambda@.len(),
        ensures
            final(self).mu@ == Seq::new(
                old(self).mu@.len(),
                |j: int| ineq_factor_spec(old(self).c, g@[j], old(self).mu@[j]),
            ),
            final(self).lambda@ == Seq::new(
                old(self).lambda@.len(),
                |j: int| eq_factor_spec(old(self).c, h@[j], old(self).lambda@[j]),
            ),
            final(self).c == old(self).c,
    {
        let ghost mu0 = self.mu@;
        let ghost lambda0 = self.lambda@;
        let mut j: usize = 0;
        while j < self.mu.len()
            invariant
                j <= self.mu@.len(),
                self.mu@.len() == mu0.len(),
                g@.len() == mu0.len(),
                self.c == old(self).c,
                self.lambda@ == lambda0,
                forall|k: int| 0 <= k < j ==> #[trigger] self.mu@[k] == ineq_factor_spec(
                    old(self).c, g@[k], mu0[k]),
                forall|k: int| j <= k < mu0.len() ==> #[trigger] self.mu@[k] == mu0[k],
            decreases self.mu@.len() - j,
        {
            let updated = S::from_bits(BITS_ZERO).max(self.mu[j].add(self.c.mul(g[j])));
            self.mu.set(j, updated);
            j += 1;
        }
        let mut k: usize = 0;
        while k < self.lambda.len()
            invariant
                k <= self.lambda@.len(),
                self.lambda@.len() == lambda0.len(),
                h@.len() == lambda0.len(),
                self.c == old(self).c,
                self.mu@ == Seq::new(
                    mu0.len(),
                    |j: int| ineq_factor_spec(old(self).c, g@[j], mu0[j]),
                ),
                forall|kk: int| 0 <= kk < k ==> #[trigger] self.lambda@[kk] == eq_factor_spec(
                    old(self).c, h@[kk], lambda0[kk]),
                forall|kk: int| k <= kk < lambda0.len() ==> #[trigger] self.lambda@[kk]
                    == lambda0[kk],
            decreases self.lambda@.len() - k,
        {
            let updated = self.lambda[k].add(self.c.mul(h[k]));
            self.lambda.set(k, updated);
            k += 1;
        }
        proof {
            assert(self.mu@ =~= Seq::new(
                mu0.len(),
                |j: int| ineq_factor_spec(old(self).c, g@[j], mu0[j]),
            ));
            assert(self.lambda@ =~= Seq::new(
                lambda0.len(),
                |j: int| eq_factor_spec(old(self).c, h@[j], lambda0[j]),
            ));
        }
    }
}

} // verus!
