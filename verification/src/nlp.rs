use vstd::prelude::*;

verus! {

use crate::scalar::Scalar;

/// Whether the objective is to be made small or large.
#[derive(Clone, Copy, PartialEq, Eq, Structural, Debug)]
pub enum ObjectiveSense {
    Min,
    Max,
}

/// Fixed shape of a problem: how many variables and constraints it has, and
/// the sense of its objective.
#[derive(Clone, Copy, PartialEq, Eq, Structural, Debug)]
pub struct NlpInfo {
    pub num_variables: u32,
    pub num_inequality_constraints: u32,
    pub num_equality_constraints: u32,
    pub sense: ObjectiveSense,
}

impl NlpInfo {
    /// A problem has at least one variable.
    pub open spec fn wf(self) -> bool {
        self.num_variables >= 1
    }

    /// The canonical rendering of the problem shape, one line per count.
    pub fn describe(&self) -> String {
        let mut out = String::from_str("number of variables: ");
        out.append(crate::scalar::decimal_digits(self.num_variables as i64).as_str());
        out.append("\nnumber of inequality constraints: ");
        out.append(crate::scalar::decimal_digits(self.num_inequality_constraints as i64).as_str());
        out.append("\nnumber of equality constraints: ");
        out.append(crate::scalar::decimal_digits(self.num_equality_constraints as i64).as_str());
        out.append("\n");
        out
    }
}

/// One variable's admissible interval.  A lower bound equal to negative
/// infinity or an upper bound equal to positive infinity is inactive.
#[derive(Clone, Copy)]
pub struct VariableBounds<S> {
    pub lb: S,
    pub ub: S,
}

impl<S: Scalar> VariableBounds<S> {
    /// The canonical rendering: the pair of the two bounds.
    pub fn describe(&self) -> String {
        let mut out = String::from_str("(");
        out.append(self.lb.describe().as_str());
        out.append(", ");
        out.append(self.ub.describe().as_str());
        out.append(")");
        out
    }
}

/// A nonlinear program, described by its caller.
///
/// The contracts are the interface's obligations: the shape is fixed, every
/// method is a pure function of the point it is given, and every returned
/// vector has the advertised length.  Starting from a point that violates
/// the variable bounds is the caller's own risk: the barrier diverges there.
pub trait NLP<S: Scalar> {
    /// The shape the problem claims.
    spec fn info_spec(&self) -> NlpInfo;

    /// The bounds as a function of the problem alone.
    spec fn bounds_spec(&self) -> Seq<VariableBounds<S>>;

    /// The objective as a pure function of the point.
    spec fn objective_spec(&self, x: Seq<S>) -> S;

    /// The objective gradient as a pure function of the point.
    spec fn grad_objective_spec(&self, x: Seq<S>) -> Seq<S>;

    /// The equality-constraint residuals as a pure function of the point;
    /// feasible points have them all zero.
    spec fn equality_constraints_spec(&self, x: Seq<S>) -> Seq<S>;

    /// The equality-constraint gradients, one row per constraint.
    spec fn grad_equality_constraints_spec(&self, x: Seq<S>) -> Seq<Seq<S>>;

    /// The inequality-constraint residuals as a pure function of the point;
    /// feasible points have them all at most zero.
    spec fn inequality_constraints_spec(&self, x: Seq<S>) -> Seq<S>;

    /// The inequality-constraint gradients, one row per constraint.
    spec fn grad_inequality_constraints_spec(&self, x: Seq<S>) -> Seq<Seq<S>>;

    /// The starting point as a function of the problem alone.
    spec fn initial_guess_spec(&self) -> Seq<S>;

    fn info(&self) -> (r: &NlpInfo)
        ensures
            *r == self.info_spec(),
    ;

    fn bounds(&self) -> (r: Vec<VariableBounds<S>>)
        ensures
            r@ == self.bounds_spec(),
            r@.len() == self.info_spec().num_variables,
    ;

    fn objective(&self, xs: &Vec<S>) -> (r: S)
        ensures
            r == self.objective_spec(xs@),
    ;

    fn grad_objective(&self, xs: &Vec<S>) -> (r: Vec<S>)
        ensures
            r@ == self.grad_objective_spec(xs@),
            r@.len() == self.info_spec().num_variables,
    ;

    fn equality_constraints(&self, xs: &Vec<S>) -> (r: Vec<S>)
        ensures
            r@ == self.equality_constraints_spec(xs@),
            r@.len() == self.info_spec().num_equality_constraints,
    ;

    fn grad_equality_constraints(&self, xs: &Vec<S>) -> (r: Vec<Vec<S>>)
        ensures
            r@.len() == self.info_spec().num_equality_constraints,
            r@.map_values(|row: Vec<S>| row@) == self.grad_equality_constraints_spec(xs@),
            forall|j: int|
                0 <= j < r@.len() ==> #[trigger] r@[j]@.len() == self.info_spec().num_variables,
    ;

    fn inequality_constraints(&self, xs: &Vec<S>) -> (r: Vec<S>)
        ensures
            r@ == self.inequality_constraints_spec(xs@),
            r@.len() == self.info_spec().num_inequality_constraints,
    ;

    fn grad_inequality_constraints(&self, xs: &Vec<S>) -> (r: Vec<Vec<S>>)
        ensures
            r@.len() == self.info_spec().num_inequality_constraints,
            r@.map_values(|row: Vec<S>| row@) == self.grad_inequality_constraints_spec(xs@),
            forall|j: int|
                0 <= j < r@.len() ==> #[trigger] r@[j]@.len() == self.info_spec().num_variables,
    ;

    fn initial_guess(&self) -> (r: Vec<S>)
        ensures
            r@ == self.initial_guess_spec(),
            r@.len() == self.info_spec().num_variables,
    ;
}

} // verus!
