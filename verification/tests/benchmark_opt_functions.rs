use runolinop::{NlpInfo, ObjectiveSense, Options, OptionsLogger, Scalar, Solver, VariableBounds, NLP};

#[derive(Clone, Copy, PartialEq, Debug)]
struct R(f64);

impl Scalar for R {
    // The `..._spec` items are the trait's ghost model; the verifier erases
    // them from executable code, so these bodies can never run.
    fn from_bits_spec(_: u64) -> R {
        unreachable!()
    }
    fn add_spec(self, _: R) -> R {
        unreachable!()
    }
    fn sub_spec(self, _: R) -> R {
        unreachable!()
    }
    fn mul_spec(self, _: R) -> R {
        unreachable!()
    }
    fn div_spec(self, _: R) -> R {
        unreachable!()
    }
    fn neg_spec(self) -> R {
        unreachable!()
    }
    fn ln_spec(self) -> R {
        unreachable!()
    }
    fn sqrt_spec(self) -> R {
        unreachable!()
    }
    fn abs_spec(self) -> R {
        unreachable!()
    }
    fn max_spec(self, _: R) -> R {
        unreachable!()
    }
    fn min_spec(self, _: R) -> R {
        unreachable!()
    }
    fn below_spec(self, _: R) -> bool {
        unreachable!()
    }
    fn is_nan_spec(self) -> bool {
        unreachable!()
    }
    fn from_bits(bits: u64) -> R {
        R(f64::from_bits(bits))
    }
    fn add(self, other: R) -> R {
        R(self.0 + other.0)
    }
    fn sub(self, other: R) -> R {
        R(self.0 - other.0)
    }
    fn mul(self, other: R) -> R {
        R(self.0 * other.0)
    }
    fn div(self, other: R) -> R {
        R(self.0 / other.0)
    }
    fn neg(self) -> R {
        R(-self.0)
    }
    fn ln(self) -> R {
        R(self.0.ln())
    }
    fn sqrt(self) -> R {
        R(self.0.sqrt())
    }
    fn abs(self) -> R {
        R(self.0.abs())
    }
    fn max(self, other: R) -> R {
        R(self.0.max(other.0))
    }
    fn min(self, other: R) -> R {
        R(self.0.min(other.0))
    }
    fn below(self, other: R) -> bool {
        self.0 < other.0
    }
    fn is_nan(self) -> bool {
        self.0.is_nan()
    }
    fn describe(self) -> String {
        format!("{}", self.0)
    }
}

fn rosenbrock(xs: &[R], n: usize) -> f64 {
    let mut sum: f64 = 0.0;

    for i in 0..n - 1 {
        sum += 100.0 * (xs[i + 1].0 - xs[i].0 * xs[i].0).powi(2) + (1.0 - xs[i].0).powi(2);
    }

    sum
}

fn grad_rosenbrock(xs: &[R], n: usize) -> Vec<R> {
    let mut grad = vec![0.0; n];

    for i in 0..n - 1 {
        grad[i] += -400.0 * (xs[i + 1].0 - xs[i].0 * xs[i].0) * xs[i].0 - 2.0 * (1.0 - xs[i].0);
        grad[i + 1] += 200.0 * (xs[i + 1].0 - xs[i].0 * xs[i].0);
    }

    grad.into_iter().map(R).collect()
}

struct Rosenbrock {
    info: NlpInfo,
}

impl NLP<R> for Rosenbrock {
    fn info_spec(&self) -> NlpInfo {
        unreachable!()
    }
    fn bounds_spec(&self) -> vstd::prelude::Seq<VariableBounds<R>> {
        unreachable!()
    }
    fn objective_spec(&self, _: vstd::prelude::Seq<R>) -> R {
        unreachable!()
    }
    fn grad_objective_spec(&self, _: vstd::prelude::Seq<R>) -> vstd::prelude::Seq<R> {
        unreachable!()
    }
    fn equality_constraints_spec(&self, _: vstd::prelude::Seq<R>) -> vstd::prelude::Seq<R> {
        unreachable!()
    }
    fn grad_equality_constraints_spec(
        &self,
        _: vstd::prelude::Seq<R>,
    ) -> vstd::prelude::Seq<vstd::prelude::Seq<R>> {
        unreachable!()
    }
    fn inequality_constraints_spec(&self, _: vstd::prelude::Seq<R>) -> vstd::prelude::Seq<R> {
        unreachable!()
    }
    fn grad_inequality_constraints_spec(
        &self,
        _: vstd::prelude::Seq<R>,
    ) -> vstd::prelude::Seq<vstd::prelude::Seq<R>> {
        unreachable!()
    }
    fn initial_guess_spec(&self) -> vstd::prelude::Seq<R> {
        unreachable!()
    }
    fn info(&self) -> &NlpInfo {
        &self.info
    }
    fn bounds(&self) -> Vec<VariableBounds<R>> {
        vec![
            VariableBounds { lb: R(f64::NEG_INFINITY), ub: R(f64::INFINITY) };
            self.info.num_variables as usize
        ]
    }
    fn objective(&self, xs: &Vec<R>) -> R {
        R(rosenbrock(xs, self.info.num_variables as usize))
    }
    fn grad_objective(&self, xs: &Vec<R>) -> Vec<R> {
        grad_rosenbrock(xs, self.info.num_variables as usize)
    }
    fn equality_constraints(&self, _: &Vec<R>) -> Vec<R> {
        vec![]
    }
    fn grad_equality_constraints(&self, _: &Vec<R>) -> Vec<Vec<R>> {
        vec![]
    }
    fn inequality_constraints(&self, _: &Vec<R>) -> Vec<R> {
        vec![]
    }
    fn grad_inequality_constraints(&self, _: &Vec<R>) -> Vec<Vec<R>> {
        vec![]
    }
    fn initial_guess(&self) -> Vec<R> {
        vec![R(0.0); self.info.num_variables as usize]
    }
}

#[test]
fn rosenbrock_bfgs_benchmark() {
    let nlp = Rosenbrock {
        info: NlpInfo {
            num_variables: 1000,
            num_inequality_constraints: 0,
            num_equality_constraints: 0,
            sense: ObjectiveSense::Min,
        },
    };

    let mut solver = Solver::new(
        &nlp,
        Options {
            logger: OptionsLogger { frequency: 100 },
            ..Default::default()
        },
    );

    let solution = solver.solve();
    println!("solution: {}", solution.describe());

    for i in 0..nlp.info.num_variables as usize {
        assert!(
            (solution.best_solution[i].0 - 1.0).abs() < 1.0E-6,
            "failing component {}: {}",
            i,
            solution.best_solution[i].0
        );
    }
}
