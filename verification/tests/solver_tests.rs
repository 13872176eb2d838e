use runolinop::{
    add, inner_product, norm2, norm2_sqr, scaled, ArmijoGoldsteinRule,
    AugmentedLagrangianConstraintHandler, BarrierBoundsHandler, Bfgs, NlpInfo, ObjectiveFn,
    ObjectiveSense, OptContext, Options, OptionsBoundsHandler, OptionsStepSizeControl, Scalar,
    Solution, Solver, StdoutLogger, SteepestDescent, StepSizeControl, VariableBounds, NLP,
};

/// Machine reals as a solver arithmetic: IEEE double precision.
#[derive(Clone, Copy, PartialEq, Debug)]
struct R(f64);

impl Scalar for R {
    // The `..._spec` items are the trait's ghost model; the verifier erases
    // them from executable code, so these bodies can never run.
    fn from_bits_spec(_: u64) -> R {
        unreachable!()
    }
    fn add_spec(self, _: R) -> R {
        unreachable!()
    }
    fn sub_spec(self, _: R) -> R {
        unreachable!()
    }
    fn mul_spec(self, _: R) -> R {
        unreachable!()
    }
    fn div_spec(self, _: R) -> R {
        unreachable!()
    }
    fn neg_spec(self) -> R {
        unreachable!()
    }
    fn ln_spec(self) -> R {
        unreachable!()
    }
    fn sqrt_spec(self) -> R {
        unreachable!()
    }
    fn abs_spec(self) -> R {
        unreachable!()
    }
    fn max_spec(self, _: R) -> R {
        unreachable!()
    }
    fn min_spec(self, _: R) -> R {
        unreachable!()
    }
    fn below_spec(self, _: R) -> bool {
        unreachable!()
    }
    fn is_nan_spec(self) -> bool {
        unreachable!()
    }
    fn from_bits(bits: u64) -> R {
        R(f64::from_bits(bits))
    }
    fn add(self, other: R) -> R {
        R(self.0 + other.0)
    }
    fn sub(self, other: R) -> R {
        R(self.0 - other.0)
    }
    fn mul(self, other: R) -> R {
        R(self.0 * other.0)
    }
    fn div(self, other: R) -> R {
        R(self.0 / other.0)
    }
    fn neg(self) -> R {
        R(-self.0)
    }
    fn ln(self) -> R {
        R(self.0.ln())
    }
    fn sqrt(self) -> R {
        R(self.0.sqrt())
    }
    fn abs(self) -> R {
        R(self.0.abs())
    }
    fn max(self, other: R) -> R {
        R(self.0.max(other.0))
    }
    fn min(self, other: R) -> R {
        R(self.0.min(other.0))
    }
    fn below(self, other: R) -> bool {
        self.0 < other.0
    }
    fn is_nan(self) -> bool {
        self.0.is_nan()
    }
    fn describe(self) -> String {
        format!("{}", self.0)
    }
}

fn rv(v: &[f64]) -> Vec<R> {
    v.iter().map(|&x| R(x)).collect()
}

/// A test problem built from plain function pointers.
struct Prob {
    info: NlpInfo,
    bounds: Vec<VariableBounds<R>>,
    objective: fn(&Vec<R>) -> R,
    grad_objective: fn(&Vec<R>) -> Vec<R>,
    equality: fn(&Vec<R>) -> Vec<R>,
    grad_equality: fn(&Vec<R>) -> Vec<Vec<R>>,
    inequality: fn(&Vec<R>) -> Vec<R>,
    grad_inequality: fn(&Vec<R>) -> Vec<Vec<R>>,
    initial: Vec<R>,
}

fn no_residuals(_: &Vec<R>) -> Vec<R> {
    vec![]
}

fn no_rows(_: &Vec<R>) -> Vec<Vec<R>> {
    vec![]
}

impl NLP<R> for Prob {
    fn info_spec(&self) -> NlpInfo {
        unreachable!()
    }
    fn bounds_spec(&self) -> vstd::prelude::Seq<VariableBounds<R>> {
        unreachable!()
    }
    fn objective_spec(&self, _: vstd::prelude::Seq<R>) -> R {
        unreachable!()
    }
    fn grad_objective_spec(&self, _: vstd::prelude::Seq<R>) -> vstd::prelude::Seq<R> {
        unreachable!()
    }
    fn equality_constraints_spec(&self, _: vstd::prelude::Seq<R>) -> vstd::prelude::Seq<R> {
        unreachable!()
    }
    fn grad_equality_constraints_spec(
        &self,
        _: vstd::prelude::Seq<R>,
    ) -> vstd::prelude::Seq<vstd::prelude::Seq<R>> {
        unreachable!()
    }
    fn inequality_constraints_spec(&self, _: vstd::prelude::Seq<R>) -> vstd::prelude::Seq<R> {
        unreachable!()
    }
    fn grad_inequality_constraints_spec(
        &self,
        _: vstd::prelude::Seq<R>,
    ) -> vstd::prelude::Seq<vstd::prelude::Seq<R>> {
        unreachable!()
    }
    fn initial_guess_spec(&self) -> vstd::prelude::Seq<R> {
        unreachable!()
    }
    fn info(&self) -> &NlpInfo {
        &self.info
    }
    fn bounds(&self) -> Vec<VariableBounds<R>> {
        self.bounds.clone()
    }
    fn objective(&self, xs: &Vec<R>) -> R {
        (self.objective)(xs)
    }
    fn grad_objective(&self, xs: &Vec<R>) -> Vec<R> {
        (self.grad_objective)(xs)
    }
    fn equality_constraints(&self, xs: &Vec<R>) -> Vec<R> {
        (self.equality)(xs)
    }
    fn grad_equality_constraints(&self, xs: &Vec<R>) -> Vec<Vec<R>> {
        (self.grad_equality)(xs)
    }
    fn inequality_constraints(&self, xs: &Vec<R>) -> Vec<R> {
        (self.inequality)(xs)
    }
    fn grad_inequality_constraints(&self, xs: &Vec<R>) -> Vec<Vec<R>> {
        (self.grad_inequality)(xs)
    }
    fn initial_guess(&self) -> Vec<R> {
        self.initial.clone()
    }
}

fn x_squared(xs: &Vec<R>) -> R {
    R(xs[0].0.powi(2))
}

fn grad_x_squared(xs: &Vec<R>) -> Vec<R> {
    vec![R(2.0 * xs[0].0)]
}

/// Minimizing (or maximizing) the square of one variable over [1.1, 3.213]
/// from the start 2.0.
fn x_squared_problem(sense: ObjectiveSense) -> Prob {
    Prob {
        info: NlpInfo {
            num_variables: 1,
            num_inequality_constraints: 0,
            num_equality_constraints: 0,
            sense,
        },
        bounds: vec![VariableBounds { lb: R(1.1), ub: R(3.213) }],
        objective: x_squared,
        grad_objective: grad_x_squared,
        equality: no_residuals,
        grad_equality: no_rows,
        inequality: no_residuals,
        grad_inequality: no_rows,
        initial: rv(&[2.0]),
    }
}

fn steepest_descent_solver(nlp: &Prob) -> Solver<'_, R, Prob, ArmijoGoldsteinRule<R>, SteepestDescent, StdoutLogger> {
    Solver {
        nlp,
        step_size_control: ArmijoGoldsteinRule::new(R(1.0), R(0.95), R(0.01)),
        optimizer: SteepestDescent {},
        bounds_handler: BarrierBoundsHandler {
            bounds: nlp.bounds.clone(),
            sense: ObjectiveSense::Min,
            barrier_parameter: R(1.0e-6),
            barrier_decrease_factor: R(0.5),
        },
        constraints_handler: AugmentedLagrangianConstraintHandler {
            mu: vec![],
            lambda: vec![],
            c: R(1.0),
        },
        logger: StdoutLogger::new(1),
    }
}

#[test]
fn norm2_test() {
    assert_eq!(norm2(&rv(&[4., 3.])), R(5.));
}

#[test]
fn norm2_sqr_test() {
    assert_eq!(norm2_sqr(&rv(&[4., 3.])), R(25.));
}

#[test]
fn inner_product_test() {
    assert_eq!(inner_product(&rv(&[1., 2.]), &rv(&[3., 4.])).unwrap(), R(11.));
    assert_eq!(inner_product(&rv(&[1., 2.]), &rv(&[3., 4., 5.])), None);
}

#[test]
fn scaled_test() {
    let v = rv(&[1., 2., 0., 3.]);

    assert_eq!(scaled(&v, R(2.)), rv(&[2., 4., 0., 6.]));
}

#[test]
fn add_test() {
    let a = rv(&[1., 0., 2.]);
    let b = rv(&[3., 1., 1.]);

    assert_eq!(add(&a, &b).unwrap(), rv(&[4., 1., 3.]));
    assert_eq!(add(&rv(&[1., 2.]), &rv(&[1., 2., 3.])), None);
}

#[test]
fn nlp_nlp_definition() {
    let mut nlp = x_squared_problem(ObjectiveSense::Min);
    nlp.bounds = vec![VariableBounds { lb: R(1.1), ub: R(f64::INFINITY) }];

    println!("NLP information: {}", nlp.info().describe());
    for (v, b) in nlp.bounds().iter().enumerate() {
        println!("bounds for variable no. {}: {}", v, b.describe());
    }
}

#[test]
fn nlp_construction_nlp_definition() {
    let mut nlp = x_squared_problem(ObjectiveSense::Min);
    nlp.bounds = vec![VariableBounds { lb: R(1.1), ub: R(f64::INFINITY) }];

    println!("NLP information: {}", nlp.info().describe());
    for (v, b) in nlp.bounds().iter().enumerate() {
        println!("bounds for variable no. {}: {}", v, b.describe());
    }
}

#[test]
fn opt_context_can_be_modified() {
    let x_previous = rv(&[0.0, 0.0, 0.0]);
    let x_current = rv(&[1.0, 2.0, 3.0]);
    let obj = R(1.1);

    let mut oc = OptContext {
        iteration: 0,
        x_current,
        x_previous,
        objective_current: obj,
        objective_previous: R(0.0),
        objective_grad: rv(&[4.4, 5.5, 6.6]),
        direction_scale_factor: R(1.0),
    };

    assert_eq!(oc.x_current, rv(&[1.0, 2.0, 3.0]));
    assert_eq!(oc.x_previous, rv(&[0.0, 0.0, 0.0]));
    assert_eq!(oc.objective_current, obj);

    oc.x_current[0] = R(oc.x_current[0].0 + 1.1);
    assert_eq!(oc.x_current, rv(&[2.1, 2.0, 3.0]));

    oc.x_previous[2] = R(-1.23);
    assert_eq!(oc.x_previous, rv(&[0.0, 0.0, -1.23]));

    oc.objective_current = R(2.34);
    assert_eq!(oc.objective_current, R(2.34));
}

#[test]
fn min_unconstrained_steepeset_descent() {
    let nlp = x_squared_problem(ObjectiveSense::Min);
    let mut solver = steepest_descent_solver(&nlp);

    let solution = solver.solve();

    println!("solution: {}", solution.describe());
    assert!((solution.best_solution[0].0 - nlp.bounds[0].lb.0).abs() < 1.0E-8);
}

#[test]
fn max_unconstrained_steepset_descent() {
    let nlp = x_squared_problem(ObjectiveSense::Max);
    let mut solver = steepest_descent_solver(&nlp);

    let solution = solver.solve();

    println!("solution: {}", solution.describe());
    assert!((solution.best_solution[0].0 - nlp.bounds[0].ub.0).abs() < 1.0E-8);
}

#[test]
fn min_unconstrained_steepest_descent() {
    let nlp = x_squared_problem(ObjectiveSense::Min);
    let mut solver = steepest_descent_solver(&nlp);

    let solution = solver.solve();

    println!("solution: {}", solution.describe());
    assert!((solution.best_solution[0].0 - nlp.bounds[0].lb.0).abs() < 1.0E-8);
}

#[test]
fn min_unconstrained_bfgs() {
    let nlp = x_squared_problem(ObjectiveSense::Min);
    let mut solver = Solver {
        nlp: &nlp,
        step_size_control: ArmijoGoldsteinRule::new(R(1.0), R(0.95), R(0.01)),
        optimizer: Bfgs::new(&nlp),
        bounds_handler: BarrierBoundsHandler {
            bounds: nlp.bounds.clone(),
            sense: ObjectiveSense::Min,
            barrier_parameter: R(1.0e-6),
            barrier_decrease_factor: R(0.5),
        },
        constraints_handler: AugmentedLagrangianConstraintHandler {
            mu: vec![],
            lambda: vec![],
            c: R(1.0),
        },
        logger: StdoutLogger::new(1),
    };

    let solution = solver.solve();

    println!("solution: {}", solution.describe());
    assert!((solution.best_solution[0].0 - nlp.bounds[0].lb.0).abs() < 1.0E-6);
}

fn sum_of_squares(xs: &Vec<R>) -> R {
    R(xs[0].0.powi(2) + xs[1].0.powi(2))
}

fn grad_sum_of_squares(xs: &Vec<R>) -> Vec<R> {
    rv(&[2.0 * xs[0].0, 2.0 * xs[1].0])
}

fn negated_sum_of_squares(xs: &Vec<R>) -> R {
    R(-(xs[0].0.powi(2) + xs[1].0.powi(2)))
}

fn grad_negated_sum_of_squares(xs: &Vec<R>) -> Vec<R> {
    rv(&[-2.0 * xs[0].0, -2.0 * xs[1].0])
}

#[test]
fn upper_bounds_problem() {
    let nlp = Prob {
        info: NlpInfo {
            num_variables: 2,
            num_inequality_constraints: 0,
            num_equality_constraints: 0,
            sense: ObjectiveSense::Min,
        },
        bounds: vec![VariableBounds { lb: R(0.0), ub: R(3.123) }; 2],
        objective: negated_sum_of_squares,
        grad_objective: grad_negated_sum_of_squares,
        equality: no_residuals,
        grad_equality: no_rows,
        inequality: no_residuals,
        grad_inequality: no_rows,
        initial: rv(&[1.0, 1.0]),
    };

    let mut solver = Solver::new(
        &nlp,
        Options {
            step_size_control: OptionsStepSizeControl { alpha_0: R(5.0), tau: R(0.95), c: R(0.1) },
            bounds_handler: OptionsBoundsHandler {
                barrier_parameter: R(1.0),
                ..Default::default()
            },
            ..Default::default()
        },
    );

    let solution = solver.solve();
    println!("solution: {}", solution.describe());

    for best_x in solution.best_solution {
        assert!((best_x.0 - 3.123).abs() < 1.0E-3);
    }
}

fn half_short_inequality(xs: &Vec<R>) -> Vec<R> {
    vec![R(-xs[0].0 - xs[1].0 + 0.5)]
}

fn grad_half_short_inequality(_: &Vec<R>) -> Vec<Vec<R>> {
    vec![rv(&[-1.0, -1.0])]
}

#[test]
fn inequality_constrained_min_problem() {
    let nlp = Prob {
        info: NlpInfo {
            num_variables: 2,
            num_inequality_constraints: 1,
            num_equality_constraints: 0,
            sense: ObjectiveSense::Min,
        },
        bounds: vec![VariableBounds { lb: R(0.0), ub: R(f64::INFINITY) }; 2],
        objective: sum_of_squares,
        grad_objective: grad_sum_of_squares,
        equality: no_residuals,
        grad_equality: no_rows,
        inequality: half_short_inequality,
        grad_inequality: grad_half_short_inequality,
        initial: rv(&[1.0, 1.0]),
    };

    let mut solver = Solver::new(&nlp, Default::default());

    let solution = solver.solve();
    println!("solution: {}", solution.describe());

    assert!(
        nlp.inequality_constraints(&solution.best_solution)[0].0 <= 0.0,
        "sum of variable values: {}",
        solution.best_solution.iter().map(|x| x.0).sum::<f64>()
    );
}

fn half_sum_equality(xs: &Vec<R>) -> Vec<R> {
    vec![R(xs[0].0 + xs[1].0 - 0.5)]
}

fn grad_half_sum_equality(_: &Vec<R>) -> Vec<Vec<R>> {
    vec![rv(&[1.0, 1.0])]
}

#[test]
fn equality_constrained_min_problem() {
    let nlp = Prob {
        info: NlpInfo {
            num_variables: 2,
            num_inequality_constraints: 0,
            num_equality_constraints: 1,
            sense: ObjectiveSense::Min,
        },
        bounds: vec![VariableBounds { lb: R(0.0), ub: R(f64::INFINITY) }; 2],
        objective: sum_of_squares,
        grad_objective: grad_sum_of_squares,
        equality: half_sum_equality,
        grad_equality: grad_half_sum_equality,
        inequality: no_residuals,
        grad_inequality: no_rows,
        initial: rv(&[1.0, 1.0]),
    };

    let mut solver = Solver::new(
        &nlp,
        Options {
            step_size_control: OptionsStepSizeControl { alpha_0: R(100.0), ..Default::default() },
            ..Default::default()
        },
    );

    let solution = solver.solve();
    println!("solution: {}", solution.describe());

    assert!(
        nlp.equality_constraints(&solution.best_solution)[0].0.abs() <= 1.0E-3,
        "sum of variable values: {}",
        solution.best_solution.iter().map(|x| x.0).sum::<f64>()
    );
}

#[test]
fn default_options_values() {
    let options: Options<R> = Default::default();

    assert_eq!(options.step_size_control.alpha_0, R(1.0));
    assert_eq!(options.step_size_control.tau, R(0.5));
    assert_eq!(options.step_size_control.c, R(0.2));
    assert_eq!(options.bounds_handler.barrier_parameter, R(1.0e-6));
    assert_eq!(options.bounds_handler.barrier_decrease_factor, R(0.5));
    assert_eq!(options.constraints_handler.c, R(1.0e9));
    assert_eq!(options.logger.frequency, 1);
}

#[test]
fn armijo_rule_clamps_parameters() {
    let rule = ArmijoGoldsteinRule::new(R(0.0), R(5.0), R(-3.0));

    assert_eq!(rule.alpha_0, R(1.0e-4));
    assert_eq!(rule.tau, R(1.0 - 1.0e-4));
    assert_eq!(rule.c, R(1.0e-4));
}

fn elongated_bowl(xs: &Vec<R>) -> R {
    R(xs[0].0.powi(2) + 25.0 * xs[1].0.powi(2))
}

fn grad_elongated_bowl(xs: &Vec<R>) -> Vec<R> {
    rv(&[2.0 * xs[0].0, 50.0 * xs[1].0])
}

/// On a purely quadratic unconstrained bowl, the quasi-Newton strategy must
/// reach the same minimizer as steepest descent in materially fewer
/// iterations.
#[test]
fn bfgs_outpaces_steepest_descent_on_quadratic() {
    let nlp = Prob {
        info: NlpInfo {
            num_variables: 2,
            num_inequality_constraints: 0,
            num_equality_constraints: 0,
            sense: ObjectiveSense::Min,
        },
        bounds: vec![
            VariableBounds { lb: R(f64::NEG_INFINITY), ub: R(f64::INFINITY) };
            2
        ],
        objective: elongated_bowl,
        grad_objective: grad_elongated_bowl,
        equality: no_residuals,
        grad_equality: no_rows,
        inequality: no_residuals,
        grad_inequality: no_rows,
        initial: rv(&[5.0, 1.0]),
    };

    let mut sd_solver = Solver {
        nlp: &nlp,
        step_size_control: ArmijoGoldsteinRule::new(R(1.0), R(0.5), R(0.2)),
        optimizer: SteepestDescent {},
        bounds_handler: BarrierBoundsHandler {
            bounds: nlp.bounds.clone(),
            sense: ObjectiveSense::Min,
            barrier_parameter: R(1.0e-6),
            barrier_decrease_factor: R(0.5),
        },
        constraints_handler: AugmentedLagrangianConstraintHandler {
            mu: vec![],
            lambda: vec![],
            c: R(1.0e9),
        },
        logger: StdoutLogger::new(1000),
    };
    let sd_solution = sd_solver.solve();

    let mut bfgs_solver = Solver::new(&nlp, Default::default());
    let bfgs_solution = bfgs_solver.solve();

    println!(
        "steepest descent: {} iterations, quasi-Newton: {} iterations",
        sd_solution.num_iterations, bfgs_solution.num_iterations
    );
    for i in 0..2 {
        assert!((sd_solution.best_solution[i].0 - bfgs_solution.best_solution[i].0).abs() < 1.0E-3);
    }
    assert!(2 * bfgs_solution.num_iterations <= sd_solution.num_iterations);
}

/// A diagonal convex quadratic, used to drive the line search directly.
struct QuadObj {
    coeffs: Vec<f64>,
}

impl QuadObj {
    fn eval(&self, xs: &Vec<R>) -> f64 {
        let mut sum: f64 = 0.0;
        for (a, x) in self.coeffs.iter().zip(xs.iter()) {
            sum += a * x.0 * x.0;
        }
        sum
    }
}

impl ObjectiveFn<R> for QuadObj {
    fn in_domain(&self, _: vstd::prelude::Seq<R>) -> bool {
        unreachable!()
    }
    fn value_spec(&self, _: vstd::prelude::Seq<R>) -> R {
        unreachable!()
    }
    fn value(&self, x: &Vec<R>) -> R {
        R(self.eval(x))
    }
}

fn next_unit(state: &mut u64) -> f64 {
    *state = state
        .wrapping_mul(6364136223846793005)
        .wrapping_add(1442695040888963407);
    (*state >> 11) as f64 / (1u64 << 53) as f64
}

fn next_in(state: &mut u64, lo: f64, hi: f64) -> f64 {
    lo + next_unit(state) * (hi - lo)
}

/// For finite points, gradients and non-ascending directions on randomized
/// convex quadratics, the line search terminates with a positive step and a
/// weakly better value.
#[test]
fn line_search_improves_on_random_quadratics() {
    let rule = ArmijoGoldsteinRule::new(R(1.0), R(0.5), R(0.2));
    let mut state: u64 = 0x9E3779B97F4A7C15;

    for _ in 0..25 {
        let dim = 1 + (next_unit(&mut state) * 4.0) as usize;
        let mut coeffs = Vec::new();
        let mut x = Vec::new();
        for _ in 0..dim {
            coeffs.push(next_in(&mut state, 0.1, 10.0));
            x.push(R(next_in(&mut state, -5.0, 5.0)));
        }
        let quad = QuadObj { coeffs };

        let grad: Vec<R> = quad
            .coeffs
            .iter()
            .zip(x.iter())
            .map(|(a, xi)| R(2.0 * a * xi.0))
            .collect();
        let direction: Vec<R> = grad.iter().map(|g| R(-g.0)).collect();

        let before = quad.eval(&x);
        let mut point = x.clone();
        let step = rule.do_step(&quad, &mut point, &grad, &direction, &ObjectiveSense::Min);

        assert!(step.direction_scale_factor.0 > 0.0);
        assert_eq!(step.obj_value, R(before));
        assert!(quad.eval(&point) <= before);
    }
}

/// Scaling by `s` and then by its reciprocal reproduces the vector within
/// floating tolerance, and vector addition commutes.
#[test]
fn scaled_round_trip_recovers_vector() {
    let mut state: u64 = 0x243F6A8885A308D3;
    for _ in 0..20 {
        let dim = 1 + (next_unit(&mut state) * 5.0) as usize;
        let mut v = Vec::new();
        for _ in 0..dim {
            v.push(R(next_in(&mut state, -100.0, 100.0)));
        }
        let mut s = next_in(&mut state, -10.0, 10.0);
        if s == 0.0 {
            s = 1.0;
        }

        let forth = scaled(&v, R(s));
        let back = scaled(&forth, R(1.0 / s));
        for (orig, recovered) in v.iter().zip(back.iter()) {
            assert!((orig.0 - recovered.0).abs() <= 1.0e-9 * orig.0.abs().max(1.0));
        }
    }
}

#[test]
fn add_commutes_componentwise() {
    let a = rv(&[1.5, -2.25, 1.0e100, 0.125]);
    let b = rv(&[-7.75, 3.5, -1.0e100, 2.0]);

    assert_eq!(add(&a, &b), add(&b, &a));
}

/// The saturating integer arithmetic the library itself verifies: exact
/// small sums and clamped overflow.
#[test]
fn integer_scalar_arithmetic() {
    assert_eq!(norm2_sqr(&vec![3i64, 4i64]), 25i64);
    assert_eq!(Scalar::add(i64::MAX, 1i64), i64::MAX);
    assert_eq!(Scalar::sub(i64::MIN, 1i64), i64::MIN);
    assert_eq!(Scalar::mul(1i64 << 40, 1i64 << 40), i64::MAX);
    assert_eq!(Scalar::div(7i64, -2i64), -3i64);
    assert_eq!(Scalar::div(5i64, 0i64), 0i64);
    assert_eq!(<i64 as Scalar>::from_bits(u64::MAX), i64::MAX);
    assert_eq!(Scalar::describe(-1234i64), "-1234");
}

#[test]
fn solution_rendering() {
    let solution = Solution {
        best_objective_value: R(1.5),
        best_solution: rv(&[1.0, 2.5]),
        num_iterations: 7,
    };

    assert_eq!(
        solution.describe(),
        "best objective value: 1.5\nbest solution: [1, 2.5]\nin 7 iterations"
    );
}

#[test]
fn barrier_value_formula() {
    let handler = BarrierBoundsHandler {
        bounds: vec![VariableBounds { lb: R(0.0), ub: R(f64::INFINITY) }],
        sense: ObjectiveSense::Min,
        barrier_parameter: R(0.5),
        barrier_decrease_factor: R(0.5),
    };

    let adapted = handler.adapted_objective_value(&rv(&[2.0]), R(3.0));

    let barrier_term = 0.0 + 0.5 * (2.0f64 - 0.0).ln();
    assert_eq!(adapted, R(3.0 + barrier_term * -1.0));
}

#[test]
fn barrier_value_with_active_upper_bound() {
    let handler = BarrierBoundsHandler {
        bounds: vec![VariableBounds { lb: R(0.0), ub: R(4.0) }],
        sense: ObjectiveSense::Min,
        barrier_parameter: R(0.5),
        barrier_decrease_factor: R(0.5),
    };

    let adapted = handler.adapted_objective_value(&rv(&[2.0]), R(3.0));

    let barrier_term = (0.0 + 0.5 * (2.0f64 - 0.0).ln()) + 0.5 * (4.0f64 - 2.0).ln();
    assert_eq!(adapted, R(3.0 + barrier_term * -1.0));
}

#[test]
fn barrier_gradient_formula() {
    let handler = BarrierBoundsHandler {
        bounds: vec![VariableBounds { lb: R(0.0), ub: R(3.0) }],
        sense: ObjectiveSense::Min,
        barrier_parameter: R(0.5),
        barrier_decrease_factor: R(0.5),
    };

    let adapted = handler.adapted_objective_gradient(&rv(&[2.0]), &rv(&[1.0]));

    let term = 0.0 + 0.5 * (1.0 / (2.0f64 - 0.0)) - 0.5 * (1.0 / (3.0f64 - 2.0));
    assert_eq!(adapted, vec![R(1.0 + term * -1.0)]);
}

#[test]
fn barrier_parameter_anneals_geometrically() {
    let mut handler = BarrierBoundsHandler {
        bounds: Vec::<VariableBounds<R>>::new(),
        sense: ObjectiveSense::Min,
        barrier_parameter: R(1.0),
        barrier_decrease_factor: R(0.5),
    };

    handler.update_barrier_parameter();
    handler.update_barrier_parameter();

    assert_eq!(handler.barrier_parameter, R(0.25));
}

#[test]
fn augmented_lagrangian_value_formula() {
    let handler = AugmentedLagrangianConstraintHandler {
        mu: rv(&[1.0]),
        lambda: rv(&[2.0]),
        c: R(10.0),
    };

    let adapted = handler.adapted_objective_value(R(1.0), &rv(&[0.2]), &rv(&[0.3]));

    let eq_terms = (0.0 + 2.0 * 0.3) + (0.5 * 10.0) * (0.0 + 0.3f64 * 0.3);
    let projected = 0.0f64.max(1.0 + 10.0 * 0.2);
    let penalization = 0.0 + 0.5 / 10.0 * (projected * projected - 1.0 * 1.0);
    assert_eq!(adapted, R((1.0 + eq_terms) + penalization));
}

#[test]
fn augmented_lagrangian_gradient_formula() {
    let handler = AugmentedLagrangianConstraintHandler {
        mu: rv(&[1.0]),
        lambda: rv(&[2.0]),
        c: R(10.0),
    };

    let adapted = handler.adapted_objective_grad(
        &rv(&[1.0, 2.0]),
        &rv(&[0.2]),
        &vec![rv(&[1.0, -1.0])],
        &rv(&[0.3]),
        &vec![rv(&[0.5, 0.5])],
    );

    let ineq_factor = 0.0f64.max(1.0 + 10.0 * 0.2);
    let eq_factor = 2.0 + 10.0 * 0.3;
    let expected = vec![
        R(1.0 + (0.0 + ineq_factor * 1.0) + (0.0 + eq_factor * 0.5)),
        R(2.0 + (0.0 + ineq_factor * -1.0) + (0.0 + eq_factor * 0.5)),
    ];
    assert_eq!(adapted, expected);
}

#[test]
fn multiplier_update_formulas() {
    let mut handler = AugmentedLagrangianConstraintHandler {
        mu: rv(&[1.0, 0.0]),
        lambda: rv(&[0.5]),
        c: R(10.0),
    };

    handler.update_multipliers(&rv(&[-0.2, 0.1]), &rv(&[0.2]));

    assert_eq!(handler.mu, rv(&[0.0, 1.0]));
    assert_eq!(handler.lambda, rv(&[0.5 + 10.0 * 0.2]));
    assert_eq!(handler.c, R(10.0));
}

#[test]
fn steepest_descent_direction_is_negated_gradient() {
    let nlp = x_squared_problem(ObjectiveSense::Min);
    let mut optimizer = SteepestDescent {};
    let mut context = OptContext {
        iteration: 1,
        x_current: rv(&[2.0]),
        x_previous: rv(&[2.0]),
        objective_current: R(0.0),
        objective_previous: R(f64::INFINITY),
        objective_grad: rv(&[4.0]),
        direction_scale_factor: R(1.0),
    };

    let d = runolinop::Optimizer::<R, Prob>::iterate(&mut optimizer, &nlp, &mut context);

    assert_eq!(d, rv(&[4.0 * -1.0]));
}
