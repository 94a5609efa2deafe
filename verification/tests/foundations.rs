use rsrl::algorithms::{td_error, Algorithm, Controller, LearnerError, OnlineLearner, ValuePredictor};
use rsrl::control::dac::dac;
use rsrl::domains::{Observation, Transition};
use rsrl::fa::{
    action_value, evaluate_index, state_value, ApproximationError, Approximator, Differentiable,
    Embedding, Entries, Parameterised, QFunction, VFunction,
};
use rsrl::parameter::{floored, Parameter, Schedule};
use rsrl::policies::dirac::Dirac;
use rsrl::policies::greedy::{
    greedy_action, greedy_distribution, greedy_of, greedy_probabilities, greedy_value, Greedy,
};
use rsrl::policies::random::Random;
use rsrl::policies::{DifferentiablePolicy, FinitePolicy, ParameterisedPolicy, Policy};
use rsrl::scalar::{larger, Scalar};
use rsrl::trace::Trace;
use rsrl::utils::{argmax_choose, argmaxima, pick_maximum};
use rsrl::vector::{
    copied, difference, dot, expanded, mat_cleared, mat_scale, mat_sum, mat_zeros, scale,
    shapes_agree, sum, zeros, IdealMatrix, IdealSize, IdealVector,
};

#[derive(Clone, Copy, Debug, PartialEq)]
struct F(f64);

impl Scalar for F {
    fn spec_zero() -> Self {
        unreachable!()
    }

    fn spec_one() -> Self {
        unreachable!()
    }

    fn spec_from_decimal(_: i64, _: u32) -> Self {
        unreachable!()
    }

    fn spec_from_count(_: usize) -> Self {
        unreachable!()
    }

    fn spec_lowest() -> Self {
        unreachable!()
    }

    fn spec_plus(self, _: Self) -> Self {
        unreachable!()
    }

    fn spec_minus(self, _: Self) -> Self {
        unreachable!()
    }

    fn spec_times(self, _: Self) -> Self {
        unreachable!()
    }

    fn spec_over(self, _: Self) -> Self {
        unreachable!()
    }

    fn spec_negated(self) -> Self {
        unreachable!()
    }

    fn spec_magnitude(self) -> Self {
        unreachable!()
    }

    fn spec_exp(self) -> Self {
        unreachable!()
    }

    fn spec_less(self, _: Self) -> bool {
        unreachable!()
    }

    fn spec_same(self, _: Self) -> bool {
        unreachable!()
    }

    fn zero() -> Self {
        F(0.0)
    }

    fn one() -> Self {
        F(1.0)
    }

    fn from_decimal(mantissa: i64, places: u32) -> Self {
        F(format!("{}e-{}", mantissa, places).parse().unwrap())
    }

    fn from_count(n: usize) -> Self {
        F(n as f64)
    }

    fn lowest() -> Self {
        F(f64::MIN)
    }

    fn plus(self, rhs: Self) -> Self {
        F(self.0 + rhs.0)
    }

    fn minus(self, rhs: Self) -> Self {
        F(self.0 - rhs.0)
    }

    fn times(self, rhs: Self) -> Self {
        F(self.0 * rhs.0)
    }

    fn over(self, rhs: Self) -> Self {
        F(self.0 / rhs.0)
    }

    fn negated(self) -> Self {
        F(-self.0)
    }

    fn magnitude(self) -> Self {
        F(self.0.abs())
    }

    fn exp(self) -> Self {
        F(self.0.exp())
    }

    fn less(self, rhs: Self) -> bool {
        self.0 < rhs.0
    }

    fn same(self, rhs: Self) -> bool {
        self.0 == rhs.0
    }
}

fn close(a: f64, b: f64) -> bool {
    (a - b).abs() < 1e-12
}

fn fs(values: &[f64]) -> Vec<F> {
    values.iter().map(|v| F(*v)).collect()
}

fn raw(values: &[F]) -> Vec<f64> {
    values.iter().map(|v| v.0).collect()
}

/// One weight per (feature, action). A state is the index of its only
/// active feature.
struct Table {
    n_states: usize,
    weights: Vec<Vec<f64>>,
    fail_evaluate: bool,
    fail_update: bool,
}

impl Table {
    fn new(n_states: usize, n_actions: usize) -> Self {
        Table {
            n_states,
            weights: vec![vec![0.0; n_actions]; n_states],
            fail_evaluate: false,
            fail_update: false,
        }
    }
}

impl Embedding<usize, F> for Table {
    fn spec_n_features(&self) -> IdealSize {
        unreachable!()
    }

    fn spec_embed(&self, _: usize) -> IdealVector<F> {
        unreachable!()
    }

    fn n_features(&self) -> usize {
        self.n_states
    }

    fn embed(&self, input: &usize) -> Vec<F> {
        (0..self.n_states).map(|i| if i == *input { F(1.0) } else { F(0.0) }).collect()
    }
}

impl QFunction<usize, F> for Table {
    fn spec_n_actions(&self) -> IdealSize {
        unreachable!()
    }

    fn spec_evaluate(&self, _: IdealVector<F>) -> Result<IdealVector<F>, ApproximationError> {
        unreachable!()
    }

    fn spec_update_index(self, _: IdealVector<F>, _: usize, _: F) -> Self {
        unreachable!()
    }

    fn spec_update_index_result(
        &self,
        _: IdealVector<F>,
        _: usize,
        _: F,
    ) -> Result<(), ApproximationError> {
        unreachable!()
    }

    fn n_actions(&self) -> usize {
        self.weights[0].len()
    }

    fn evaluate(&self, phi: &Vec<F>) -> Result<Vec<F>, ApproximationError> {
        if self.fail_evaluate {
            return Err(ApproximationError::Failed);
        }
        if phi.len() != self.n_states {
            return Err(ApproximationError::DimensionMismatch);
        }
        let n_actions = self.weights[0].len();
        Ok((0..n_actions)
            .map(|a| F((0..self.n_states).map(|i| phi[i].0 * self.weights[i][a]).sum()))
            .collect())
    }

    fn update_index(
        &mut self,
        phi: &Vec<F>,
        action: usize,
        error: F,
    ) -> Result<(), ApproximationError> {
        if self.fail_update {
            return Err(ApproximationError::Failed);
        }
        if phi.len() != self.n_states || action >= self.weights[0].len() {
            return Err(ApproximationError::DimensionMismatch);
        }
        for i in 0..self.n_states {
            self.weights[i][action] += phi[i].0 * error.0;
        }
        Ok(())
    }
}

/// A linear state-value function with one weight per feature. A state is
/// the index of its only active feature.
struct Linear {
    weights: Vec<f64>,
    fail_evaluate: bool,
    fail_update: bool,
}

impl Linear {
    fn new(weights: &[f64]) -> Self {
        Linear { weights: weights.to_vec(), fail_evaluate: false, fail_update: false }
    }
}

impl Embedding<usize, F> for Linear {
    fn spec_n_features(&self) -> IdealSize {
        unreachable!()
    }

    fn spec_embed(&self, _: usize) -> IdealVector<F> {
        unreachable!()
    }

    fn n_features(&self) -> usize {
        self.weights.len()
    }

    fn embed(&self, input: &usize) -> Vec<F> {
        (0..self.weights.len()).map(|i| if i == *input { F(1.0) } else { F(0.0) }).collect()
    }
}

impl VFunction<usize, F> for Linear {
    fn spec_evaluate(&self, _: IdealVector<F>) -> Result<F, ApproximationError> {
        unreachable!()
    }

    fn spec_update(self, _: IdealVector<F>, _: F) -> Self {
        unreachable!()
    }

    fn spec_update_result(&self, _: IdealVector<F>, _: F) -> Result<(), ApproximationError> {
        unreachable!()
    }

    fn evaluate(&self, phi: &Vec<F>) -> Result<F, ApproximationError> {
        if self.fail_evaluate {
            return Err(ApproximationError::Failed);
        }
        if phi.len() != self.weights.len() {
            return Err(ApproximationError::DimensionMismatch);
        }
        Ok(F((0..phi.len()).map(|i| phi[i].0 * self.weights[i]).sum()))
    }

    fn update(&mut self, phi: &Vec<F>, error: F) -> Result<(), ApproximationError> {
        if self.fail_update {
            return Err(ApproximationError::Failed);
        }
        if phi.len() != self.weights.len() {
            return Err(ApproximationError::DimensionMismatch);
        }
        for i in 0..phi.len() {
            self.weights[i] += phi[i].0 * error.0;
        }
        Ok(())
    }
}

impl Parameterised<F> for Linear {
    fn spec_weights(&self) -> IdealMatrix<F> {
        unreachable!()
    }

    fn spec_weights_dim(&self) -> (IdealSize, IdealSize) {
        unreachable!()
    }

    fn spec_with_weights(self, _: IdealMatrix<F>) -> Self {
        unreachable!()
    }

    fn weights(&self) -> Vec<Vec<F>> {
        self.weights.iter().map(|w| vec![F(*w)]).collect()
    }

    fn weights_dim(&self) -> (usize, usize) {
        (self.weights.len(), 1)
    }

    fn set_weights(&mut self, w: Vec<Vec<F>>) {
        self.weights = w.iter().map(|row| row[0].0).collect();
    }
}

impl Differentiable<usize, F> for Linear {
    fn spec_jacobian(&self, _: IdealVector<F>) -> IdealMatrix<F> {
        unreachable!()
    }

    fn jacobian(&self, phi: &Vec<F>) -> Vec<Vec<F>> {
        phi.iter().map(|x| vec![*x]).collect()
    }
}

fn matrix(rows: &[&[f64]]) -> Vec<Vec<F>> {
    rows.iter().map(|r| fs(r)).collect()
}

fn raw_matrix(m: &Vec<Vec<F>>) -> Vec<Vec<f64>> {
    m.iter().map(|row| raw(row)).collect()
}

#[test]
fn observation_kinds_and_state() {
    let full = Observation::Full(3);
    let partial = Observation::Partial(4);
    let terminal = Observation::Terminal(5);

    assert_eq!((*full.state(), *partial.state(), *terminal.state()), (3, 4, 5));
    assert_eq!((full.is_full(), full.is_partial(), full.is_terminal()), (true, false, false));
    assert_eq!((partial.is_full(), partial.is_partial(), partial.is_terminal()), (false, true, false));
    assert_eq!(
        (terminal.is_full(), terminal.is_partial(), terminal.is_terminal()),
        (false, false, true)
    );
}

#[test]
fn transition_is_terminated_exactly_when_it_ends_in_a_terminal_state() {
    let t = Transition { from: Observation::Terminal(0), action: 1u8, reward: F(2.0), to: Observation::Full(1) };
    assert!(!t.terminated());
    let t = Transition { from: Observation::Full(0), action: 1u8, reward: F(2.0), to: Observation::Partial(1) };
    assert!(!t.terminated());
    let t = Transition { from: Observation::Full(0), action: 1u8, reward: F(2.0), to: Observation::Terminal(1) };
    assert!(t.terminated());
}

#[test]
fn transition_replacements_keep_everything_else() {
    let t = Transition { from: Observation::Full(7), action: 1u8, reward: F(2.0), to: Observation::Terminal(8) };

    assert_eq!(t.states(), (&7, &8));
    assert_eq!(t.map_states(|s: &i32| *s * 2), (14, 16));

    let replaced = t.replace_action("left");
    assert_eq!(replaced.action, "left");
    assert_eq!((*replaced.from.state(), replaced.reward, replaced.terminated()), (7, F(2.0), true));

    let dropped = t.drop_action();
    assert_eq!(dropped.action, ());
    assert_eq!((*dropped.to.state(), dropped.reward), (8, F(2.0)));

    let rewarded = t.replace_reward(F(-1.5));
    assert_eq!((rewarded.reward, rewarded.action, rewarded.terminated()), (F(-1.5), 1u8, true));

    let negated = t.negate_reward();
    assert_eq!((negated.reward, negated.action, *negated.from.state()), (F(-2.0), 1u8, 7));
    assert_eq!(t.reward, F(2.0));
}

#[test]
fn parameter_fixed_never_moves() {
    let p = Parameter::fixed(F(0.3));
    assert_eq!(p.value(), F(0.3));
    assert_eq!(p.step().step().value(), F(0.3));

    let converted: Parameter<F> = F(0.7).into();
    assert_eq!(converted.value(), F(0.7));
    assert!(matches!(converted.schedule, Schedule::Constant));
    assert_eq!(converted.step().value(), F(0.7));
}

#[test]
fn parameter_exponential_decays_to_its_floor() {
    let p = Parameter::exponential(F(1.0), F(0.2), F(0.5));
    let p = p.step();
    assert_eq!(p.value(), F(0.5));
    let p = p.step();
    assert_eq!(p.value(), F(0.25));
    let p = p.step();
    assert_eq!(p.value(), F(0.2));
    assert_eq!(p.step().value(), F(0.2));
}

#[test]
fn parameter_linear_falls_to_its_floor() {
    let p = Parameter::linear(F(1.0), F(0.25), F(0.5));
    let p = p.step();
    assert_eq!(p.value(), F(0.5));
    let p = p.step();
    assert_eq!(p.value(), F(0.25));
    assert_eq!(p.step().value(), F(0.25));
}

#[test]
fn parameter_acts_as_its_value_in_arithmetic() {
    let p = Parameter::exponential(F(0.5), F(0.0), F(0.5));
    assert_eq!(p.times(F(4.0)), F(2.0));
    assert_eq!(p.plus(F(4.0)), F(4.5));
    let frozen = p.to_fixed();
    assert_eq!(frozen.step().value(), F(0.5));
    assert!(matches!(frozen.schedule, Schedule::Constant));
    assert_eq!(floored(F(1.0), F(2.0)), F(2.0));
    assert_eq!(floored(F(3.0), F(2.0)), F(3.0));
    assert_eq!(larger(F(1.0), F(2.0)), F(2.0));
    assert_eq!(larger(F(2.0), F(1.0)), F(2.0));
    assert_eq!(larger(F(f64::NAN), F(2.0)), F(2.0));
    assert_eq!(larger(F(2.0), F(f64::NAN)), F(2.0));
    assert_eq!(larger(F(1.0), F(1.0)), F(1.0));
}

#[test]
fn td_error_has_no_bootstrap_on_terminal_steps() {
    assert_eq!(td_error(F(1.0), F(0.5), F(0.25), None), F(0.75));
    assert_eq!(td_error(F(1.0), F(0.5), F(0.25), Some(F(4.0))), F(2.75));
}

#[test]
fn vector_arithmetic() {
    let a = fs(&[1.0, 2.0, 3.0]);
    let b = fs(&[4.0, 5.0, 6.0]);
    assert_eq!(dot(&a, &b), F(32.0));
    assert_eq!(raw(&scale(F(2.0), &a)), vec![2.0, 4.0, 6.0]);
    assert_eq!(raw(&sum(&a, &b)), vec![5.0, 7.0, 9.0]);
    assert_eq!(raw(&difference(&a, &b)), vec![-3.0, -3.0, -3.0]);
    assert_eq!(raw(&zeros::<F>(2)), vec![0.0, 0.0]);
    assert_eq!(raw(&copied(&a)), vec![1.0, 2.0, 3.0]);
    assert_eq!(raw(&expanded(&a, 5)), vec![1.0, 2.0, 3.0, 0.0, 0.0]);
    assert_eq!(raw(&expanded(&a, 2)), vec![1.0, 2.0]);
    assert_eq!(dot(&fs(&[]), &fs(&[])), F(0.0));
}

#[test]
fn matrix_arithmetic() {
    let a = matrix(&[&[1.0, 2.0], &[3.0, 4.0]]);
    let b = matrix(&[&[0.5, 0.5], &[1.0, 1.0]]);
    assert_eq!(raw_matrix(&mat_scale(F(2.0), &a)), vec![vec![2.0, 4.0], vec![6.0, 8.0]]);
    assert_eq!(raw_matrix(&mat_sum(&a, &b)), vec![vec![1.5, 2.5], vec![4.0, 5.0]]);
    assert_eq!(raw_matrix(&mat_zeros::<F>(2, 3)), vec![vec![0.0; 3]; 2]);
    assert_eq!(raw_matrix(&mat_cleared(&a)), vec![vec![0.0; 2]; 2]);
    assert!(shapes_agree(&a, &b));
    assert!(!shapes_agree(&a, &matrix(&[&[1.0, 2.0]])));
    assert!(!shapes_agree(&a, &matrix(&[&[1.0, 2.0], &[3.0]])));
}

#[test]
fn trace_starts_cleared_and_accumulates() {
    let mut trace = Trace::new(Parameter::fixed(F(0.5)), 3);
    assert_eq!(trace.len(), 3);
    assert_eq!(raw(&trace.get()), vec![0.0, 0.0, 0.0]);

    trace.update(&fs(&[1.0, 0.0, 2.0]));
    assert_eq!(raw(&trace.get()), vec![1.0, 0.0, 2.0]);
    trace.decay(F(0.5));
    assert_eq!(raw(&trace.get()), vec![0.5, 0.0, 1.0]);
    trace.accumulate(F(0.5), &fs(&[1.0, 1.0, 1.0]));
    assert_eq!(raw(&trace.get()), vec![1.25, 1.0, 1.5]);
}

#[test]
fn trace_true_online_update_from_zero_gives_the_features() {
    let mut trace = Trace::new(Parameter::fixed(F(0.9)), 3);
    trace.update_true_online(F(0.1), F(0.81), &fs(&[0.5, -2.0, 1.0]));
    assert_eq!(raw(&trace.get()), vec![0.5, -2.0, 1.0]);
}

#[test]
fn trace_true_online_update_follows_the_law() {
    let mut trace = Trace::new(Parameter::fixed(F(0.9)), 2);
    trace.update(&fs(&[1.0, 0.0]));
    // z . phi = 1; factor = 1 - 0.5 * 0.5 * 1 = 0.75;
    // z' = 0.5 * [1, 0] + 0.75 * [1, 1].
    trace.update_true_online(F(0.5), F(0.5), &fs(&[1.0, 1.0]));
    assert_eq!(raw(&trace.get()), vec![1.25, 0.75]);
}

#[test]
fn trace_is_cleared_at_episode_boundaries() {
    let mut trace = Trace::new(Parameter::exponential(F(0.8), F(0.0), F(0.5)), 2);
    trace.update(&fs(&[1.0, 2.0]));
    trace.reset();
    assert_eq!(raw(&trace.get()), vec![0.0, 0.0]);
    assert_eq!(trace.lambda.value(), F(0.8));

    trace.update(&fs(&[1.0, 2.0]));
    trace.handle_terminal();
    assert_eq!(raw(&trace.get()), vec![0.0, 0.0]);
    assert_eq!(trace.lambda.value(), F(0.4));
}

#[test]
fn argmaxima_finds_every_maximum() {
    assert_eq!(argmaxima(&fs(&[1.0, 3.0, 3.0, 2.0])), (F(3.0), vec![1, 2]));
    assert_eq!(argmaxima(&fs(&[5.0, 3.0])), (F(5.0), vec![0]));
    assert_eq!(argmaxima(&fs(&[-1.0, -1.0 + 5e-8, -2.0])), (F(-1.0), vec![0, 1]));
    assert_eq!(argmaxima(&fs(&[-1.0, -1.0 + 2e-7])), (F(-1.0 + 2e-7), vec![1]));
    assert_eq!(argmaxima::<F>(&[]), (F(f64::MIN), vec![]));
    assert_eq!(argmaxima(&fs(&[f64::NAN])).1, Vec::<usize>::new());
}

#[test]
fn argmax_choose_picks_one_of_the_maxima() {
    let mut rng = rand::thread_rng();
    assert_eq!(argmax_choose(&mut rng, &fs(&[1.0, 4.0, 2.0])), Some((F(4.0), 1)));
    assert_eq!(argmax_choose::<F>(&mut rng, &[]), None);
    let mut seen = [false; 4];
    for _ in 0..200 {
        let (value, index) = argmax_choose(&mut rng, &fs(&[2.0, 7.0, 7.0, 7.0])).unwrap();
        assert_eq!(value, F(7.0));
        assert!(index >= 1 && index <= 3);
        seen[index] = true;
    }
    assert_eq!(seen, [false, true, true, true]);
}

#[test]
fn pick_maximum_pairs_the_value_with_the_index() {
    assert_eq!(pick_maximum(F(1.0), &vec![4], None), Some((F(1.0), 4)));
    assert_eq!(pick_maximum(F(1.0), &vec![4], Some(9)), Some((F(1.0), 4)));
    assert_eq!(pick_maximum(F(1.0), &vec![4, 5], Some(5)), Some((F(1.0), 5)));
    assert_eq!(pick_maximum(F(1.0), &vec![4, 5], None), None);
    assert_eq!(pick_maximum(F(1.0), &vec![], None), None);
}

#[test]
fn greedy_takes_the_first_maximum() {
    assert_eq!(greedy_of(&fs(&[1.0, 3.0, 3.0])), Ok(1));
    assert_eq!(greedy_of::<F>(&vec![]), Err(LearnerError::NoAction));
    assert_eq!(raw(&greedy_distribution(&fs(&[1.0, 3.0, 3.0, 0.0]))), vec![0.0, 0.5, 0.5, 0.0]);
    assert_eq!(raw(&greedy_distribution(&fs(&[4.0, 3.0]))), vec![1.0, 0.0]);

    let mut q = Table::new(2, 3);
    q.weights[1] = vec![0.0, 2.0, 2.0];
    assert_eq!(greedy_action(&q, &1), Ok(1));
    assert_eq!(greedy_value(&q, &1), Ok(F(2.0)));
    assert_eq!(raw(&greedy_probabilities(&q, &1).unwrap()), vec![0.0, 0.5, 0.5]);
    assert_eq!(action_value(&q, &1, 2), Ok(F(2.0)));
    assert_eq!(evaluate_index(&q, &q.embed(&1), 1), Ok(F(2.0)));
    assert_eq!(evaluate_index(&q, &q.embed(&1), 3), Err(ApproximationError::DimensionMismatch));
    q.fail_evaluate = true;
    assert_eq!(
        greedy_action(&q, &1),
        Err(LearnerError::Approximation(ApproximationError::Failed))
    );
}

#[test]
fn greedy_views_of_one_value_function_agree_and_follow_its_updates() {
    let mut q = Table::new(1, 3);
    q.weights[0] = vec![0.0, 2.0, 1.0];
    {
        let mut target = Greedy::new(&q);
        let mut other = Greedy::new(&q);
        assert_eq!(target.sample(&0), Ok(1));
        assert_eq!(other.mpa(&0), Ok(1));
        assert_eq!(target.probability(&0, 1), Ok(F(1.0)));
        assert_eq!(target.probability(&0, 2), Ok(F(0.0)));
        assert_eq!(
            target.probability(&0, 3),
            Err(LearnerError::Approximation(ApproximationError::DimensionMismatch))
        );
        assert_eq!(raw(&other.probabilities(&0).unwrap()), vec![0.0, 1.0, 0.0]);
        assert_eq!(FinitePolicy::<usize, F>::n_actions(&target), 3);
        target.handle_terminal();
    }

    assert_eq!(q.update_index(&q.embed(&0), 2, F(5.0)), Ok(()));

    let mut target = Greedy::new(&q);
    let mut other = Greedy::new(&q);
    assert_eq!(target.sample(&0), Ok(2));
    assert_eq!(other.sample(&0), Ok(2));
}

#[test]
fn test_sampling() {
    let mut p = Random::new(2);

    let qs = vec![1.0, 0.0];

    let mut n0: f64 = 0.0;
    let mut n1: f64 = 0.0;
    for _ in 0..10000 {
        match Policy::<Vec<f64>, F>::sample(&mut p, &qs) {
            Ok(0) => n0 += 1.0,
            _ => n1 += 1.0,
        }
    }

    assert!((0.50 - n0 / 10000.0).abs() < 0.05);
    assert!((0.50 - n1 / 10000.0).abs() < 0.05);
}

#[test]
fn test_probabilites() {
    let p = Random::new(4);

    let ps: Vec<F> = p.probabilities(&[1.0, 0.0, 0.0, 1.0]).unwrap();
    assert_eq!(ps.len(), 4);
    assert!(ps.iter().all(|x| (x.0 - 0.25).abs() < 1e-6));

    let p = Random::new(5);

    let ps: Vec<F> = p.probabilities(&[1.0, 0.0, 0.0, 0.0, 0.0]).unwrap();
    assert_eq!(ps.len(), 5);
    assert!(ps.iter().all(|x| (x.0 - 0.2).abs() < 1e-6));

    let ps: Vec<F> = p.probabilities(&[0.0, 0.0, 0.0, 0.0, 1.0]).unwrap();
    assert_eq!(ps.len(), 5);
    assert!(ps.iter().all(|x| (x.0 - 0.2).abs() < 1e-6));
}

#[test]
fn random_policy_stays_within_its_actions() {
    let mut p = Random::new(3);
    for _ in 0..500 {
        assert!(p.draw().unwrap() < 3);
    }
    assert_eq!(FinitePolicy::<u8, F>::n_actions(&p), 3);
    assert_eq!(Policy::<u8, F>::probability(&p, &0, 2), Ok(F(1.0 / 3.0)));
    assert!(Policy::<u8, F>::mpa(&mut p, &0).unwrap() < 3);
    p.handle_terminal();
    assert_eq!(p.n_actions, 3);
}

#[test]
fn random_policy_without_actions_has_nothing_to_draw() {
    let mut p = Random::new(0);
    assert_eq!(p.draw(), Err(LearnerError::NoAction));
    assert_eq!(Policy::<u8, F>::sample(&mut p, &0), Err(LearnerError::NoAction));
    assert_eq!(FinitePolicy::<u8, F>::probabilities(&p, &0), Ok(vec![]));
}

/// A linear function of constant features: every state has the features
/// `[1, ..., 1]`, so the value is the sum of the weights.
struct Constant {
    weights: Vec<f64>,
}

impl Constant {
    fn ones(n: usize) -> Self {
        Constant { weights: vec![0.0; n] }
    }
}

impl Embedding<f64, F> for Constant {
    fn spec_n_features(&self) -> IdealSize {
        unreachable!()
    }

    fn spec_embed(&self, _: f64) -> IdealVector<F> {
        unreachable!()
    }

    fn n_features(&self) -> usize {
        self.weights.len()
    }

    fn embed(&self, _: &f64) -> Vec<F> {
        vec![F(1.0); self.weights.len()]
    }
}

impl VFunction<f64, F> for Constant {
    fn spec_evaluate(&self, _: IdealVector<F>) -> Result<F, ApproximationError> {
        unreachable!()
    }

    fn spec_update(self, _: IdealVector<F>, _: F) -> Self {
        unreachable!()
    }

    fn spec_update_result(&self, _: IdealVector<F>, _: F) -> Result<(), ApproximationError> {
        unreachable!()
    }

    fn evaluate(&self, phi: &Vec<F>) -> Result<F, ApproximationError> {
        Ok(F(phi.iter().zip(self.weights.iter()).map(|(x, w)| x.0 * w).sum()))
    }

    fn update(&mut self, phi: &Vec<F>, error: F) -> Result<(), ApproximationError> {
        for (w, x) in self.weights.iter_mut().zip(phi.iter()) {
            *w += x.0 * error.0;
        }
        Ok(())
    }
}

impl Parameterised<F> for Constant {
    fn spec_weights(&self) -> IdealMatrix<F> {
        unreachable!()
    }

    fn spec_weights_dim(&self) -> (IdealSize, IdealSize) {
        unreachable!()
    }

    fn spec_with_weights(self, _: IdealMatrix<F>) -> Self {
        unreachable!()
    }

    fn weights(&self) -> Vec<Vec<F>> {
        self.weights.iter().map(|w| vec![F(*w)]).collect()
    }

    fn weights_dim(&self) -> (usize, usize) {
        (self.weights.len(), 1)
    }

    fn set_weights(&mut self, w: Vec<Vec<F>>) {
        self.weights = w.iter().map(|row| row[0].0).collect();
    }
}

/// A linear function of constant features with several outputs: one row of
/// weights per feature, one column per output.
struct ConstantOutputs {
    weights: Vec<Vec<f64>>,
}

impl ConstantOutputs {
    fn ones(n: usize, n_outputs: usize) -> Self {
        ConstantOutputs { weights: vec![vec![0.0; n_outputs]; n] }
    }

    fn outputs(&self, phi: &Vec<F>) -> Vec<F> {
        let n_outputs = self.weights[0].len();
        (0..n_outputs)
            .map(|j| F(phi.iter().zip(self.weights.iter()).map(|(x, row)| x.0 * row[j]).sum()))
            .collect()
    }

    fn moved(&mut self, phi: &Vec<F>, by: &[F]) {
        for (row, x) in self.weights.iter_mut().zip(phi.iter()) {
            for (w, b) in row.iter_mut().zip(by.iter()) {
                *w += x.0 * b.0;
            }
        }
    }
}

fn rows_of(weights: &Vec<Vec<f64>>) -> Vec<Vec<F>> {
    weights.iter().map(|row| fs(row)).collect()
}

/// The constant-feature function with a pair as output.
struct ConstantPair(ConstantOutputs);

impl ConstantPair {
    fn ones(n: usize) -> Self {
        ConstantPair(ConstantOutputs::ones(n, 2))
    }
}

impl Embedding<f64, F> for ConstantPair {
    fn spec_n_features(&self) -> IdealSize {
        unreachable!()
    }

    fn spec_embed(&self, _: f64) -> IdealVector<F> {
        unreachable!()
    }

    fn n_features(&self) -> usize {
        self.0.weights.len()
    }

    fn embed(&self, _: &f64) -> Vec<F> {
        vec![F(1.0); self.0.weights.len()]
    }
}

impl Approximator<f64, F> for ConstantPair {
    type Output = [F; 2];

    fn spec_output(&self, _: IdealVector<F>) -> Result<IdealVector<F>, ApproximationError> {
        unreachable!()
    }

    fn spec_adjusted(self, _: IdealVector<F>, _: IdealVector<F>) -> Self {
        unreachable!()
    }

    fn output(&self, phi: &Vec<F>) -> Result<[F; 2], ApproximationError> {
        let values = self.0.outputs(phi);
        Ok([values[0], values[1]])
    }

    fn adjust(&mut self, phi: &Vec<F>, by: [F; 2]) -> Result<(), ApproximationError> {
        self.0.moved(phi, &by);
        Ok(())
    }
}

impl Parameterised<F> for ConstantPair {
    fn spec_weights(&self) -> IdealMatrix<F> {
        unreachable!()
    }

    fn spec_weights_dim(&self) -> (IdealSize, IdealSize) {
        unreachable!()
    }

    fn spec_with_weights(self, _: IdealMatrix<F>) -> Self {
        unreachable!()
    }

    fn weights(&self) -> Vec<Vec<F>> {
        rows_of(&self.0.weights)
    }

    fn weights_dim(&self) -> (usize, usize) {
        (self.0.weights.len(), 2)
    }

    fn set_weights(&mut self, w: Vec<Vec<F>>) {
        self.0.weights = w.iter().map(|row| raw(row)).collect();
    }
}

/// The constant-feature function with a vector as output.
struct ConstantVector(ConstantOutputs);

impl ConstantVector {
    fn ones(n: usize, n_outputs: usize) -> Self {
        ConstantVector(ConstantOutputs::ones(n, n_outputs))
    }
}

impl Embedding<f64, F> for ConstantVector {
    fn spec_n_features(&self) -> IdealSize {
        unreachable!()
    }

    fn spec_embed(&self, _: f64) -> IdealVector<F> {
        unreachable!()
    }

    fn n_features(&self) -> usize {
        self.0.weights.len()
    }

    fn embed(&self, _: &f64) -> Vec<F> {
        vec![F(1.0); self.0.weights.len()]
    }
}

impl Approximator<f64, F> for ConstantVector {
    type Output = Vec<F>;

    fn spec_output(&self, _: IdealVector<F>) -> Result<IdealVector<F>, ApproximationError> {
        unreachable!()
    }

    fn spec_adjusted(self, _: IdealVector<F>, _: IdealVector<F>) -> Self {
        unreachable!()
    }

    fn output(&self, phi: &Vec<F>) -> Result<Vec<F>, ApproximationError> {
        Ok(self.0.outputs(phi))
    }

    fn adjust(&mut self, phi: &Vec<F>, by: Vec<F>) -> Result<(), ApproximationError> {
        if by.len() != self.0.weights[0].len() {
            return Err(ApproximationError::DimensionMismatch);
        }
        self.0.moved(phi, &by);
        Ok(())
    }
}

impl Parameterised<F> for ConstantVector {
    fn spec_weights(&self) -> IdealMatrix<F> {
        unreachable!()
    }

    fn spec_weights_dim(&self) -> (IdealSize, IdealSize) {
        unreachable!()
    }

    fn spec_with_weights(self, _: IdealMatrix<F>) -> Self {
        unreachable!()
    }

    fn weights(&self) -> Vec<Vec<F>> {
        rows_of(&self.0.weights)
    }

    fn weights_dim(&self) -> (usize, usize) {
        (self.0.weights.len(), self.0.weights[0].len())
    }

    fn set_weights(&mut self, w: Vec<Vec<F>>) {
        self.0.weights = w.iter().map(|row| raw(row)).collect();
    }
}

const STATE: f64 = 0.0;

#[test]
fn test_f64_pair() {
    let mut pi = Dirac::new(ConstantPair::ones(1));

    pi.update(&STATE, [F(1.0), F(-1.0)], F(0.1));

    assert_eq!(pi.sample(&STATE), Ok([F(0.1), F(-0.1)]));
    assert_eq!(pi.probability(&STATE, [F(0.0), F(0.0)]), Ok(F(0.0)));
    assert_eq!(pi.probability(&STATE, [F(0.1), F(-0.1)]), Ok(F(1.0)));
    assert_eq!(pi.probability(&STATE, [F(-0.1), F(0.1)]), Ok(F(0.0)));
}

#[test]
fn test_f64_vector() {
    let mut pi = Dirac::new(ConstantVector::ones(1, 2));

    pi.update(&STATE, fs(&[1.0, -1.0]), F(0.1));

    assert_eq!(pi.sample(&STATE), Ok(fs(&[0.1, -0.1])));
    assert_eq!(pi.probability(&STATE, fs(&[0.0, 0.0])), Ok(F(0.0)));
    assert_eq!(pi.probability(&STATE, fs(&[0.1, -0.1])), Ok(F(1.0)));
    assert_eq!(pi.probability(&STATE, fs(&[-0.1, 0.1])), Ok(F(0.0)));
}

#[test]
fn dirac_vector_actions_of_another_length_have_probability_zero() {
    let mut pi = Dirac::new(ConstantVector::ones(1, 2));
    assert_eq!(pi.probability(&STATE, fs(&[0.0])), Ok(F(0.0)));
    assert_eq!(pi.probability(&STATE, fs(&[0.0, 0.0])), Ok(F(1.0)));
    // An update of another length is rejected by the approximator and
    // skipped.
    pi.update(&STATE, fs(&[1.0]), F(0.5));
    assert_eq!(pi.mpa(&STATE), Ok(fs(&[0.0, 0.0])));
}

#[test]
fn entries_agree_and_scale_entry_by_entry() {
    assert!(F(1.0).agrees(&F(1.0)));
    assert!(!F(f64::NAN).agrees(&F(f64::NAN)));
    assert_eq!(F(2.0).scaled(F(0.5)), F(1.0));
    assert!([F(1.0), F(2.0)].agrees(&[F(1.0), F(2.0)]));
    assert!(![F(1.0), F(2.0)].agrees(&[F(1.0), F(3.0)]));
    assert!(![F(1.0), F(2.0)].agrees(&[F(0.0), F(2.0)]));
    assert_eq!([F(1.0), F(2.0)].scaled(F(2.0)), [F(2.0), F(4.0)]);
    assert!(fs(&[1.0, 2.0, 3.0]).agrees(&fs(&[1.0, 2.0, 3.0])));
    assert!(!fs(&[1.0, 2.0, 3.0]).agrees(&fs(&[1.0, 2.0])));
    assert!(!fs(&[1.0, 2.0, 3.0]).agrees(&fs(&[1.0, 2.0, 4.0])));
    assert_eq!(raw(&fs(&[1.0, -2.0]).scaled(F(0.5))), vec![0.5, -1.0]);
    assert!(Vec::<F>::new().agrees(&vec![]));
}

#[test]
fn test_f64() {
    let mut pi = Dirac::new(Constant::ones(1));

    pi.update(&STATE, F(1.0), F(0.1));

    assert_eq!(pi.sample(&STATE), Ok(F(0.1)));
    assert_eq!(pi.probability(&STATE, F(0.0)), Ok(F(0.0)));
    assert_eq!(pi.probability(&STATE, F(0.1)), Ok(F(1.0)));
    assert_eq!(pi.probability(&STATE, F(0.2)), Ok(F(0.0)));
}

#[test]
fn dirac_plays_the_value_of_its_approximator() {
    let mut pi = Dirac::new(Linear::new(&[0.5, -2.0]));
    assert_eq!(pi.sample(&1), Ok(F(-2.0)));
    assert_eq!(pi.mpa(&0), Ok(F(0.5)));
    assert_eq!(state_value(&pi.fa, &1), Ok(F(-2.0)));
    pi.handle_terminal();
    assert_eq!(pi.fa.weights, vec![0.5, -2.0]);

    pi.fa.fail_evaluate = true;
    let failed = Err(LearnerError::Approximation(ApproximationError::Failed));
    assert_eq!(pi.sample(&1), failed);
    assert_eq!(pi.probability(&1, F(0.0)), failed);
    assert!(pi.grad_log(&1, F(0.0)).is_err());
}

#[test]
fn dirac_gradient_and_raw_update() {
    let mut pi = Dirac::new(Linear::new(&[0.5, -2.0]));
    // jacobian = [[0], [1]] at state 1, scaled by a - value = 1 - (-2).
    assert_eq!(raw_matrix(&pi.grad_log(&1, F(1.0)).unwrap()), vec![vec![0.0], vec![3.0]]);
    assert_eq!(pi.weights_dim(), (2, 1));
    assert_eq!(raw_matrix(&pi.weights()), vec![vec![0.5], vec![-2.0]]);

    pi.update_raw(matrix(&[&[0.25], &[1.0]]));
    assert_eq!(pi.fa.weights, vec![0.75, -1.0]);

    // A delta of another shape is skipped.
    pi.update_raw(matrix(&[&[0.25]]));
    assert_eq!(pi.fa.weights, vec![0.75, -1.0]);

    pi.set_weights(matrix(&[&[9.0], &[8.0]]));
    assert_eq!(pi.fa.weights, vec![9.0, 8.0]);
}

#[test]
fn deterministic_actor_critic_moves_critic_and_actor_by_the_same_error() {
    let mut agent = dac(
        Linear::new(&[1.0, 4.0]),
        Linear::new(&[0.0, 0.0]),
        Parameter::fixed(F(0.5)),
        Parameter::fixed(F(0.25)),
        Parameter::fixed(F(0.5)),
    );
    let t = Transition {
        from: Observation::Full(0usize),
        action: F(1.0),
        reward: F(3.0),
        to: Observation::Full(1usize),
    };

    // error = 3 + 0.5 * 4 - 1 = 4.
    assert_eq!(agent.handle_transition(&t), Ok(()));
    assert_eq!(agent.critic.v_func.weights, vec![2.0, 4.0]);
    assert_eq!(agent.policy.fa.weights, vec![2.0, 0.0]);
    assert_eq!(agent.sample_target(&0), Ok(F(2.0)));
    assert_eq!(agent.predict_v(&0), Ok(F(2.0)));

    let last = Transition {
        from: Observation::Full(1usize),
        action: F(2.0),
        reward: F(3.0),
        to: Observation::Terminal(0usize),
    };
    // error = 3 - 4 = -1, without the value of the state reached; the
    // actor moves by action * alpha * error.
    assert_eq!(agent.handle_transition(&last), Ok(()));
    assert_eq!(agent.critic.v_func.weights, vec![2.0, 3.75]);
    assert_eq!(agent.policy.fa.weights, vec![2.0, -1.0]);
}

#[test]
fn dirac_update_scales_the_error_by_the_action() {
    let mut pi = Dirac::new(Linear::new(&[0.5, 0.0]));
    pi.update(&0, F(-2.0), F(0.25));
    assert_eq!(pi.fa.weights, vec![0.0, 0.0]);
}

#[test]
fn dirac_skips_a_rejected_update() {
    let mut pi = Dirac::new(Linear::new(&[0.5]));
    pi.fa.fail_update = true;
    pi.update(&0, F(1.0), F(0.1));
    assert_eq!(pi.fa.weights, vec![0.5]);
}
