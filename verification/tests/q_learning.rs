use rsrl::algorithms::{
    handle_sequence, ActionValuePredictor, Algorithm, Controller, LearnerError, OnlineLearner,
    ValuePredictor,
};
use rsrl::control::q_learning::QLearning;
use rsrl::domains::{Observation, Transition};
use rsrl::fa::{ApproximationError, Embedding, QFunction};
use rsrl::parameter::Parameter;
use rsrl::policies::{FinitePolicy, Policy};
use rsrl::scalar::Scalar;
use rsrl::vector::{IdealSize, IdealVector};

#[derive(Clone, Copy, Debug, PartialEq)]
struct F(f64);

impl Scalar for F {
    fn spec_zero() -> Self {
        unreachable!()
    }

    fn spec_one() -> Self {
        unreachable!()
    }

    fn spec_from_decimal(_: i64, _: u32) -> Self {
        unreachable!()
    }

    fn spec_from_count(_: usize) -> Self {
        unreachable!()
    }

    fn spec_lowest() -> Self {
        unreachable!()
    }

    fn spec_plus(self, _: Self) -> Self {
        unreachable!()
    }

    fn spec_minus(self, _: Self) -> Self {
        unreachable!()
    }

    fn spec_times(self, _: Self) -> Self {
        unreachable!()
    }

    fn spec_over(self, _: Self) -> Self {
        unreachable!()
    }

    fn spec_negated(self) -> Self {
        unreachable!()
    }

    fn spec_magnitude(self) -> Self {
        unreachable!()
    }

    fn spec_exp(self) -> Self {
        unreachable!()
    }

    fn spec_less(self, _: Self) -> bool {
        unreachable!()
    }

    fn spec_same(self, _: Self) -> bool {
        unreachable!()
    }

    fn zero() -> Self {
        F(0.0)
    }

    fn one() -> Self {
        F(1.0)
    }

    fn from_decimal(mantissa: i64, places: u32) -> Self {
        F(format!("{}e-{}", mantissa, places).parse().unwrap())
    }

    fn from_count(n: usize) -> Self {
        F(n as f64)
    }

    fn lowest() -> Self {
        F(f64::MIN)
    }

    fn plus(self, rhs: Self) -> Self {
        F(self.0 + rhs.0)
    }

    fn minus(self, rhs: Self) -> Self {
        F(self.0 - rhs.0)
    }

    fn times(self, rhs: Self) -> Self {
        F(self.0 * rhs.0)
    }

    fn over(self, rhs: Self) -> Self {
        F(self.0 / rhs.0)
    }

    fn negated(self) -> Self {
        F(-self.0)
    }

    fn magnitude(self) -> Self {
        F(self.0.abs())
    }

    fn exp(self) -> Self {
        F(self.0.exp())
    }

    fn less(self, rhs: Self) -> bool {
        self.0 < rhs.0
    }

    fn same(self, rhs: Self) -> bool {
        self.0 == rhs.0
    }
}

fn close(a: f64, b: f64) -> bool {
    (a - b).abs() < 1e-12
}

fn fs(values: &[f64]) -> Vec<F> {
    values.iter().map(|v| F(*v)).collect()
}

fn raw(values: &[F]) -> Vec<f64> {
    values.iter().map(|v| v.0).collect()
}

/// One weight per (feature, action). A state is the index of its only
/// active feature.
struct Table {
    n_states: usize,
    weights: Vec<Vec<f64>>,
    fail_evaluate: bool,
    fail_update: bool,
}

impl Table {
    fn new(n_states: usize, n_actions: usize) -> Self {
        Table {
            n_states,
            weights: vec![vec![0.0; n_actions]; n_states],
            fail_evaluate: false,
            fail_update: false,
        }
    }
}

impl Embedding<usize, F> for Table {
    fn spec_n_features(&self) -> IdealSize {
        unreachable!()
    }

    fn spec_embed(&self, _: usize) -> IdealVector<F> {
        unreachable!()
    }

    fn n_features(&self) -> usize {
        self.n_states
    }

    fn embed(&self, input: &usize) -> Vec<F> {
        (0..self.n_states).map(|i| if i == *input { F(1.0) } else { F(0.0) }).collect()
    }
}

impl QFunction<usize, F> for Table {
    fn spec_n_actions(&self) -> IdealSize {
        unreachable!()
    }

    fn spec_evaluate(&self, _: IdealVector<F>) -> Result<IdealVector<F>, ApproximationError> {
        unreachable!()
    }

    fn spec_update_index(self, _: IdealVector<F>, _: usize, _: F) -> Self {
        unreachable!()
    }

    fn spec_update_index_result(
        &self,
        _: IdealVector<F>,
        _: usize,
        _: F,
    ) -> Result<(), ApproximationError> {
        unreachable!()
    }

    fn n_actions(&self) -> usize {
        self.weights[0].len()
    }

    fn evaluate(&self, phi: &Vec<F>) -> Result<Vec<F>, ApproximationError> {
        if self.fail_evaluate {
            return Err(ApproximationError::Failed);
        }
        if phi.len() != self.n_states {
            return Err(ApproximationError::DimensionMismatch);
        }
        let n_actions = self.weights[0].len();
        Ok((0..n_actions)
            .map(|a| F((0..self.n_states).map(|i| phi[i].0 * self.weights[i][a]).sum()))
            .collect())
    }

    fn update_index(
        &mut self,
        phi: &Vec<F>,
        action: usize,
        error: F,
    ) -> Result<(), ApproximationError> {
        if self.fail_update {
            return Err(ApproximationError::Failed);
        }
        if phi.len() != self.n_states || action >= self.weights[0].len() {
            return Err(ApproximationError::DimensionMismatch);
        }
        for i in 0..self.n_states {
            self.weights[i][action] += phi[i].0 * error.0;
        }
        Ok(())
    }
}

/// A behaviour policy that always plays the same action and counts the
/// episodes it has seen.
struct Fixed {
    action: usize,
    n: usize,
    episodes: usize,
}

impl Fixed {
    fn new(action: usize, n: usize) -> Self {
        Fixed { action, n, episodes: 0 }
    }
}

impl Algorithm for Fixed {
    fn spec_ends_episode(self, _: Self) -> bool {
        unreachable!()
    }

    fn handle_terminal(&mut self) {
        self.episodes += 1;
    }
}

impl Policy<usize, F> for Fixed {
    type Action = usize;

    fn spec_probability(&self, _: usize, _: usize) -> Result<F, LearnerError> {
        unreachable!()
    }

    fn spec_draws(self, _: usize, _: Self, _: Result<usize, LearnerError>) -> bool {
        unreachable!()
    }

    fn spec_picks(self, _: usize, _: Self, _: Result<usize, LearnerError>) -> bool {
        unreachable!()
    }

    fn sample(&mut self, _: &usize) -> Result<usize, LearnerError> {
        Ok(self.action)
    }

    fn mpa(&mut self, _: &usize) -> Result<usize, LearnerError> {
        Ok(self.action)
    }

    fn probability(&self, _: &usize, a: usize) -> Result<F, LearnerError> {
        Ok(if a == self.action { F(1.0) } else { F(0.0) })
    }
}

impl FinitePolicy<usize, F> for Fixed {
    fn spec_n_actions(&self) -> IdealSize {
        unreachable!()
    }

    fn spec_probabilities(&self, _: usize) -> Result<IdealVector<F>, LearnerError> {
        unreachable!()
    }

    fn n_actions(&self) -> usize {
        self.n
    }

    fn probabilities(&self, _: &usize) -> Result<Vec<F>, LearnerError> {
        Ok((0..self.n).map(|a| if a == self.action { F(1.0) } else { F(0.0) }).collect())
    }
}

fn agent(n_states: usize, n_actions: usize) -> QLearning<Table, Fixed, F> {
    QLearning::new(
        Table::new(n_states, n_actions),
        Fixed::new(0, n_actions),
        Parameter::fixed(F(0.1)),
        Parameter::fixed(F(0.9)),
    )
}

fn step(from: usize, action: usize, reward: f64, to: usize) -> Transition<usize, usize, F> {
    Transition { from: Observation::Full(from), action, reward: F(reward), to: Observation::Full(to) }
}

fn last_step(from: usize, action: usize, reward: f64, to: usize) -> Transition<usize, usize, F> {
    Transition {
        from: Observation::Full(from),
        action,
        reward: F(reward),
        to: Observation::Terminal(to),
    }
}

#[test]
fn q_learning_terminal_step_moves_weight_by_alpha_times_reward() {
    let mut agent = agent(1, 1);
    let t = last_step(0, 0, 1.0, 0);

    assert_eq!(agent.residual(&t), Ok(F(1.0)));
    assert_eq!(agent.handle_transition(&t), Ok(()));
    assert!(close(agent.q_func.weights[0][0], 0.1));
}

#[test]
fn q_learning_terminal_residual_ignores_successor_and_discount() {
    let mut agent = agent(2, 2);
    agent.q_func.weights[0] = vec![0.25, 0.0];
    agent.q_func.weights[1] = vec![100.0, 200.0];
    let t = last_step(0, 0, 1.0, 1);

    assert_eq!(agent.residual(&t), Ok(F(0.75)));
}

#[test]
fn q_learning_bootstraps_from_the_greedy_successor_value() {
    let mut agent = agent(2, 2);
    agent.q_func.weights[1] = vec![-1.0, 2.0];
    let t = step(0, 0, 1.0, 1);

    let residual = agent.residual(&t).unwrap();
    assert!(close(residual.0, 2.8));
    assert_eq!(agent.handle_transition(&t), Ok(()));
    assert!(close(agent.q_func.weights[0][0], 0.28));
    assert_eq!(agent.q_func.weights[0][1], 0.0);
    assert_eq!(agent.q_func.weights[1], vec![-1.0, 2.0]);
}

#[test]
fn q_learning_target_is_greedy_and_behaviour_is_the_policy() {
    let mut agent = agent(2, 3);
    agent.q_func.weights[1] = vec![0.5, 0.25, 3.0];

    assert_eq!(agent.sample_target(&1), Ok(2));
    assert_eq!(agent.sample_behaviour(&1), Ok(0));
    assert_eq!(agent.predict_v(&1), Ok(F(3.0)));
    assert_eq!(agent.predict_qsa(&1, 1), Ok(F(0.25)));
    assert_eq!(agent.predict_qs(&1), Ok(vec![F(0.5), F(0.25), F(3.0)]));
}

#[test]
fn q_learning_target_sees_the_weights_just_written() {
    let mut agent = agent(1, 2);
    assert_eq!(agent.sample_target(&0), Ok(0));

    assert_eq!(agent.handle_transition(&last_step(0, 1, 1.0, 0)), Ok(()));

    assert_eq!(agent.sample_target(&0), Ok(1));
    assert!(close(agent.predict_v(&0).unwrap().0, 0.1));
}

#[test]
fn q_learning_prediction_is_repeatable() {
    let mut agent = agent(2, 2);
    agent.q_func.weights[0] = vec![0.3, 0.7];

    let first = (agent.predict_v(&0), agent.predict_qsa(&0, 0), agent.predict_qs(&0));
    let second = (agent.predict_v(&0), agent.predict_qsa(&0, 0), agent.predict_qs(&0));
    assert_eq!(first, second);
    assert_eq!(agent.q_func.weights[0], vec![0.3, 0.7]);
}

#[test]
fn q_learning_reports_a_failed_prediction_and_learns_nothing() {
    let mut agent = agent(1, 1);
    agent.q_func.fail_evaluate = true;

    assert_eq!(
        agent.handle_transition(&last_step(0, 0, 1.0, 0)),
        Err(LearnerError::Approximation(ApproximationError::Failed))
    );
    assert_eq!(agent.q_func.weights[0][0], 0.0);
    assert_eq!(
        agent.predict_v(&0),
        Err(LearnerError::Approximation(ApproximationError::Failed))
    );
}

#[test]
fn q_learning_rejects_an_action_without_a_value() {
    let mut agent = agent(1, 1);

    assert_eq!(
        agent.handle_transition(&last_step(0, 5, 1.0, 0)),
        Err(LearnerError::Approximation(ApproximationError::DimensionMismatch))
    );
    assert_eq!(
        agent.predict_qsa(&0, 5),
        Err(LearnerError::Approximation(ApproximationError::DimensionMismatch))
    );
}

#[test]
fn q_learning_swallows_a_rejected_update() {
    let mut agent = agent(1, 1);
    agent.q_func.fail_update = true;

    assert_eq!(agent.handle_transition(&last_step(0, 0, 1.0, 0)), Ok(()));
    assert_eq!(agent.q_func.weights[0][0], 0.0);
}

#[test]
fn q_learning_episode_end_steps_each_parameter_once() {
    let mut agent = QLearning::new(
        Table::new(1, 1),
        Fixed::new(0, 1),
        Parameter::exponential(F(1.0), F(0.1), F(0.5)),
        Parameter::linear(F(1.0), F(0.0), F(0.25)),
    );

    agent.handle_terminal();

    assert_eq!(agent.alpha.value(), F(0.5));
    assert_eq!(agent.gamma.value(), F(0.75));
    assert_eq!(agent.policy.episodes, 1);
    assert_eq!(agent.q_func.weights[0][0], 0.0);
}

#[test]
fn handle_sequence_is_the_ordered_fold_of_single_steps() {
    let steps = vec![step(0, 0, 1.0, 1), step(1, 1, 0.5, 0), last_step(0, 0, 2.0, 1)];

    let mut folded = agent(2, 2);
    assert_eq!(handle_sequence(&mut folded, &steps), Ok(()));

    let mut single = agent(2, 2);
    for t in steps.iter() {
        assert_eq!(single.handle_transition(t), Ok(()));
    }

    assert_eq!(folded.q_func.weights, single.q_func.weights);
    assert!(close(folded.q_func.weights[0][0], 0.1 + 0.1 * (2.0 - 0.1)));
}

#[test]
fn handle_sequence_stops_at_the_first_failure() {
    let steps = vec![step(0, 0, 1.0, 1), step(1, 7, 0.5, 0), last_step(0, 0, 2.0, 1)];

    let mut agent = agent(2, 2);
    assert_eq!(
        handle_sequence(&mut agent, &steps),
        Err(LearnerError::Approximation(ApproximationError::DimensionMismatch))
    );
    assert!(close(agent.q_func.weights[0][0], 0.1));
    assert_eq!(agent.q_func.weights[1], vec![0.0, 0.0]);
}

#[test]
fn handle_sequence_of_nothing_changes_nothing() {
    let mut agent = agent(1, 1);
    assert_eq!(handle_sequence(&mut agent, &[]), Ok(()));
    assert_eq!(agent.q_func.weights[0][0], 0.0);
}
