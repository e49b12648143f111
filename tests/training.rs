use qwalk::budget::StepBudget;
use qwalk::walk::{WalkAction, WalkAgent, WalkState};
use rurel::mdp::{Agent, State};
use rurel::strategy::explore::RandomExploration;
use rurel::strategy::learn::{LearningStrategy, QLearning};
use rurel::strategy::terminate::TerminationStrategy;
use rurel::AgentTrainer;

#[derive(PartialEq, Eq, Hash, Clone)]
struct Pos(WalkState);

#[derive(PartialEq, Eq, Hash, Clone, Debug)]
struct Move(WalkAction);

impl State for Pos {
    type A = Move;

    fn reward(&self) -> f64 {
        self.0.reward() as f64
    }

    fn actions(&self) -> Vec<Move> {
        self.0.actions().into_iter().map(Move).collect()
    }

    fn random_action(&self) -> Move {
        Move(self.0.random_action(&mut rand::thread_rng()))
    }
}

struct Walker {
    inner: WalkAgent,
    at: Pos,
}

impl Walker {
    fn new(x: i32) -> Walker {
        let inner = WalkAgent::new(WalkState { x });
        let at = Pos(*inner.current_state());
        Walker { inner, at }
    }

    fn reset(&mut self) {
        self.inner.reset();
        self.at = Pos(*self.inner.current_state());
    }
}

impl Agent<Pos> for Walker {
    fn current_state(&self) -> &Pos {
        &self.at
    }

    fn take_action(&mut self, action: &Move) {
        self.inner.take_action(&action.0);
        self.at = Pos(*self.inner.current_state());
    }
}

struct Budget(StepBudget);

impl<S: State> TerminationStrategy<S> for Budget {
    fn should_stop(&mut self, _: &S) -> bool {
        self.0.should_stop()
    }
}

fn train(episodes: u32, steps: u32) -> AgentTrainer<Pos> {
    let mut trainer = AgentTrainer::new();
    let mut agent = Walker::new(0);
    for _ in 0..episodes {
        trainer.train(
            &mut agent,
            &QLearning::new(0.2, 0.01, 0.),
            &mut Budget(StepBudget::new(steps)),
            &RandomExploration::new(),
        );
        agent.reset();
    }
    trainer
}

#[test]
fn training_learns_penalty_of_reachable_states() {
    let trainer = train(100_000, 10);
    for x in [0, 2, 3, 4, 5, 6, 7] {
        let values = trainer
            .expected_values(&Pos(WalkState { x }))
            .unwrap_or_else(|| panic!("state {} was never visited", x));
        assert!(!values.is_empty());
        for (m, v) in values {
            assert!(*v != 0.0, "state {} move {} kept the default value", x, m.0.dx);
            assert!(*v < 0.0);
        }
    }
}

#[test]
fn position_one_is_never_reached_from_zero() {
    let trainer = train(1_000, 10);
    assert!(trainer.expected_values(&Pos(WalkState { x: 1 })).is_none());
}

#[test]
fn unvisited_state_has_no_learned_values() {
    let trainer = train(100, 10);
    assert!(trainer.expected_values(&Pos(WalkState { x: -3 })).is_none());
}

#[test]
fn each_episode_applies_exactly_the_budget() {
    let mut trainer = AgentTrainer::new();
    let mut agent = Walker::new(0);
    let mut budget = Budget(StepBudget::new(4));
    trainer.train(
        &mut agent,
        &QLearning::new(0.2, 0.01, 0.),
        &mut budget,
        &RandomExploration::new(),
    );
    assert_eq!(budget.0.taken(), 4);
}

fn values_of(pairs: &[(i32, f64)]) -> std::collections::HashMap<Move, f64> {
    pairs.iter().map(|&(dx, v)| (Move(WalkAction { dx }), v)).collect()
}

#[test]
fn q_update_moves_toward_reward_plus_discounted_best() {
    let q = QLearning::new(0.2, 0.01, 0.);
    let next = values_of(&[(1, -50.0), (2, -10.0), (3, -80.0)]);
    let old = 4.0;
    let v = LearningStrategy::<Pos>::value(&q, &Some(&next), &Some(&old), -100.0);
    // target = -100 + 0.01 * -10 = -100.1; 4 + 0.2 * (-100.1 - 4) = -16.82
    assert!((v - (-16.82)).abs() < 1e-9, "{}", v);
}

#[test]
fn repeated_q_updates_converge_monotonically() {
    let q = QLearning::new(0.2, 0.01, 0.);
    let next = values_of(&[(1, 3.0), (2, 5.0)]);
    let target = 1.0 + 0.01 * 5.0;
    let mut v = -20.0;
    let mut gap: f64 = target - v;
    for _ in 0..200 {
        v = LearningStrategy::<Pos>::value(&q, &Some(&next), &Some(&v), 1.0);
        let new_gap = target - v;
        assert!(new_gap >= 0.0);
        assert!(new_gap <= gap);
        gap = new_gap;
    }
    assert!(gap < 1e-9);
}

#[test]
fn q_update_is_the_same_for_the_same_arguments() {
    let q = QLearning::new(0.2, 0.01, 0.);
    let next = values_of(&[(1, -1.5), (3, 2.5)]);
    let old = 0.75;
    let a = LearningStrategy::<Pos>::value(&q, &Some(&next), &Some(&old), 0.0);
    let b = LearningStrategy::<Pos>::value(&q, &Some(&next), &Some(&old), 0.0);
    assert_eq!(a.to_bits(), b.to_bits());
}

#[test]
fn visited_state_lists_only_the_actions_taken() {
    let mut trainer = AgentTrainer::new();
    let mut agent = Walker::new(0);
    trainer.train(
        &mut agent,
        &QLearning::new(0.2, 0.01, 0.),
        &mut Budget(StepBudget::new(1)),
        &RandomExploration::new(),
    );
    let values = trainer.expected_values(&Pos(WalkState { x: 0 })).unwrap();
    assert_eq!(values.len(), 1);
    let (m, v) = values.iter().next().unwrap();
    assert!((1..=3).contains(&m.0.dx));
    assert_eq!(*v, 0.0);
}
