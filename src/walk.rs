//! The walk: positions on a line that end at a goal, three forward moves, and
//! a transition that adds a random push of one to three and stops at the goal.

use vstd::prelude::*;

use crate::draw::{draw_between, thread_source};
use crate::explore::{pick_action, pick_at};

verus! {

/// The last position of the walk; reaching it is penalised.
pub const GOAL: i32 = 7;

/// The reward on arriving at the goal.
pub const GOAL_REWARD: i32 = -100;

/// The smallest and the largest push added to every move.
pub const PUSH_LOW: i32 = 1;
pub const PUSH_HIGH: i32 = 3;

/// A position of the walk.
#[derive(PartialEq, Eq, Structural, Hash, Clone, Copy, Debug)]
pub struct WalkState {
    pub x: i32,
}

/// A move forward by `dx` positions, before the push.
#[derive(PartialEq, Eq, Structural, Hash, Clone, Copy, Debug)]
pub struct WalkAction {
    pub dx: i32,
}

/// The reward of arriving at position `x`.
pub open spec fn reward_of(x: int) -> int {
    if x == GOAL as int {
        GOAL_REWARD as int
    } else {
        0
    }
}

/// The moves that every position offers, in this order.
pub open spec fn legal_actions() -> Seq<WalkAction> {
    seq![WalkAction { dx: 1 }, WalkAction { dx: 2 }, WalkAction { dx: 3 }]
}

/// Where a move of `dx` with push `push` from `x` lands: never past the goal.
pub open spec fn landing(x: int, dx: int, push: int) -> int {
    if x + dx + push > GOAL as int {
        GOAL as int
    } else {
        x + dx + push
    }
}

/// The position reached from `x` by a move of `dx` and a push of `push`.
pub fn step(x: i32, dx: i32, push: i32) -> (r: i32)
    requires
        x + dx + push >= i32::MIN,
    ensures
        r == landing(x as int, dx as int, push as int),
{
    let sum: i64 = x as i64 + dx as i64 + push as i64;
    if sum > GOAL as i64 {
        GOAL
    } else {
        sum as i32
    }
}

/// A walk that starts at 0 never stands at 1: from 0, and from any position
/// of at least 2, a legal move with a push of one to three lands at 2 or
/// beyond.
pub proof fn lemma_never_lands_on_one(x: int, a: WalkAction, push: int)
    requires
        x == 0 || x >= 2,
        legal_actions().contains(a),
        PUSH_LOW <= push <= PUSH_HIGH,
    ensures
        landing(x, a.dx as int, push) >= 2,
{
    assert(a.dx >= 1);
}

impl WalkState {
    /// The reward of arriving here: `GOAL_REWARD` at the goal, else nothing.
    pub fn reward(&self) -> (r: i32)
        ensures
            r == reward_of(self.x as int),
    {
        if self.x == GOAL {
            GOAL_REWARD
        } else {
            0
        }
    }

    /// The moves that can be taken from here.
    pub fn actions(&self) -> (r: Vec<WalkAction>)
        ensures
            r@ == legal_actions(),
    {
        let r = vec![WalkAction { dx: 1 }, WalkAction { dx: 2 }, WalkAction { dx: 3 }];
        assert(r@ =~= legal_actions());
        r
    }

    /// One of the moves that can be taken from here, drawn uniformly.
    pub fn random_action(&self, rng: &mut rand::rngs::ThreadRng) -> (r: WalkAction)
        ensures
            legal_actions().contains(r),
    {
        let actions = self.actions();
        pick_action(&actions, rng)
    }

    /// The move at index `i` of the moves that can be taken from here.
    pub fn action_at(&self, i: usize) -> (r: WalkAction)
        requires
            i < legal_actions().len(),
        ensures
            r == legal_actions()[i as int],
    {
        let actions = self.actions();
        pick_at(&actions, i)
    }
}

/// A walker at some position, with the generator that draws its pushes.
pub struct WalkAgent {
    state: WalkState,
    rng: rand::rngs::ThreadRng,
}

impl View for WalkAgent {
    type V = WalkState;

    /// The position the walker stands at.
    closed spec fn view(&self) -> WalkState {
        self.state
    }
}

impl WalkAgent {
    /// A walker at `start`, drawing from the thread's generator.
    pub fn new(start: WalkState) -> (r: WalkAgent)
        ensures
            r@ == start,
    {
        WalkAgent { state: start, rng: thread_source() }
    }

    /// Where the walker stands.
    pub fn current_state(&self) -> (r: &WalkState)
        ensures
            *r == self@,
    {
        &self.state
    }

    /// Puts the walker back at the start of the line.
    pub fn reset(&mut self)
        ensures
            final(self)@.x == 0,
    {
        self.state.x = 0;
    }

    /// Takes `action` with the given push.
    pub fn apply(&mut self, action: &WalkAction, push: i32)
        requires
            old(self)@.x + action.dx + push >= i32::MIN,
        ensures
            final(self)@.x == landing(old(self)@.x as int, action.dx as int, push as int),
    {
        self.state.x = step(self.state.x, action.dx, push);
    }

    /// Takes `action` with a push drawn uniformly from `PUSH_LOW..=PUSH_HIGH`.
    pub fn take_action(&mut self, action: &WalkAction)
        requires
            old(self)@.x + action.dx + PUSH_LOW >= i32::MIN,
        ensures
            exists|push: int|
                PUSH_LOW <= push <= PUSH_HIGH && final(self)@.x == landing(
                    old(self)@.x as int,
                    action.dx as int,
                    push,
                ),
    {
        let push = draw_between(&mut self.rng, PUSH_LOW, PUSH_HIGH);
        self.apply(action, push);
    }
}

} // verus!
