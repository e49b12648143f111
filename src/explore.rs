//! Uniform exploration: any legal action, each with the same chance.

use vstd::prelude::*;

use crate::draw::draw_below;

verus! {

/// The action at index `i` of `actions`.
pub fn pick_at<A: Copy>(actions: &Vec<A>, i: usize) -> (r: A)
    requires
        i < actions@.len(),
    ensures
        r == actions@[i as int],
{
    actions[i]
}

/// An action of `actions` at an index drawn uniformly. Exploring from a state
/// without actions is a caller's error, so `actions` must not be empty.
pub fn pick_action<A: Copy>(actions: &Vec<A>, rng: &mut rand::rngs::ThreadRng) -> (r: A)
    requires
        actions@.len() > 0,
    ensures
        actions@.contains(r),
{
    let i = draw_below(rng, actions.len());
    let a = pick_at(actions, i);
    assert(actions@[i as int] == a);
    a
}

} // verus!
