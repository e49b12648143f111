//! A one-dimensional walk toward a penalised goal, with the pieces a tabular
//! Q-learning trainer needs from it: the states and their legal actions, the
//! reward of each state, a noisy transition, a per-episode step budget and a
//! uniform choice among the legal actions.

mod draw;
pub mod budget;
pub mod explore;
pub mod walk;
