//! A per-episode step budget: asked once after every applied action, it says
//! to stop once the number of applied actions has reached its limit.

use vstd::prelude::*;

verus! {

/// Whether an episode with step limit `limit` stops once `calls` actions have
/// been applied.
pub open spec fn stops_at(limit: nat, calls: nat) -> bool {
    calls >= limit
}

/// One call of `should_stop`: the limit stays, the count goes up by one
/// (it stays at `u32::MAX` once there), and the answer is whether the new
/// count has reached the limit.
pub open spec fn counts(before: BudgetView, after: BudgetView, stop: bool) -> bool {
    &&& after.limit == before.limit
    &&& after.taken == (if before.taken < u32::MAX {
        before.taken + 1
    } else {
        before.taken
    })
    &&& stop == stops_at(after.limit, after.taken)
}

/// Counts the applied actions of one episode. A fresh budget is needed for
/// each episode: the count is never reset.
pub struct StepBudget {
    taken: u32,
    limit: u32,
}

/// What a budget holds: how many actions it has seen, and its limit.
pub struct BudgetView {
    pub taken: nat,
    pub limit: nat,
}

impl View for StepBudget {
    type V = BudgetView;

    closed spec fn view(&self) -> BudgetView {
        BudgetView { taken: self.taken as nat, limit: self.limit as nat }
    }
}

impl StepBudget {
    /// A budget that ends the episode after `limit` applied actions (after
    /// the first one when `limit` is zero).
    pub fn new(limit: u32) -> (r: StepBudget)
        ensures
            r@.taken == 0,
            r@.limit == limit,
    {
        StepBudget { taken: 0, limit }
    }

    /// How many applied actions this budget has counted.
    pub fn taken(&self) -> (r: u32)
        ensures
            r == self@.taken,
    {
        self.taken
    }

    /// The limit this budget was made with.
    pub fn limit(&self) -> (r: u32)
        ensures
            r == self@.limit,
    {
        self.limit
    }

    /// Counts one more applied action and says whether the episode stops.
    /// The count stays at `u32::MAX` once there, where it has reached any
    /// limit, so a stopped budget stays stopped.
    pub fn should_stop(&mut self) -> (r: bool)
        ensures
            counts(old(self)@, final(self)@, r),
    {
        if self.taken < u32::MAX {
            self.taken = self.taken + 1;
        }
        self.taken >= self.limit
    }
}

/// Along calls that follow `counts` from a fresh budget, the budget has
/// counted exactly `i` actions after the `i`-th call.
proof fn lemma_count_along(trace: Seq<BudgetView>, answers: Seq<bool>, i: int)
    requires
        trace.len() == answers.len() + 1,
        trace[0].taken == 0,
        forall|j: int| 0 <= j < answers.len() ==> counts(#[trigger] trace[j], trace[j + 1], answers[j]),
        0 <= i <= answers.len(),
        i <= u32::MAX,
    ensures
        trace[i].taken == i,
        trace[i].limit == trace[0].limit,
    decreases i,
{
    if i > 0 {
        lemma_count_along(trace, answers, i - 1);
        assert(counts(trace[i - 1], trace[i], answers[i - 1]));
    }
}

/// A fresh budget ends an episode after exactly as many applied actions as
/// its limit (one when the limit is zero): for any run of calls to
/// `should_stop` from `StepBudget::new`, described by the budget's view
/// before and after each call and the answers given, the answer after the
/// `k`-th action is "stop" exactly when `k` has reached the limit. So the
/// first "stop" comes after action `max(limit, 1)`, not one earlier or later.
pub proof fn lemma_budget_stops_at_limit(trace: Seq<BudgetView>, answers: Seq<bool>)
    requires
        trace.len() == answers.len() + 1,
        trace[0].taken == 0,
        forall|j: int| 0 <= j < answers.len() ==> counts(#[trigger] trace[j], trace[j + 1], answers[j]),
    ensures
        forall|k: int|
            1 <= k <= answers.len() && k <= u32::MAX ==> (#[trigger] answers[k - 1] <==> k
                >= trace[0].limit),
        forall|k: int|
            1 <= k <= answers.len() && k <= u32::MAX ==> #[trigger] trace[k].taken == k,
{
    assert forall|k: int| 1 <= k <= answers.len() && k <= u32::MAX implies (#[trigger] answers[k
        - 1] <==> k >= trace[0].limit) by {
        lemma_count_along(trace, answers, k);
        assert(counts(trace[k - 1], trace[k], answers[k - 1]));
    }
    assert forall|k: int| 1 <= k <= answers.len() && k <= u32::MAX implies #[trigger] trace[k].taken
        == k by {
        lemma_count_along(trace, answers, k);
    }
}

} // verus!
