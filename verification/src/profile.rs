//! What the profile store tells about a user: goals, finances, strategies.

use crate::strategy::ApolloStrategy;
use crate::text::same_text;
use vstd::prelude::*;

verus! {

/// A financial goal of a user. Amounts are in cents; the target date is in
/// seconds since the Unix epoch.
#[derive(Clone, Debug)]
pub struct FinancialGoal {
    pub id: i64,
    pub status: String,
    pub risk_tolerance: String,
    pub target_date_secs: i64,
    pub monthly_contribution_cents: Option<u64>,
    pub auto_execute: bool,
}

/// The finances that a user has reported.
#[derive(Clone, Copy, Debug)]
pub struct FinancialData {
    pub emergency_fund_cents: u64,
}

/// The totals over all goals of a user, in cents.
#[derive(Clone, Copy, Debug)]
pub struct ProfileSummary {
    pub total_goal_value_cents: u64,
    pub total_current_value_cents: u64,
}

/// Everything the profile store holds about a user.
#[derive(Clone, Debug)]
pub struct CompleteFinancialProfile {
    pub user_id: String,
    pub goals: Vec<FinancialGoal>,
    pub financial_data: Option<FinancialData>,
    pub active_strategies: Vec<ApolloStrategy>,
    pub summary: ProfileSummary,
}

/// Whether a goal is being pursued.
pub open spec fn is_active(goal: FinancialGoal) -> bool {
    goal.status@ == "active"@
}

/// Whether a goal lets strategies be executed without asking: it must ask
/// for that and be active. What a goal that is not pursued allows counts
/// for nothing.
pub open spec fn allows_auto_execute(goal: FinancialGoal) -> bool {
    goal.auto_execute && is_active(goal)
}

/// Whether one of the active goals lets strategies be executed without asking.
pub open spec fn any_auto_execute(goals: Seq<FinancialGoal>) -> bool {
    exists|i: int| 0 <= i < goals.len() && allows_auto_execute(#[trigger] goals[i])
}

/// Whether the goal at `at` is active and no goal before it is.
pub open spec fn is_first_active(goals: Seq<FinancialGoal>, at: int) -> bool {
    &&& 0 <= at < goals.len()
    &&& is_active(goals[at])
    &&& forall|j: int| 0 <= j < at ==> !is_active(#[trigger] goals[j])
}

/// Whether one of the goals is active.
pub open spec fn has_active(goals: Seq<FinancialGoal>) -> bool {
    exists|i: int| 0 <= i < goals.len() && is_active(#[trigger] goals[i])
}

impl CompleteFinancialProfile {
    /// Whether one of the active goals lets strategies be executed without
    /// asking.
    pub fn auto_executes(&self) -> (enabled: bool)
        ensures
            enabled == any_auto_execute(self.goals@),
    {
        let mut i: usize = 0;
        while i < self.goals.len()
            invariant
                i <= self.goals.len(),
                forall|j: int| 0 <= j < i ==> !allows_auto_execute(#[trigger] self.goals@[j]),
            decreases self.goals.len() - i,
        {
            if self.goals[i].auto_execute && same_text(self.goals[i].status.as_str(), "active") {
                assert(allows_auto_execute(self.goals@[i as int]));
                return true;
            }
            i += 1;
        }
        false
    }

    /// The first goal that is active.
    pub fn primary_goal(&self) -> (goal: Option<&FinancialGoal>)
        ensures
            goal is Some <==> has_active(self.goals@),
            goal matches Some(found) ==> exists|at: int|
                is_first_active(self.goals@, at) && *found == self.goals@[at],
    {
        let mut i: usize = 0;
        while i < self.goals.len()
            invariant
                i <= self.goals.len(),
                forall|j: int| 0 <= j < i ==> !is_active(#[trigger] self.goals@[j]),
            decreases self.goals.len() - i,
        {
            if same_text(self.goals[i].status.as_str(), "active") {
                assert(is_first_active(self.goals@, i as int));
                return Some(&self.goals[i]);
            }
            i += 1;
        }
        None
    }
}

} // verus!
