//! Strategies, their actions, and the record of an execution.

use crate::text::same_text;
use vstd::prelude::*;

verus! {

/// Number of parts in a whole weight.
pub const WHOLE_PPM: u32 = 1_000_000;

/// The life cycle of a strategy. Only the execution engine moves a strategy
/// along it.
#[derive(Clone, Copy, Debug, PartialEq, Eq, Hash, Structural)]
pub enum StrategyStatus {
    Generated,
    Executing,
    Completed,
    Failed,
}

impl StrategyStatus {
    /// The name under which the profile store knows the status.
    pub fn as_str(&self) -> (name: &'static str)
        ensures
            name@ == match self {
                StrategyStatus::Generated => "generated"@,
                StrategyStatus::Executing => "executing"@,
                StrategyStatus::Completed => "completed"@,
                StrategyStatus::Failed => "failed"@,
            },
    {
        match self {
            StrategyStatus::Generated => "generated",
            StrategyStatus::Executing => "executing",
            StrategyStatus::Completed => "completed",
            StrategyStatus::Failed => "failed",
        }
    }
}

/// How a portfolio is divided among the asset classes, in parts per million.
/// The four weights of a snapshot add up to the whole.
#[derive(Clone, Copy, Debug)]
pub struct AllocationSnapshot {
    stocks_ppm: u32,
    crypto_ppm: u32,
    nfts_ppm: u32,
    cash_ppm: u32,
}

/// The mathematical content of an [`AllocationSnapshot`].
pub struct WeightsView {
    pub stocks: nat,
    pub crypto: nat,
    pub nfts: nat,
    pub cash: nat,
}

impl View for AllocationSnapshot {
    type V = WeightsView;

    closed spec fn view(&self) -> WeightsView {
        WeightsView {
            stocks: self.stocks_ppm as nat,
            crypto: self.crypto_ppm as nat,
            nfts: self.nfts_ppm as nat,
            cash: self.cash_ppm as nat,
        }
    }
}

/// The target weights for a risk tolerance. A tolerance that is not known
/// gets the weights of a moderate one.
pub open spec fn weights_for(risk_tolerance: Seq<char>) -> WeightsView {
    if risk_tolerance == "conservative"@ {
        WeightsView { stocks: 400_000, crypto: 100_000, nfts: 50_000, cash: 450_000 }
    } else if risk_tolerance == "aggressive"@ {
        WeightsView { stocks: 400_000, crypto: 450_000, nfts: 100_000, cash: 50_000 }
    } else {
        WeightsView { stocks: 500_000, crypto: 300_000, nfts: 100_000, cash: 100_000 }
    }
}

impl AllocationSnapshot {
    /// The target weights for a risk tolerance.
    pub fn for_risk_tolerance(risk_tolerance: &str) -> (weights: AllocationSnapshot)
        ensures
            weights@ == weights_for(risk_tolerance@),
    {
        if same_text(risk_tolerance, "conservative") {
            AllocationSnapshot {
                stocks_ppm: 400_000,
                crypto_ppm: 100_000,
                nfts_ppm: 50_000,
                cash_ppm: 450_000,
            }
        } else if same_text(risk_tolerance, "aggressive") {
            AllocationSnapshot {
                stocks_ppm: 400_000,
                crypto_ppm: 450_000,
                nfts_ppm: 100_000,
                cash_ppm: 50_000,
            }
        } else {
            AllocationSnapshot {
                stocks_ppm: 500_000,
                crypto_ppm: 300_000,
                nfts_ppm: 100_000,
                cash_ppm: 100_000,
            }
        }
    }

    #[verifier::type_invariant]
    spec fn whole(self) -> bool {
        self.stocks_ppm + self.crypto_ppm + self.nfts_ppm + self.cash_ppm == WHOLE_PPM
    }

    /// The snapshot with these weights, if they add up to the whole.
    pub fn new(stocks_ppm: u32, crypto_ppm: u32, nfts_ppm: u32, cash_ppm: u32) -> (snapshot:
        Option<AllocationSnapshot>)
        ensures
            snapshot is Some <==> stocks_ppm + crypto_ppm + nfts_ppm + cash_ppm == WHOLE_PPM,
            snapshot matches Some(s) ==> s@ == (WeightsView {
                stocks: stocks_ppm as nat,
                crypto: crypto_ppm as nat,
                nfts: nfts_ppm as nat,
                cash: cash_ppm as nat,
            }),
    {
        let sum: u64 = stocks_ppm as u64 + crypto_ppm as u64 + nfts_ppm as u64 + cash_ppm as u64;
        if sum == WHOLE_PPM as u64 {
            Some(AllocationSnapshot { stocks_ppm, crypto_ppm, nfts_ppm, cash_ppm })
        } else {
            None
        }
    }

    /// The weight of equities.
    pub fn stocks_ppm(&self) -> (ppm: u32)
        ensures
            ppm == self@.stocks,
            self@.stocks + self@.crypto + self@.nfts + self@.cash == WHOLE_PPM,
    {
        proof {
            use_type_invariant(self);
        }
        self.stocks_ppm
    }

    /// The weight of crypto assets.
    pub fn crypto_ppm(&self) -> (ppm: u32)
        ensures
            ppm == self@.crypto,
            self@.stocks + self@.crypto + self@.nfts + self@.cash == WHOLE_PPM,
    {
        proof {
            use_type_invariant(self);
        }
        self.crypto_ppm
    }

    /// The weight of collectibles.
    pub fn nfts_ppm(&self) -> (ppm: u32)
        ensures
            ppm == self@.nfts,
            self@.stocks + self@.crypto + self@.nfts + self@.cash == WHOLE_PPM,
    {
        proof {
            use_type_invariant(self);
        }
        self.nfts_ppm
    }

    /// The weight of cash.
    pub fn cash_ppm(&self) -> (ppm: u32)
        ensures
            ppm == self@.cash,
            self@.stocks + self@.crypto + self@.nfts + self@.cash == WHOLE_PPM,
    {
        proof {
            use_type_invariant(self);
        }
        self.cash_ppm
    }
}

/// What a strategy aims at: the weights, and the value that the portfolio is
/// to reach, in cents, where one is known.
#[derive(Clone, Copy, Debug)]
pub struct TargetAllocation {
    pub weights: AllocationSnapshot,
    pub total_cents: Option<u64>,
}

/// One step of a strategy. Amounts are in cents.
#[derive(Clone, Debug)]
pub struct StrategyAction {
    pub action_type: String,
    pub asset_class: String,
    pub symbol: String,
    pub side: String,
    pub amount_cents: u64,
    pub reason: String,
    pub priority: i32,
}

/// The mathematical content of a [`StrategyAction`].
pub struct ActionView {
    pub action_type: Seq<char>,
    pub asset_class: Seq<char>,
    pub symbol: Seq<char>,
    pub side: Seq<char>,
    pub amount_cents: u64,
    pub reason: Seq<char>,
    pub priority: i32,
}

impl DeepView for StrategyAction {
    type V = ActionView;

    open spec fn deep_view(&self) -> ActionView {
        ActionView {
            action_type: self.action_type@,
            asset_class: self.asset_class@,
            symbol: self.symbol@,
            side: self.side@,
            amount_cents: self.amount_cents,
            reason: self.reason@,
            priority: self.priority,
        }
    }
}

impl StrategyAction {
    /// A copy of the action.
    pub fn duplicate(&self) -> (copy: StrategyAction)
        ensures
            copy.deep_view() == self.deep_view(),
    {
        StrategyAction {
            action_type: self.action_type.clone(),
            asset_class: self.asset_class.clone(),
            symbol: self.symbol.clone(),
            side: self.side.clone(),
            amount_cents: self.amount_cents,
            reason: self.reason.clone(),
            priority: self.priority,
        }
    }
}

/// An ordered set of actions for one user, optionally tied to a goal.
/// Returns are in basis points a year, the risk score in thousandths of a
/// point on the scale from zero to ten.
#[derive(Clone, Debug)]
pub struct ApolloStrategy {
    pub id: i64,
    pub strategy_id: String,
    pub user_id: String,
    pub goal_id: Option<i64>,
    pub name: String,
    pub description: String,
    pub target_allocation: TargetAllocation,
    pub actions: Vec<StrategyAction>,
    pub expected_annual_return_bps: i64,
    pub risk_score_milli: u32,
    pub time_horizon: String,
    pub status: StrategyStatus,
}

/// An action that a venue has carried out.
#[derive(Clone, Debug)]
pub struct ExecutedAction {
    pub action: StrategyAction,
    /// The identifier that the venue assigned: an order id or a transaction hash.
    pub result_id: String,
    pub executed_at: String,
    pub executed_price_cents: Option<u64>,
}

/// The mathematical content of an [`ExecutedAction`].
pub struct ExecutedView {
    pub action: ActionView,
    pub result_id: Seq<char>,
    pub executed_at: Seq<char>,
    pub executed_price_cents: Option<u64>,
}

impl DeepView for ExecutedAction {
    type V = ExecutedView;

    open spec fn deep_view(&self) -> ExecutedView {
        ExecutedView {
            action: self.action.deep_view(),
            result_id: self.result_id@,
            executed_at: self.executed_at@,
            executed_price_cents: self.executed_price_cents,
        }
    }
}

impl ExecutedAction {
    /// A copy of the record.
    pub fn duplicate(&self) -> (copy: ExecutedAction)
        ensures
            copy.deep_view() == self.deep_view(),
    {
        ExecutedAction {
            action: self.action.duplicate(),
            result_id: self.result_id.clone(),
            executed_at: self.executed_at.clone(),
            executed_price_cents: self.executed_price_cents,
        }
    }
}

/// An action that was not carried out, with the reason.
#[derive(Clone, Debug)]
pub struct FailedAction {
    pub action: StrategyAction,
    pub error: String,
    pub failed_at: String,
}

/// The mathematical content of a [`FailedAction`].
pub struct FailedView {
    pub action: ActionView,
    pub error: Seq<char>,
    pub failed_at: Seq<char>,
}

impl DeepView for FailedAction {
    type V = FailedView;

    open spec fn deep_view(&self) -> FailedView {
        FailedView {
            action: self.action.deep_view(),
            error: self.error@,
            failed_at: self.failed_at@,
        }
    }
}

impl FailedAction {
    /// A copy of the record.
    pub fn duplicate(&self) -> (copy: FailedAction)
        ensures
            copy.deep_view() == self.deep_view(),
    {
        FailedAction {
            action: self.action.duplicate(),
            error: self.error.clone(),
            failed_at: self.failed_at.clone(),
        }
    }
}

/// The report of one execution of a strategy.
#[derive(Clone, Debug)]
pub struct ExecutionResult {
    pub strategy_id: String,
    pub user_id: String,
    pub executed: Vec<ExecutedAction>,
    pub failed: Vec<FailedAction>,
    pub total_executed: usize,
    pub total_failed: usize,
    pub execution_time_ms: u64,
}

/// The mathematical content of an [`ExecutionResult`].
pub struct ReportView {
    pub strategy_id: Seq<char>,
    pub user_id: Seq<char>,
    pub executed: Seq<ExecutedView>,
    pub failed: Seq<FailedView>,
    pub total_executed: nat,
    pub total_failed: nat,
    pub execution_time_ms: u64,
}

impl DeepView for ExecutionResult {
    type V = ReportView;

    open spec fn deep_view(&self) -> ReportView {
        ReportView {
            strategy_id: self.strategy_id@,
            user_id: self.user_id@,
            executed: self.executed.deep_view(),
            failed: self.failed.deep_view(),
            total_executed: self.total_executed as nat,
            total_failed: self.total_failed as nat,
            execution_time_ms: self.execution_time_ms,
        }
    }
}

} // verus!
