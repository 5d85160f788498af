//! The strategy generator: where a portfolio stands against its target, and
//! which actions close the gap.
//!
//! Amounts are in cents. Weights, volatility, drawdown and value at risk are
//! in parts per million; the risk score is in thousandths of a point on the
//! scale from zero to ten.

use crate::profile::{has_active, is_first_active, CompleteFinancialProfile};
use crate::strategy::{
    weights_for, ActionView, AllocationSnapshot, ApolloStrategy, StrategyAction, StrategyStatus,
    TargetAllocation, WeightsView, WHOLE_PPM,
};
use crate::text::{signed_decimal, signed_decimal_string};
use vstd::prelude::*;
use vstd::string::StringExecFns;

verus! {

/// The gap, in cents, that an asset class must exceed before it is rebalanced.
pub const REBALANCE_THRESHOLD_CENTS: u64 = 100_000;

/// The volatility of a portfolio without crypto, in parts per million.
pub const BASE_VOLATILITY_PPM: u32 = 200_000;

/// The Sharpe ratio that every assessment assumes, in thousandths.
pub const ASSUMED_SHARPE_MILLI: u32 = 1_200;

/// The largest drawdown that every assessment assumes, in parts per million.
pub const ASSUMED_MAX_DRAWDOWN_PPM: u32 = 300_000;

/// The value at risk at 95 % that every assessment assumes, in parts per million.
pub const ASSUMED_VAR_95_PPM: u32 = 150_000;

/// How much of a portfolio is held in each asset class, in cents.
#[derive(Clone, Copy, Debug, PartialEq, Eq, Structural)]
pub struct AllocationBreakdown {
    pub stocks: u64,
    pub crypto: u64,
    pub nfts: u64,
    pub cash: u64,
    pub total: u128,
}

/// What each asset class lacks of its target (positive) or holds beyond it
/// (negative), in cents.
#[derive(Clone, Copy, Debug, PartialEq, Eq, Structural)]
pub struct AllocationGap {
    pub stocks_diff: i128,
    pub crypto_diff: i128,
    pub nfts_diff: i128,
    pub cash_diff: i128,
}

/// How risky an allocation is.
#[derive(Clone, Copy, Debug, PartialEq, Eq, Structural)]
pub struct RiskAssessment {
    pub volatility_ppm: u32,
    pub sharpe_ratio_milli: u32,
    pub max_drawdown_ppm: u32,
    pub var_95_ppm: u32,
    pub risk_score_milli: u32,
}

/// Where a portfolio stands against its target.
#[derive(Clone, Copy, Debug)]
pub struct PortfolioAnalysis {
    pub current_allocation: AllocationBreakdown,
    pub target_allocation: AllocationBreakdown,
    pub target_weights: AllocationSnapshot,
    pub gap: AllocationGap,
    /// The return a year that the goals ask for, in basis points.
    pub required_return_bps: i64,
    pub risk_assessment: RiskAssessment,
}

/// Why no strategy can be generated.
#[derive(Clone, Copy, Debug, PartialEq, Eq, Structural)]
pub enum GeneratorError {
    /// The user pursues no goal, so there is no target.
    NoActiveGoal,
}

/// The part of `total_cents` that a weight stands for, rounded down.
pub open spec fn share_of(total_cents: u64, weight_ppm: nat) -> int {
    total_cents * weight_ppm / (WHOLE_PPM as int)
}

/// The amounts that the weights make of a total.
pub open spec fn breakdown_for(weights: WeightsView, total_cents: u64) -> AllocationBreakdown {
    AllocationBreakdown {
        stocks: share_of(total_cents, weights.stocks) as u64,
        crypto: share_of(total_cents, weights.crypto) as u64,
        nfts: share_of(total_cents, weights.nfts) as u64,
        cash: share_of(total_cents, weights.cash) as u64,
        total: total_cents as u128,
    }
}

/// The holdings of a user: crypto and equities as valued, no collectibles,
/// and the emergency fund as cash.
pub open spec fn holdings_of(crypto_cents: u64, stock_cents: u64, cash_cents: u64) -> AllocationBreakdown {
    AllocationBreakdown {
        stocks: stock_cents,
        crypto: crypto_cents,
        nfts: 0,
        cash: cash_cents,
        total: (crypto_cents + stock_cents + cash_cents) as u128,
    }
}

/// What the holdings lack of the target, class by class.
pub open spec fn gap_between(current: AllocationBreakdown, target: AllocationBreakdown) -> AllocationGap {
    AllocationGap {
        stocks_diff: (target.stocks - current.stocks) as i128,
        crypto_diff: (target.crypto - current.crypto) as i128,
        nfts_diff: (target.nfts - current.nfts) as i128,
        cash_diff: (target.cash - current.cash) as i128,
    }
}

/// The weight of crypto in an allocation, in parts per million and at most
/// the whole. An allocation that holds nothing has no crypto weight.
pub open spec fn crypto_weight(allocation: AllocationBreakdown) -> int {
    if allocation.total == 0 {
        0
    } else if allocation.crypto * WHOLE_PPM / (allocation.total as int) > WHOLE_PPM {
        WHOLE_PPM as int
    } else {
        allocation.crypto * WHOLE_PPM / (allocation.total as int)
    }
}

/// The risk of an allocation: the more crypto, the more volatile.
pub open spec fn risk_of(allocation: AllocationBreakdown) -> RiskAssessment {
    RiskAssessment {
        volatility_ppm: (BASE_VOLATILITY_PPM + crypto_weight(allocation) * 6 / 10) as u32,
        sharpe_ratio_milli: ASSUMED_SHARPE_MILLI,
        max_drawdown_ppm: ASSUMED_MAX_DRAWDOWN_PPM,
        var_95_ppm: ASSUMED_VAR_95_PPM,
        risk_score_milli: (crypto_weight(allocation) / 100) as u32,
    }
}

/// The size of a gap, in cents, at most the largest amount an action can carry.
pub open spec fn magnitude(diff: i128) -> u64 {
    if diff > u64::MAX || diff < -(u64::MAX as int) {
        u64::MAX
    } else if diff < 0 {
        (-diff) as u64
    } else {
        diff as u64
    }
}

/// Which way a gap is closed: by buying what is lacking, by selling otherwise.
pub open spec fn direction(diff: i128) -> Seq<char> {
    if diff > 0 {
        "buy"@
    } else {
        "sell"@
    }
}

/// The action on equities that a gap calls for: the whole gap in the index fund.
pub open spec fn stock_actions(gap: AllocationGap) -> Seq<ActionView> {
    if magnitude(gap.stocks_diff) > REBALANCE_THRESHOLD_CENTS {
        seq![
            ActionView {
                action_type: direction(gap.stocks_diff),
                asset_class: "stocks"@,
                symbol: "SPY"@,
                side: direction(gap.stocks_diff),
                amount_cents: magnitude(gap.stocks_diff),
                reason: "Rebalance to target allocation"@,
                priority: 1,
            },
        ]
    } else {
        Seq::empty()
    }
}

/// The actions on crypto that a gap calls for: three fifths of the gap in
/// bitcoin, and two fifths bought in the platform token.
pub open spec fn crypto_actions(gap: AllocationGap) -> Seq<ActionView> {
    if magnitude(gap.crypto_diff) > REBALANCE_THRESHOLD_CENTS {
        seq![
            ActionView {
                action_type: direction(gap.crypto_diff),
                asset_class: "crypto"@,
                symbol: "BTC"@,
                side: direction(gap.crypto_diff),
                amount_cents: (magnitude(gap.crypto_diff) * 6 / 10) as u64,
                reason: "Increase crypto exposure"@,
                priority: 2,
            },
            ActionView {
                action_type: "buy"@,
                asset_class: "crypto"@,
                symbol: "WTF"@,
                side: "buy"@,
                amount_cents: (magnitude(gap.crypto_diff) * 4 / 10) as u64,
                reason: "Platform token with high growth potential"@,
                priority: 3,
            },
        ]
    } else {
        Seq::empty()
    }
}

/// The actions that close a gap: equities first, then crypto. A class whose
/// gap is within the threshold is left alone.
pub open spec fn rebalance_actions(gap: AllocationGap) -> Seq<ActionView> {
    stock_actions(gap) + crypto_actions(gap)
}

/// A return in whole percent, rounded towards zero, as far as it fits.
pub open spec fn whole_percent(return_bps: i64) -> i32 {
    let percent = if return_bps >= 0 {
        return_bps / 100
    } else {
        -((-return_bps) / 100)
    };
    if percent > i32::MAX {
        i32::MAX
    } else if percent < i32::MIN {
        i32::MIN
    } else {
        percent as i32
    }
}

/// The sum of a list of amounts.
pub open spec fn sum_of(values: Seq<u64>) -> int
    decreases values.len(),
{
    if values.len() == 0 {
        0
    } else {
        sum_of(values.drop_last()) + values.last()
    }
}

/// A sum grows with every amount that is added.
proof fn lemma_sum_grows(values: Seq<u64>, upto: int)
    requires
        0 <= upto <= values.len(),
    ensures
        sum_of(values.take(upto)) <= sum_of(values),
    decreases values.len() - upto,
{
    if upto < values.len() {
        lemma_sum_grows(values, upto + 1);
        assert(values.take(upto + 1).drop_last() =~= values.take(upto));
    } else {
        assert(values.take(upto) =~= values);
    }
}

/// The size of a gap.
fn gap_magnitude(diff: i128) -> (size: u64)
    ensures
        size == magnitude(diff),
{
    if diff > u64::MAX as i128 || diff < -(u64::MAX as i128) {
        u64::MAX
    } else if diff < 0 {
        (-diff) as u64
    } else {
        diff as u64
    }
}

/// Which way a gap is closed.
fn gap_direction(diff: i128) -> (side: String)
    ensures
        side@ == direction(diff),
{
    if diff > 0 {
        String::from_str("buy")
    } else {
        String::from_str("sell")
    }
}

/// The part of a total that a weight stands for.
fn weighted_share(total_cents: u64, weight_ppm: u32) -> (share: u64)
    requires
        weight_ppm <= WHOLE_PPM,
    ensures
        share == share_of(total_cents, weight_ppm as nat),
{
    assert(total_cents * weight_ppm <= total_cents * 1_000_000) by (nonlinear_arith)
        requires
            weight_ppm <= 1_000_000,
            0 <= total_cents,
    ;
    assert(total_cents * 1_000_000 <= u64::MAX * 1_000_000) by (nonlinear_arith)
        requires
            total_cents <= u64::MAX,
    ;
    let scaled: u128 = total_cents as u128 * weight_ppm as u128;
    let share: u128 = scaled / WHOLE_PPM as u128;
    assert(share <= total_cents) by (nonlinear_arith)
        requires
            share == scaled / 1_000_000,
            scaled <= total_cents * 1_000_000,
    ;
    share as u64
}

/// Generates strategies from what is known about a user.
pub struct StrategyGenerator {}

impl StrategyGenerator {
    pub fn new() -> (generator: Self) {
        StrategyGenerator {  }
    }

    /// The sum of the values of positions, if it fits.
    pub fn sum_position_values(&self, values: &Vec<u64>) -> (total: Option<u64>)
        ensures
            total is Some <==> sum_of(values@) <= u64::MAX,
            total matches Some(cents) ==> cents == sum_of(values@),
    {
        let mut total: u64 = 0;
        let mut i: usize = 0;
        assert(values@.take(0) =~= Seq::<u64>::empty());
        while i < values.len()
            invariant
                i <= values.len(),
                total == sum_of(values@.take(i as int)),
            decreases values.len() - i,
        {
            assert(values@.take(i as int + 1).drop_last() =~= values@.take(i as int));
            match total.checked_add(values[i]) {
                Some(more) => {
                    total = more;
                },
                None => {
                    proof {
                        lemma_sum_grows(values@, i as int + 1);
                    }
                    return None;
                },
            }
            i += 1;
        }
        assert(values@.take(values.len() as int) =~= values@);
        Some(total)
    }

    /// The target weights for a risk tolerance.
    pub fn target_weights(&self, risk_tolerance: &str) -> (weights: AllocationSnapshot)
        ensures
            weights@ == weights_for(risk_tolerance@),
    {
        AllocationSnapshot::for_risk_tolerance(risk_tolerance)
    }

    /// The target of a user: the total of the goals, divided by the weights
    /// that the risk tolerance of the first active goal asks for.
    pub fn determine_target_allocation(&self, profile: &CompleteFinancialProfile) -> (target: Result<
        (AllocationBreakdown, AllocationSnapshot),
        GeneratorError,
    >)
        ensures
            target is Ok <==> has_active(profile.goals@),
            target matches Err(error) ==> error == GeneratorError::NoActiveGoal,
            target matches Ok(found) ==> exists|at: int|
                is_first_active(profile.goals@, at) && found.1@ == weights_for(
                    profile.goals@[at].risk_tolerance@,
                ) && found.0 == breakdown_for(found.1@, profile.summary.total_goal_value_cents),
    {
        match profile.primary_goal() {
            None => Err(GeneratorError::NoActiveGoal),
            Some(goal) => {
                let weights = self.target_weights(goal.risk_tolerance.as_str());
                let total: u64 = profile.summary.total_goal_value_cents;
                let breakdown = AllocationBreakdown {
                    stocks: weighted_share(total, weights.stocks_ppm()),
                    crypto: weighted_share(total, weights.crypto_ppm()),
                    nfts: weighted_share(total, weights.nfts_ppm()),
                    cash: weighted_share(total, weights.cash_ppm()),
                    total: total as u128,
                };
                Ok((breakdown, weights))
            },
        }
    }

    /// The risk of an allocation.
    pub fn assess_risk(&self, allocation: &AllocationBreakdown) -> (risk: RiskAssessment)
        ensures
            risk == risk_of(*allocation),
            risk.volatility_ppm <= 800_000,
            risk.risk_score_milli <= 10_000,
    {
        let weight: u32 = if allocation.total == 0 {
            0
        } else {
            assert(allocation.crypto * WHOLE_PPM <= u64::MAX * 1_000_000) by (nonlinear_arith)
                requires
                    allocation.crypto <= u64::MAX,
                    WHOLE_PPM == 1_000_000,
            ;
            let scaled: u128 = allocation.crypto as u128 * WHOLE_PPM as u128;
            let share: u128 = scaled / allocation.total;
            if share > WHOLE_PPM as u128 {
                WHOLE_PPM
            } else {
                share as u32
            }
        };
        RiskAssessment {
            volatility_ppm: BASE_VOLATILITY_PPM + weight * 6 / 10,
            sharpe_ratio_milli: ASSUMED_SHARPE_MILLI,
            max_drawdown_ppm: ASSUMED_MAX_DRAWDOWN_PPM,
            var_95_ppm: ASSUMED_VAR_95_PPM,
            risk_score_milli: weight / 100,
        }
    }

    /// Sets the holdings of a user against the target. The values of the
    /// crypto and equity positions and the required return are the caller's
    /// to find out.
    pub fn analyze_portfolio(
        &self,
        profile: &CompleteFinancialProfile,
        crypto_cents: u64,
        stock_cents: u64,
        required_return_bps: i64,
    ) -> (analysis: Result<PortfolioAnalysis, GeneratorError>)
        ensures
            analysis is Ok <==> has_active(profile.goals@),
            analysis matches Err(error) ==> error == GeneratorError::NoActiveGoal,
            analysis matches Ok(found) ==> {
                let cash = match profile.financial_data {
                    Some(data) => data.emergency_fund_cents,
                    None => 0,
                };
                &&& found.current_allocation == holdings_of(crypto_cents, stock_cents, cash)
                &&& exists|at: int|
                    is_first_active(profile.goals@, at) && found.target_weights@ == weights_for(
                        profile.goals@[at].risk_tolerance@,
                    )
                &&& found.target_allocation == breakdown_for(
                    found.target_weights@,
                    profile.summary.total_goal_value_cents,
                )
                &&& found.gap == gap_between(found.current_allocation, found.target_allocation)
                &&& found.required_return_bps == required_return_bps
                &&& found.risk_assessment == risk_of(found.current_allocation)
            },
    {
        let cash: u64 = match profile.financial_data {
            Some(data) => data.emergency_fund_cents,
            None => 0,
        };
        let current = AllocationBreakdown {
            stocks: stock_cents,
            crypto: crypto_cents,
            nfts: 0,
            cash,
            total: crypto_cents as u128 + stock_cents as u128 + cash as u128,
        };
        match self.determine_target_allocation(profile) {
            Err(error) => Err(error),
            Ok(target) => {
                let gap = AllocationGap {
                    stocks_diff: target.0.stocks as i128 - current.stocks as i128,
                    crypto_diff: target.0.crypto as i128 - current.crypto as i128,
                    nfts_diff: target.0.nfts as i128 - current.nfts as i128,
                    cash_diff: target.0.cash as i128 - current.cash as i128,
                };
                Ok(
                    PortfolioAnalysis {
                        current_allocation: current,
                        target_allocation: target.0,
                        target_weights: target.1,
                        gap,
                        required_return_bps,
                        risk_assessment: self.assess_risk(&current),
                    },
                )
            },
        }
    }

    /// The actions that close a gap.
    pub fn rebalancing_actions(&self, gap: &AllocationGap) -> (actions: Vec<StrategyAction>)
        ensures
            actions.deep_view() == rebalance_actions(*gap),
    {
        let mut actions: Vec<StrategyAction> = Vec::new();
        let stocks: u64 = gap_magnitude(gap.stocks_diff);
        if stocks > REBALANCE_THRESHOLD_CENTS {
            actions.push(
                StrategyAction {
                    action_type: gap_direction(gap.stocks_diff),
                    asset_class: String::from_str("stocks"),
                    symbol: String::from_str("SPY"),
                    side: gap_direction(gap.stocks_diff),
                    amount_cents: stocks,
                    reason: String::from_str("Rebalance to target allocation"),
                    priority: 1,
                },
            );
        }
        assert(actions.deep_view() =~= stock_actions(*gap));
        let crypto: u64 = gap_magnitude(gap.crypto_diff);
        if crypto > REBALANCE_THRESHOLD_CENTS {
            let in_bitcoin: u64 = (crypto as u128 * 6 / 10) as u64;
            let in_token: u64 = (crypto as u128 * 4 / 10) as u64;
            actions.push(
                StrategyAction {
                    action_type: gap_direction(gap.crypto_diff),
                    asset_class: String::from_str("crypto"),
                    symbol: String::from_str("BTC"),
                    side: gap_direction(gap.crypto_diff),
                    amount_cents: in_bitcoin,
                    reason: String::from_str("Increase crypto exposure"),
                    priority: 2,
                },
            );
            actions.push(
                StrategyAction {
                    action_type: String::from_str("buy"),
                    asset_class: String::from_str("crypto"),
                    symbol: String::from_str("WTF"),
                    side: String::from_str("buy"),
                    amount_cents: in_token,
                    reason: String::from_str("Platform token with high growth potential"),
                    priority: 3,
                },
            );
        }
        assert(actions.deep_view() =~= stock_actions(*gap) + crypto_actions(*gap));
        actions
    }

    /// Puts a rebalancing strategy together from an analysis: the actions
    /// that close the gap, for the user of the profile and the first of the
    /// goals. The identifier and the wording of the time horizon are the
    /// caller's to supply; the profile store assigns the number.
    pub fn generate_ai_strategy(
        &self,
        profile: &CompleteFinancialProfile,
        analysis: &PortfolioAnalysis,
        strategy_id: String,
        time_horizon: String,
    ) -> (strategy: ApolloStrategy)
        ensures
            strategy.id == 0,
            strategy.strategy_id@ == strategy_id@,
            strategy.user_id@ == profile.user_id@,
            strategy.goal_id == (if profile.goals@.len() > 0 {
                Some(profile.goals@[0].id)
            } else {
                None
            }),
            strategy.name@ == "AI-Generated Portfolio Rebalancing"@,
            strategy.description@ == "Rebalance portfolio to achieve "@ + signed_decimal(
                whole_percent(analysis.required_return_bps) as int,
            ) + "% annual return"@,
            strategy.target_allocation.weights@ == analysis.target_weights@,
            strategy.target_allocation.total_cents == (if analysis.target_allocation.total
                <= u64::MAX {
                Some(analysis.target_allocation.total as u64)
            } else {
                None
            }),
            strategy.actions.deep_view() == rebalance_actions(analysis.gap),
            strategy.expected_annual_return_bps == analysis.required_return_bps,
            strategy.risk_score_milli == analysis.risk_assessment.risk_score_milli,
            strategy.time_horizon@ == time_horizon@,
            strategy.status == StrategyStatus::Generated,
    {
        let goal_id: Option<i64> = if profile.goals.len() > 0 {
            Some(profile.goals[0].id)
        } else {
            None
        };
        let bps: i64 = analysis.required_return_bps;
        let percent: i64 = if bps >= 0 {
            bps / 100
        } else if bps == i64::MIN {
            -(i64::MAX / 100)
        } else {
            -((-bps) / 100)
        };
        let shown: i32 = if percent > i32::MAX as i64 {
            i32::MAX
        } else if percent < i32::MIN as i64 {
            i32::MIN
        } else {
            percent as i32
        };
        let description = String::from_str("Rebalance portfolio to achieve ").concat(
            signed_decimal_string(shown).as_str(),
        ).concat("% annual return");
        let total_cents: Option<u64> = if analysis.target_allocation.total <= u64::MAX as u128 {
            Some(analysis.target_allocation.total as u64)
        } else {
            None
        };
        ApolloStrategy {
            id: 0,
            strategy_id,
            user_id: profile.user_id.clone(),
            goal_id,
            name: String::from_str("AI-Generated Portfolio Rebalancing"),
            description,
            target_allocation: TargetAllocation { weights: analysis.target_weights, total_cents },
            actions: self.rebalancing_actions(&analysis.gap),
            expected_annual_return_bps: analysis.required_return_bps,
            risk_score_milli: analysis.risk_assessment.risk_score_milli,
            time_horizon,
            status: StrategyStatus::Generated,
        }
    }
}

} // verus!
