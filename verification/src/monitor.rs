//! The rebalance monitor: how far a portfolio has drifted from its target,
//! and what follows from that.
//!
//! The monitor looks at the crypto weight alone. That is a simplification:
//! the other weights of a snapshot do not enter the drift.
//!
//! Whether a portfolio has drifted too far is decided on the balances
//! themselves, without rounding. The weights and the drift in parts per
//! million are rounded down and serve to show where a portfolio stands.

use crate::executor::ApolloExecutor;
use crate::profile::{any_auto_execute, is_active, CompleteFinancialProfile, FinancialGoal};
use crate::strategy::{AllocationSnapshot, WeightsView, WHOLE_PPM};
use vstd::prelude::*;

verus! {

/// The drift, in parts per million, beyond which a portfolio is rebalanced:
/// five percent.
pub const DRIFT_THRESHOLD_PPM: u32 = 50_000;

/// The time between two looks at a portfolio, in seconds: one day.
pub const TICK_INTERVAL_SECS: u64 = 86_400;

/// The weight of crypto in a portfolio of crypto and equities, in parts per
/// million, rounded down.
pub open spec fn crypto_share(crypto_cents: u64, stock_cents: u64) -> int {
    crypto_cents * WHOLE_PPM / (crypto_cents + stock_cents)
}

/// The weights of a portfolio of crypto and equities. What is not crypto is
/// counted as equities, so that the weights add up to the whole.
pub open spec fn weights_of(crypto_cents: u64, stock_cents: u64) -> WeightsView {
    WeightsView {
        stocks: (WHOLE_PPM - crypto_share(crypto_cents, stock_cents)) as nat,
        crypto: crypto_share(crypto_cents, stock_cents) as nat,
        nfts: 0,
        cash: 0,
    }
}

/// The drift between two snapshots: the distance between their crypto weights.
pub open spec fn drift_of(current: WeightsView, target: WeightsView) -> nat {
    if current.crypto >= target.crypto {
        (current.crypto - target.crypto) as nat
    } else {
        (target.crypto - current.crypto) as nat
    }
}

/// Whether a drift calls for rebalancing: only if it is more than the
/// threshold. A drift of exactly the threshold does not.
pub open spec fn exceeds_threshold(drift_ppm: nat) -> bool {
    drift_ppm > DRIFT_THRESHOLD_PPM
}

/// The distance between the crypto held and the crypto that the target asks
/// for, both scaled alike: the crypto weight of the portfolio and that of
/// the target, each multiplied by the whole and by the value of the
/// portfolio. Divided by that value it is the drift in parts per million,
/// before any rounding.
pub open spec fn scaled_drift(crypto_cents: u64, stock_cents: u64, target: WeightsView) -> int {
    let have = crypto_cents * WHOLE_PPM;
    let want = target.crypto * (crypto_cents + stock_cents);
    if have >= want {
        have - want
    } else {
        want - have
    }
}

/// Whether a portfolio has drifted from its target by more than the
/// threshold. The comparison is exact: a drift of five percent to the cent
/// does not count, and the least bit more does.
pub open spec fn has_drifted(crypto_cents: u64, stock_cents: u64, target: WeightsView) -> bool {
    scaled_drift(crypto_cents, stock_cents, target) > DRIFT_THRESHOLD_PPM * (crypto_cents
        + stock_cents)
}

/// What a look at a portfolio leads to.
#[derive(Clone, Copy, Debug, PartialEq, Eq, Structural)]
pub enum RebalanceDecision {
    /// Nothing is to be done.
    Hold,
    /// A rebalancing strategy is to be generated and the user notified; it
    /// is not executed.
    Notify,
    /// A rebalancing strategy is to be generated and executed at once.
    Execute,
}

/// The decision for a portfolio worth `crypto_cents` and `stock_cents`
/// against the target of the user's active strategy. Without an active
/// strategy, or with nothing in the portfolio, there is nothing to compare.
/// A strategy is executed only where an active goal allows it.
pub open spec fn decision_for(
    crypto_cents: u64,
    stock_cents: u64,
    target: Option<WeightsView>,
    auto_execute: bool,
) -> RebalanceDecision {
    match target {
        None => RebalanceDecision::Hold,
        Some(target) => if crypto_cents + stock_cents == 0 {
            RebalanceDecision::Hold
        } else if !has_drifted(crypto_cents, stock_cents, target) {
            RebalanceDecision::Hold
        } else if auto_execute {
            RebalanceDecision::Execute
        } else {
            RebalanceDecision::Notify
        },
    }
}

/// The target of the first active strategy of a profile.
pub open spec fn active_target(profile: CompleteFinancialProfile) -> Option<WeightsView> {
    if profile.active_strategies@.len() == 0 {
        None
    } else {
        Some(profile.active_strategies@[0].target_allocation.weights@)
    }
}

/// Whether a look at a portfolio went well.
#[derive(Debug)]
pub enum TickOutcome {
    Monitored,
    /// The look failed with this error; it is logged and nothing else follows.
    Failed(String),
}

/// What the background loop does after a look at a portfolio.
#[derive(Debug)]
pub struct NextTick {
    /// What to write to the log.
    pub outcome: TickOutcome,
    /// How long to sleep before the next look.
    pub sleep_secs: u64,
}

/// No failure of a look ends the background loop: whatever the outcome, it
/// is logged and the next look follows after the usual interval.
pub fn schedule_next_tick(result: Result<(), String>) -> (next: NextTick)
    ensures
        next.sleep_secs == TICK_INTERVAL_SECS,
        match result {
            Ok(_) => next.outcome is Monitored,
            Err(error) => next.outcome matches TickOutcome::Failed(text) && text@ == error@,
        },
{
    match result {
        Ok(_) => NextTick { outcome: TickOutcome::Monitored, sleep_secs: TICK_INTERVAL_SECS },
        Err(error) => NextTick {
            outcome: TickOutcome::Failed(error),
            sleep_secs: TICK_INTERVAL_SECS,
        },
    }
}

impl ApolloExecutor {
    /// The weights of a portfolio of crypto and equities, if it holds anything.
    pub fn current_allocation(&self, crypto_cents: u64, stock_cents: u64) -> (snapshot: Option<
        AllocationSnapshot,
    >)
        ensures
            snapshot is Some <==> crypto_cents + stock_cents > 0,
            snapshot matches Some(s) ==> s@ == weights_of(crypto_cents, stock_cents),
    {
        let total: u128 = crypto_cents as u128 + stock_cents as u128;
        if total == 0 {
            return None;
        }
        assert(crypto_cents * WHOLE_PPM <= u64::MAX * 1_000_000) by (nonlinear_arith)
            requires
                crypto_cents <= u64::MAX,
                WHOLE_PPM == 1_000_000,
        ;
        let scaled: u128 = crypto_cents as u128 * WHOLE_PPM as u128;
        let share: u128 = scaled / total;
        assert(share <= WHOLE_PPM) by (nonlinear_arith)
            requires
                share == scaled / total,
                scaled == crypto_cents * WHOLE_PPM,
                total == crypto_cents + stock_cents,
                total > 0,
        ;
        let crypto_ppm: u32 = share as u32;
        AllocationSnapshot::new(WHOLE_PPM - crypto_ppm, crypto_ppm, 0, 0)
    }

    /// Whether a portfolio worth `crypto_cents` and `stock_cents` has
    /// drifted from the target by more than the threshold.
    pub fn exceeds_drift_threshold(
        &self,
        crypto_cents: u64,
        stock_cents: u64,
        target: &AllocationSnapshot,
    ) -> (drifted: bool)
        ensures
            drifted == has_drifted(crypto_cents, stock_cents, target@),
    {
        let want_ppm: u32 = target.crypto_ppm();
        let total: u128 = crypto_cents as u128 + stock_cents as u128;
        assert(crypto_cents * WHOLE_PPM <= u64::MAX * 1_000_000) by (nonlinear_arith)
            requires
                crypto_cents <= u64::MAX,
                WHOLE_PPM == 1_000_000,
        ;
        assert(want_ppm * total <= 1_000_000 * (2 * u64::MAX)) by (nonlinear_arith)
            requires
                want_ppm <= 1_000_000,
                0 <= total <= 2 * u64::MAX,
        ;
        assert(DRIFT_THRESHOLD_PPM * total <= 50_000 * (2 * u64::MAX)) by (nonlinear_arith)
            requires
                DRIFT_THRESHOLD_PPM == 50_000,
                0 <= total <= 2 * u64::MAX,
        ;
        let have: u128 = crypto_cents as u128 * WHOLE_PPM as u128;
        let want: u128 = want_ppm as u128 * total;
        let distance: u128 = if have >= want {
            have - want
        } else {
            want - have
        };
        distance > DRIFT_THRESHOLD_PPM as u128 * total
    }

    /// The drift between two snapshots, in parts per million.
    pub fn calculate_drift(&self, current: &AllocationSnapshot, target: &AllocationSnapshot) -> (drift_ppm:
        u32)
        ensures
            drift_ppm == drift_of(current@, target@),
            drift_ppm <= WHOLE_PPM,
    {
        let have: u32 = current.crypto_ppm();
        let want: u32 = target.crypto_ppm();
        if have >= want {
            have - want
        } else {
            want - have
        }
    }

    /// Whether a drift calls for rebalancing.
    pub fn needs_rebalance(&self, drift_ppm: u32) -> (needed: bool)
        ensures
            needed == exceeds_threshold(drift_ppm as nat),
    {
        drift_ppm > DRIFT_THRESHOLD_PPM
    }

    /// Looks at a portfolio worth `crypto_cents` and `stock_cents` and
    /// decides what follows for the user of `profile`.
    pub fn monitor_and_rebalance(
        &self,
        crypto_cents: u64,
        stock_cents: u64,
        profile: &CompleteFinancialProfile,
    ) -> (decision: RebalanceDecision)
        ensures
            decision == decision_for(
                crypto_cents,
                stock_cents,
                active_target(*profile),
                any_auto_execute(profile.goals@),
            ),
    {
        if profile.active_strategies.len() == 0 {
            return RebalanceDecision::Hold;
        }
        let target = &profile.active_strategies[0].target_allocation.weights;
        if crypto_cents == 0 && stock_cents == 0 {
            RebalanceDecision::Hold
        } else if !self.exceeds_drift_threshold(crypto_cents, stock_cents, target) {
            RebalanceDecision::Hold
        } else if profile.auto_executes() {
            RebalanceDecision::Execute
        } else {
            RebalanceDecision::Notify
        }
    }
}

/// The threshold on a rounded drift is strict: a drift of exactly five
/// percent calls for nothing, and the least drift above it calls for
/// rebalancing.
pub proof fn threshold_is_strict()
    ensures
        !exceeds_threshold(50_000),
        exceeds_threshold(50_001),
        forall|drift: nat| exceeds_threshold(drift) <==> drift > 50_000,
{
}

/// A portfolio has drifted exactly if its crypto weight lies more than five
/// percent of the whole above the target's, or more than five percent
/// below it. A weight at five percent to the cent has not drifted.
pub proof fn drift_is_compared_exactly(crypto_cents: u64, stock_cents: u64, target: WeightsView)
    ensures
        ({
            let total = crypto_cents + stock_cents;
            let have = crypto_cents * WHOLE_PPM;
            &&& has_drifted(crypto_cents, stock_cents, target) <==> have > (target.crypto
                + DRIFT_THRESHOLD_PPM) * total || have + DRIFT_THRESHOLD_PPM * total
                < target.crypto * total
            &&& have == (target.crypto + DRIFT_THRESHOLD_PPM) * total ==> !has_drifted(
                crypto_cents,
                stock_cents,
                target,
            )
            &&& have + DRIFT_THRESHOLD_PPM * total == target.crypto * total ==> !has_drifted(
                crypto_cents,
                stock_cents,
                target,
            )
        }),
{
    let total = crypto_cents + stock_cents;
    assert((target.crypto + DRIFT_THRESHOLD_PPM) * total == target.crypto * total
        + DRIFT_THRESHOLD_PPM * total) by (nonlinear_arith);
}

/// Rounding never makes a drift look larger than it is: where the drift
/// between the rounded weights is above the threshold, the portfolio has
/// drifted.
pub proof fn rounded_drift_never_overstates(
    crypto_cents: u64,
    stock_cents: u64,
    target: WeightsView,
)
    requires
        crypto_cents + stock_cents > 0,
        exceeds_threshold(drift_of(weights_of(crypto_cents, stock_cents), target)),
    ensures
        has_drifted(crypto_cents, stock_cents, target),
{
    let total: int = crypto_cents + stock_cents;
    let have: int = crypto_cents * WHOLE_PPM;
    let share: int = crypto_share(crypto_cents, stock_cents);
    let want: int = target.crypto as int;
    assert(share * total <= have < (share + 1) * total) by (nonlinear_arith)
        requires
            share == have / total,
            total > 0,
            have >= 0,
    ;
    assert(share >= 0) by (nonlinear_arith)
        requires
            share == have / total,
            total > 0,
            have >= 0,
    ;
    if share >= want {
        assert(share - want > 50_000);
        assert((want + 50_001) * total <= share * total) by (nonlinear_arith)
            requires
                want + 50_001 <= share,
                total > 0,
        ;
        assert((want + 50_001) * total == want * total + 50_000 * total + total)
            by (nonlinear_arith);
    } else {
        assert(want - share > 50_000);
        assert((share + 1) * total <= (want - 50_000) * total) by (nonlinear_arith)
            requires
                share + 1 <= want - 50_000,
                total > 0,
        ;
        assert((want - 50_000) * total == want * total - 50_000 * total) by (nonlinear_arith);
    }
}

/// Without a drift above the threshold nothing is generated or executed,
/// and a strategy is executed only where an active goal allows it.
pub proof fn decision_respects_threshold_and_consent(
    crypto_cents: u64,
    stock_cents: u64,
    target: WeightsView,
    auto_execute: bool,
)
    requires
        crypto_cents + stock_cents > 0,
    ensures
        ({
            let drifted = has_drifted(crypto_cents, stock_cents, target);
            let decision = decision_for(crypto_cents, stock_cents, Some(target), auto_execute);
            &&& decision == RebalanceDecision::Hold <==> !drifted
            &&& decision == RebalanceDecision::Execute <==> drifted && auto_execute
            &&& decision == RebalanceDecision::Notify <==> drifted && !auto_execute
        }),
{
}

/// The consent of a goal that is not active counts for nothing: where no
/// active goal allows it, no strategy is executed, however far the
/// portfolio has drifted.
pub proof fn inactive_consent_does_not_execute(
    crypto_cents: u64,
    stock_cents: u64,
    target: Option<WeightsView>,
    goals: Seq<FinancialGoal>,
)
    requires
        forall|i: int|
            0 <= i < goals.len() && (#[trigger] goals[i]).auto_execute ==> !is_active(goals[i]),
    ensures
        !any_auto_execute(goals),
        decision_for(crypto_cents, stock_cents, target, any_auto_execute(goals))
            != RebalanceDecision::Execute,
{
}

} // verus!
