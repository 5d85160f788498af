use apollo::executor::ApolloExecutor;
use apollo::monitor::{
    schedule_next_tick, RebalanceDecision, TickOutcome, DRIFT_THRESHOLD_PPM, TICK_INTERVAL_SECS,
};
use apollo::profile::{CompleteFinancialProfile, FinancialGoal, ProfileSummary};
use apollo::strategy::{
    AllocationSnapshot, ApolloStrategy, StrategyStatus, TargetAllocation,
};

fn goal(status: &str, auto_execute: bool) -> FinancialGoal {
    FinancialGoal {
        id: 1,
        status: status.to_string(),
        risk_tolerance: "moderate".to_string(),
        target_date_secs: 2_000_000_000,
        monthly_contribution_cents: None,
        auto_execute,
    }
}

fn strategy_with_crypto_target(crypto_ppm: u32) -> ApolloStrategy {
    ApolloStrategy {
        id: 1,
        strategy_id: "s".to_string(),
        user_id: "alice".to_string(),
        goal_id: None,
        name: String::new(),
        description: String::new(),
        target_allocation: TargetAllocation {
            weights: AllocationSnapshot::new(1_000_000 - crypto_ppm, crypto_ppm, 0, 0).unwrap(),
            total_cents: None,
        },
        actions: Vec::new(),
        expected_annual_return_bps: 0,
        risk_score_milli: 0,
        time_horizon: String::new(),
        status: StrategyStatus::Generated,
    }
}

fn profile(goals: Vec<FinancialGoal>, strategies: Vec<ApolloStrategy>) -> CompleteFinancialProfile {
    CompleteFinancialProfile {
        user_id: "alice".to_string(),
        goals,
        financial_data: None,
        active_strategies: strategies,
        summary: ProfileSummary { total_goal_value_cents: 0, total_current_value_cents: 0 },
    }
}

fn snapshot(crypto_ppm: u32) -> AllocationSnapshot {
    AllocationSnapshot::new(1_000_000 - crypto_ppm, crypto_ppm, 0, 0).unwrap()
}

#[test]
fn drift_of_exactly_five_percent_does_not_trigger() {
    let executor = ApolloExecutor::new();
    assert_eq!(DRIFT_THRESHOLD_PPM, 50_000);
    let drift = executor.calculate_drift(&snapshot(350_000), &snapshot(300_000));
    assert_eq!(drift, 50_000);
    assert!(!executor.needs_rebalance(drift));
    let drift = executor.calculate_drift(&snapshot(350_001), &snapshot(300_000));
    assert_eq!(drift, 50_001);
    assert!(executor.needs_rebalance(drift));
    assert!(!executor.needs_rebalance(0));
    assert!(!executor.needs_rebalance(49_999));
    assert!(executor.needs_rebalance(1_000_000));
}

#[test]
fn drift_is_the_distance_between_the_crypto_weights() {
    let executor = ApolloExecutor::new();
    assert_eq!(executor.calculate_drift(&snapshot(300_000), &snapshot(350_000)), 50_000);
    assert_eq!(executor.calculate_drift(&snapshot(0), &snapshot(1_000_000)), 1_000_000);
    assert_eq!(executor.calculate_drift(&snapshot(1_000_000), &snapshot(0)), 1_000_000);
    assert_eq!(executor.calculate_drift(&snapshot(123_456), &snapshot(123_456)), 0);
    let a = AllocationSnapshot::new(100_000, 300_000, 500_000, 100_000).unwrap();
    let b = AllocationSnapshot::new(600_000, 300_000, 0, 100_000).unwrap();
    assert_eq!(executor.calculate_drift(&a, &b), 0);
}

#[test]
fn current_allocation_is_normalized() {
    let executor = ApolloExecutor::new();
    let s = executor.current_allocation(35_000, 65_000).unwrap();
    assert_eq!(s.crypto_ppm(), 350_000);
    assert_eq!(s.stocks_ppm(), 650_000);
    assert_eq!(s.nfts_ppm(), 0);
    assert_eq!(s.cash_ppm(), 0);
    let s = executor.current_allocation(1, 2).unwrap();
    assert_eq!(s.crypto_ppm(), 333_333);
    assert_eq!(s.stocks_ppm(), 666_667);
    let s = executor.current_allocation(u64::MAX, u64::MAX).unwrap();
    assert_eq!(s.crypto_ppm(), 500_000);
    let s = executor.current_allocation(u64::MAX, 0).unwrap();
    assert_eq!(s.crypto_ppm(), 1_000_000);
    let s = executor.current_allocation(0, 5).unwrap();
    assert_eq!(s.crypto_ppm(), 0);
    assert!(executor.current_allocation(0, 0).is_none());
}

#[test]
fn rebalancing_needs_drift_beyond_the_threshold() {
    let executor = ApolloExecutor::new();
    let auto = profile(vec![goal("active", true)], vec![strategy_with_crypto_target(300_000)]);
    assert_eq!(
        executor.monitor_and_rebalance(35_000, 65_000, &auto),
        RebalanceDecision::Hold
    );
    assert_eq!(
        executor.monitor_and_rebalance(350_001, 649_999, &auto),
        RebalanceDecision::Execute
    );
    assert_eq!(
        executor.monitor_and_rebalance(25_000, 75_000, &auto),
        RebalanceDecision::Hold
    );
    assert_eq!(
        executor.monitor_and_rebalance(249_999, 750_001, &auto),
        RebalanceDecision::Execute
    );
    assert_eq!(
        executor.monitor_and_rebalance(30_000, 70_000, &auto),
        RebalanceDecision::Hold
    );
}

#[test]
fn strategy_is_executed_only_where_an_active_goal_allows_it() {
    let executor = ApolloExecutor::new();
    let manual = profile(
        vec![goal("active", false), goal("paused", false)],
        vec![strategy_with_crypto_target(300_000)],
    );
    assert_eq!(
        executor.monitor_and_rebalance(90_000, 10_000, &manual),
        RebalanceDecision::Notify
    );
    let no_goals = profile(Vec::new(), vec![strategy_with_crypto_target(300_000)]);
    assert_eq!(
        executor.monitor_and_rebalance(90_000, 10_000, &no_goals),
        RebalanceDecision::Notify
    );
    let active_allows = profile(
        vec![goal("paused", false), goal("active", true)],
        vec![strategy_with_crypto_target(300_000)],
    );
    assert_eq!(
        executor.monitor_and_rebalance(90_000, 10_000, &active_allows),
        RebalanceDecision::Execute
    );
    assert!(active_allows.auto_executes());
    assert!(!manual.auto_executes());
    assert!(!no_goals.auto_executes());
}

#[test]
fn consent_of_a_goal_that_is_not_active_counts_for_nothing() {
    let executor = ApolloExecutor::new();
    let paused_allows = profile(
        vec![goal("active", false), goal("paused", true)],
        vec![strategy_with_crypto_target(300_000)],
    );
    assert!(!paused_allows.auto_executes());
    assert_eq!(
        executor.monitor_and_rebalance(90_000, 10_000, &paused_allows),
        RebalanceDecision::Notify
    );
    let only_paused = profile(
        vec![goal("paused", true), goal("completed", true), goal("Active", true)],
        vec![strategy_with_crypto_target(300_000)],
    );
    assert!(!only_paused.auto_executes());
    assert_eq!(
        executor.monitor_and_rebalance(90_000, 10_000, &only_paused),
        RebalanceDecision::Notify
    );
    assert_eq!(
        executor.monitor_and_rebalance(30_000, 70_000, &only_paused),
        RebalanceDecision::Hold
    );
    let both = profile(
        vec![goal("paused", true), goal("active", true)],
        vec![strategy_with_crypto_target(300_000)],
    );
    assert!(both.auto_executes());
    assert_eq!(
        executor.monitor_and_rebalance(90_000, 10_000, &both),
        RebalanceDecision::Execute
    );
}

#[test]
fn drift_is_compared_without_rounding() {
    let executor = ApolloExecutor::new();
    let none = snapshot(0);
    assert!(!executor.exceeds_drift_threshold(5_000_000, 95_000_000, &none));
    assert!(executor.exceeds_drift_threshold(5_000_050, 94_999_950, &none));
    assert!(executor.exceeds_drift_threshold(5_000_001, 94_999_999, &none));
    assert!(executor.exceeds_drift_threshold(5_000_100, 94_999_900, &none));
    assert!(!executor.exceeds_drift_threshold(4_999_999, 95_000_001, &none));
    let third = snapshot(300_000);
    assert!(!executor.exceeds_drift_threshold(35_000_000, 65_000_000, &third));
    assert!(executor.exceeds_drift_threshold(35_000_001, 64_999_999, &third));
    assert!(!executor.exceeds_drift_threshold(25_000_000, 75_000_000, &third));
    assert!(executor.exceeds_drift_threshold(24_999_999, 75_000_001, &third));
    assert!(!executor.exceeds_drift_threshold(30_000_000, 70_000_000, &third));
    assert!(!executor.exceeds_drift_threshold(0, 0, &third));
    assert!(!executor.exceeds_drift_threshold(0, 0, &none));
    let all = snapshot(1_000_000);
    assert!(!executor.exceeds_drift_threshold(u64::MAX, 0, &all));
    assert!(executor.exceeds_drift_threshold(0, u64::MAX, &all));
    assert!(executor.exceeds_drift_threshold(u64::MAX, u64::MAX, &all));
    assert!(executor.exceeds_drift_threshold(u64::MAX, u64::MAX, &none));
    assert!(!executor.exceeds_drift_threshold(u64::MAX, u64::MAX, &snapshot(500_000)));
    assert!(!executor.exceeds_drift_threshold(u64::MAX, u64::MAX, &snapshot(550_000)));
    assert!(executor.exceeds_drift_threshold(u64::MAX, u64::MAX, &snapshot(550_001)));
}

#[test]
fn drift_between_five_percent_and_the_next_rounded_step_triggers() {
    let executor = ApolloExecutor::new();
    let manual = profile(vec![goal("active", false)], vec![strategy_with_crypto_target(0)]);
    let rounded = executor.current_allocation(5_000_050, 94_999_950).unwrap();
    assert_eq!(executor.calculate_drift(&rounded, &snapshot(0)), 50_000);
    assert_eq!(
        executor.monitor_and_rebalance(5_000_050, 94_999_950, &manual),
        RebalanceDecision::Notify
    );
    assert_eq!(
        executor.monitor_and_rebalance(5_000_000, 95_000_000, &manual),
        RebalanceDecision::Hold
    );
}

#[test]
fn nothing_follows_without_a_target_or_a_portfolio() {
    let executor = ApolloExecutor::new();
    let no_strategy = profile(vec![goal("active", true)], Vec::new());
    assert_eq!(
        executor.monitor_and_rebalance(90_000, 10_000, &no_strategy),
        RebalanceDecision::Hold
    );
    let auto = profile(vec![goal("active", true)], vec![strategy_with_crypto_target(300_000)]);
    assert_eq!(executor.monitor_and_rebalance(0, 0, &auto), RebalanceDecision::Hold);
}

#[test]
fn first_active_strategy_gives_the_target() {
    let executor = ApolloExecutor::new();
    let two = profile(
        vec![goal("active", true)],
        vec![strategy_with_crypto_target(900_000), strategy_with_crypto_target(100_000)],
    );
    assert_eq!(
        executor.monitor_and_rebalance(90_000, 10_000, &two),
        RebalanceDecision::Hold
    );
    assert_eq!(
        executor.monitor_and_rebalance(10_000, 90_000, &two),
        RebalanceDecision::Execute
    );
}

#[test]
fn background_loop_survives_failures() {
    assert_eq!(TICK_INTERVAL_SECS, 24 * 60 * 60);
    let next = schedule_next_tick(Ok(()));
    assert_eq!(next.sleep_secs, 86_400);
    assert!(matches!(next.outcome, TickOutcome::Monitored));
    let next = schedule_next_tick(Err("venue unreachable".to_string()));
    assert_eq!(next.sleep_secs, 86_400);
    match next.outcome {
        TickOutcome::Failed(error) => assert_eq!(error, "venue unreachable"),
        other => panic!("unexpected outcome {:?}", other),
    }
}

#[test]
fn primary_goal_is_the_first_active_one() {
    let mut second = goal("active", false);
    second.id = 2;
    let mut third = goal("active", false);
    third.id = 3;
    let p = profile(vec![goal("paused", false), second, third], Vec::new());
    assert_eq!(p.primary_goal().unwrap().id, 2);
    let none = profile(vec![goal("paused", false), goal("Active", false)], Vec::new());
    assert!(none.primary_goal().is_none());
    assert!(profile(Vec::new(), Vec::new()).primary_goal().is_none());
}
