use apollo::engine::{
    EngineAction, EngineError, EngineEvent, EnginePhase, StrategyExecution, Timestamp,
    DEFAULT_TARGET_TOTAL_CENTS, PAUSE_MILLIS,
};
use apollo::executor::{
    ApolloExecutor, ExecutionError, VenueCall, DEFAULT_REFERENCE_PRICE_CENTS, MICROS_PER_SHARE,
};
use apollo::strategy::{
    AllocationSnapshot, ApolloStrategy, StrategyAction, StrategyStatus, TargetAllocation,
};

fn action(asset_class: &str, action_type: &str, symbol: &str, side: &str, amount_cents: u64) -> StrategyAction {
    StrategyAction {
        action_type: action_type.to_string(),
        asset_class: asset_class.to_string(),
        symbol: symbol.to_string(),
        side: side.to_string(),
        amount_cents,
        reason: "test".to_string(),
        priority: 1,
    }
}

fn strategy(actions: Vec<StrategyAction>, goal_id: Option<i64>, total_cents: Option<u64>) -> ApolloStrategy {
    ApolloStrategy {
        id: 5,
        strategy_id: "s-1".to_string(),
        user_id: "alice".to_string(),
        goal_id,
        name: "n".to_string(),
        description: "d".to_string(),
        target_allocation: TargetAllocation {
            weights: AllocationSnapshot::new(500_000, 300_000, 100_000, 100_000).unwrap(),
            total_cents,
        },
        actions,
        expected_annual_return_bps: 800,
        risk_score_milli: 3000,
        time_horizon: "5.0 years".to_string(),
        status: StrategyStatus::Generated,
    }
}

fn at(text: &str, elapsed_ms: u64) -> Timestamp {
    Timestamp { rfc3339: text.to_string(), elapsed_ms }
}

fn step(run: StrategyExecution, event: EngineEvent, text: &str, elapsed_ms: u64) -> (StrategyExecution, EngineAction) {
    run.on_event(event, &at(text, elapsed_ms))
}

fn venue_id(text: &str) -> EngineEvent {
    EngineEvent::VenueId(text.to_string())
}

fn failed(text: &str) -> EngineEvent {
    EngineEvent::Failed(text.to_string())
}

#[test]
fn crypto_action_becomes_a_market_order_for_the_user() {
    let executor = ApolloExecutor::new();
    let a = action("crypto", "buy", "BTC", "buy", 250_000);
    match executor.execute_action(&a, "alice") {
        Ok(VenueCall::PlaceCryptoOrder(order)) => {
            assert_eq!(order.user_id, "alice");
            assert_eq!(order.symbol, "BTC");
            assert_eq!(order.side, "buy");
            assert_eq!(order.amount_cents, 250_000);
            assert_eq!(order.order_type, "market");
        }
        other => panic!("unexpected decision {:?}", other),
    }
}

#[test]
fn stock_action_is_converted_at_the_reference_price() {
    assert_eq!(DEFAULT_REFERENCE_PRICE_CENTS, 10_000);
    assert_eq!(MICROS_PER_SHARE, 1_000_000);
    let executor = ApolloExecutor::new();
    assert_eq!(executor.reference_price_cents(), 10_000);
    let a = action("stocks", "sell", "SPY", "sell", 250_000);
    match executor.execute_action(&a, "alice") {
        Ok(VenueCall::PlaceStockOrder(order)) => {
            assert_eq!(order.symbol, "SPY");
            assert_eq!(order.side, "sell");
            assert_eq!(order.quantity_micros, 25_000_000);
            assert_eq!(order.order_type, "market");
            assert_eq!(order.limit_price_cents, None);
            assert_eq!(order.stop_price_cents, None);
            assert_eq!(order.time_in_force, "day");
        }
        other => panic!("unexpected decision {:?}", other),
    }
    let priced = ApolloExecutor::with_reference_price(30_000).unwrap();
    match priced.execute_stock_action(&action("stocks", "buy", "QQQ", "buy", 100_000)) {
        VenueCall::PlaceStockOrder(order) => assert_eq!(order.quantity_micros, 3_333_333),
        other => panic!("unexpected call {:?}", other),
    }
    let cheap = ApolloExecutor::with_reference_price(1).unwrap();
    match cheap.execute_stock_action(&action("stocks", "buy", "QQQ", "buy", u64::MAX)) {
        VenueCall::PlaceStockOrder(order) => {
            assert_eq!(order.quantity_micros, u64::MAX as u128 * 1_000_000)
        }
        other => panic!("unexpected call {:?}", other),
    }
}

#[test]
fn reference_price_must_be_a_price() {
    assert!(ApolloExecutor::with_reference_price(0).is_none());
    assert_eq!(
        ApolloExecutor::with_reference_price(12_345).unwrap().reference_price_cents(),
        12_345
    );
}

#[test]
fn collectible_action_is_chosen_by_its_kind() {
    let executor = ApolloExecutor::new();
    match executor.execute_action(&action("nft", "breed", "7,9", "buy", 1), "alice") {
        Ok(VenueCall::BreedNft { parent_ids }) => assert_eq!(parent_ids, "7,9"),
        other => panic!("unexpected decision {:?}", other),
    }
    match executor.execute_action(&action("nft", "buy", "token-3", "buy", 9_900), "alice") {
        Ok(VenueCall::BuyNft { token_id, max_price_cents }) => {
            assert_eq!(token_id, "token-3");
            assert_eq!(max_price_cents, 9_900);
        }
        other => panic!("unexpected decision {:?}", other),
    }
    match executor.execute_action(&action("nft", "lock_collateral", "token-4", "", 0), "alice") {
        Ok(VenueCall::LockNftCollateral { token_id }) => assert_eq!(token_id, "token-4"),
        other => panic!("unexpected decision {:?}", other),
    }
    match executor.execute_action(&action("nft", "burn", "token-5", "", 0), "alice") {
        Err(ExecutionError::UnsupportedAction(kind)) => assert_eq!(kind, "burn"),
        other => panic!("unexpected decision {:?}", other),
    }
    match executor.execute_nft_action(&action("crypto", "sell", "token-5", "", 0)) {
        Err(ExecutionError::UnsupportedAction(kind)) => assert_eq!(kind, "sell"),
        other => panic!("unexpected decision {:?}", other),
    }
}

#[test]
fn unknown_asset_class_is_rejected() {
    let executor = ApolloExecutor::new();
    match executor.execute_action(&action("bond", "buy", "T10", "buy", 1), "alice") {
        Err(ExecutionError::UnsupportedAssetClass(class)) => assert_eq!(class, "bond"),
        other => panic!("unexpected decision {:?}", other),
    }
    match executor.execute_action(&action("Crypto", "buy", "BTC", "buy", 1), "alice") {
        Err(ExecutionError::UnsupportedAssetClass(class)) => assert_eq!(class, "Crypto"),
        other => panic!("unexpected decision {:?}", other),
    }
}

#[test]
fn errors_are_recorded_under_their_text() {
    assert_eq!(
        ExecutionError::UnsupportedAssetClass("bond".to_string()).message(),
        "Unknown asset class: bond"
    );
    assert_eq!(
        ExecutionError::UnsupportedAction("burn".to_string()).message(),
        "Unknown NFT action: burn"
    );
    assert_eq!(
        ExecutionError::Venue("connection reset".to_string()).message(),
        "connection reset"
    );
}

#[test]
fn failed_venue_call_does_not_stop_the_later_actions() {
    let executor = ApolloExecutor::new();
    let actions = vec![
        action("crypto", "buy", "BTC", "buy", 100),
        action("crypto", "buy", "ETH", "buy", 200),
        action("stocks", "buy", "SPY", "buy", 30_000),
    ];
    let (run, first) = executor.execute_strategy(strategy(actions, None, None));
    match first {
        EngineAction::MarkExecuting { strategy_id } => assert_eq!(strategy_id, "s-1"),
        other => panic!("unexpected action {:?}", other),
    }
    assert_eq!(run.phase(), EnginePhase::Marking);
    assert_eq!(run.status(), StrategyStatus::Generated);

    let (run, next) = step(run, EngineEvent::Done, "t0", 10);
    assert_eq!(run.status(), StrategyStatus::Executing);
    match next {
        EngineAction::Call(VenueCall::PlaceCryptoOrder(order)) => {
            assert_eq!(order.symbol, "BTC");
            assert_eq!(order.user_id, "alice");
        }
        other => panic!("unexpected action {:?}", other),
    }
    let (run, next) = step(run, venue_id("tx-1"), "t1", 20);
    assert!(matches!(next, EngineAction::Pause { millis: 500 }));
    assert_eq!(PAUSE_MILLIS, 500);
    assert_eq!(run.phase(), EnginePhase::Pausing);

    let (run, next) = step(run, EngineEvent::Done, "t2", 520);
    match next {
        EngineAction::Call(VenueCall::PlaceCryptoOrder(order)) => assert_eq!(order.symbol, "ETH"),
        other => panic!("unexpected action {:?}", other),
    }
    let (run, next) = step(run, failed("connection reset"), "t3", 530);
    assert!(matches!(next, EngineAction::Pause { millis: 500 }));
    assert_eq!(run.status(), StrategyStatus::Executing);

    let (run, next) = step(run, EngineEvent::Done, "t4", 1030);
    match next {
        EngineAction::Call(VenueCall::PlaceStockOrder(order)) => {
            assert_eq!(order.symbol, "SPY");
            assert_eq!(order.quantity_micros, 3_000_000);
        }
        other => panic!("unexpected action {:?}", other),
    }
    let (run, next) = step(run, venue_id("order-3"), "t5", 1040);
    match next {
        EngineAction::CompleteStrategy { strategy_id } => assert_eq!(strategy_id, "s-1"),
        other => panic!("unexpected action {:?}", other),
    }
    assert_eq!(run.phase(), EnginePhase::Completing);
    assert_eq!(run.status(), StrategyStatus::Executing);
    let pending_report = run.report();
    assert_eq!(pending_report.total_executed, 2);
    assert_eq!(pending_report.total_failed, 1);

    let (run, next) = step(run, EngineEvent::Done, "t6", 1100);
    assert!(matches!(next, EngineAction::Finished));
    assert_eq!(run.phase(), EnginePhase::Done);
    assert_eq!(run.status(), StrategyStatus::Completed);

    let report = run.into_report().unwrap();
    assert_eq!(report.strategy_id, "s-1");
    assert_eq!(report.user_id, "alice");
    assert_eq!(report.total_executed, 2);
    assert_eq!(report.total_failed, 1);
    assert_eq!(report.executed.len() + report.failed.len(), 3);
    assert_eq!(report.execution_time_ms, 1040);
    assert_eq!(report.executed[0].action.symbol, "BTC");
    assert_eq!(report.executed[0].result_id, "tx-1");
    assert_eq!(report.executed[0].executed_at, "t1");
    assert_eq!(report.executed[0].executed_price_cents, None);
    assert_eq!(report.executed[1].action.symbol, "SPY");
    assert_eq!(report.executed[1].action.amount_cents, 30_000);
    assert_eq!(report.executed[1].result_id, "order-3");
    assert_eq!(report.executed[1].executed_at, "t5");
    assert_eq!(report.failed[0].action.symbol, "ETH");
    assert_eq!(report.failed[0].error, "connection reset");
    assert_eq!(report.failed[0].failed_at, "t3");
}

#[test]
fn unknown_asset_class_fails_at_once_without_a_venue_call() {
    let executor = ApolloExecutor::new();
    let actions = vec![
        action("bond", "buy", "T10", "buy", 100),
        action("crypto", "buy", "BTC", "buy", 200),
    ];
    let (run, _) = executor.execute_strategy(strategy(actions, None, None));
    let (run, next) = step(run, EngineEvent::Done, "t0", 1);
    assert!(matches!(next, EngineAction::Pause { millis: 500 }));
    let report = run.report();
    assert_eq!(report.total_executed, 0);
    assert_eq!(report.total_failed, 1);
    assert_eq!(report.failed[0].action.asset_class, "bond");
    assert_eq!(report.failed[0].error, "Unknown asset class: bond");
    assert_eq!(report.failed[0].failed_at, "t0");
    let (run, next) = step(run, EngineEvent::Done, "t1", 501);
    assert!(matches!(next, EngineAction::Call(VenueCall::PlaceCryptoOrder(_))));
    let (run, next) = step(run, venue_id("tx"), "t2", 502);
    assert!(matches!(next, EngineAction::CompleteStrategy { .. }));
    let (run, _) = step(run, EngineEvent::Done, "t3", 503);
    let report = run.into_report().unwrap();
    assert_eq!(report.total_executed, 1);
    assert_eq!(report.total_failed, 1);
}

#[test]
fn rejected_last_action_leads_straight_to_completion() {
    let executor = ApolloExecutor::new();
    let actions = vec![
        action("crypto", "buy", "BTC", "buy", 200),
        action("nft", "burn", "token", "", 0),
    ];
    let (run, _) = executor.execute_strategy(strategy(actions, None, None));
    let (run, _) = step(run, EngineEvent::Done, "t0", 1);
    let (run, next) = step(run, venue_id("tx"), "t1", 2);
    assert!(matches!(next, EngineAction::Pause { .. }));
    let (run, next) = step(run, EngineEvent::Done, "t2", 502);
    assert!(matches!(next, EngineAction::CompleteStrategy { .. }));
    let report = run.report();
    assert_eq!(report.execution_time_ms, 502);
    assert_eq!(report.failed[0].error, "Unknown NFT action: burn");
    assert_eq!(report.failed[0].failed_at, "t2");
}

#[test]
fn strategy_without_actions_is_completed_at_once() {
    let executor = ApolloExecutor::new();
    let (run, _) = executor.execute_strategy(strategy(Vec::new(), None, None));
    let (run, next) = step(run, EngineEvent::Done, "t0", 3);
    assert!(matches!(next, EngineAction::CompleteStrategy { .. }));
    let (run, next) = step(run, EngineEvent::Done, "t1", 4);
    assert!(matches!(next, EngineAction::Finished));
    let report = run.into_report().unwrap();
    assert_eq!(report.total_executed, 0);
    assert_eq!(report.total_failed, 0);
    assert!(report.executed.is_empty());
    assert!(report.failed.is_empty());
    assert_eq!(report.execution_time_ms, 3);
}

#[test]
fn goal_progress_is_reported_after_completion() {
    let executor = ApolloExecutor::new();
    let actions = vec![action("crypto", "buy", "BTC", "buy", 200)];
    let (run, _) = executor.execute_strategy(strategy(actions, Some(77), Some(60_000_000)));
    let (run, _) = step(run, EngineEvent::Done, "t0", 1);
    let (run, _) = step(run, venue_id("tx"), "t1", 2);
    let (run, next) = step(run, EngineEvent::Done, "t2", 3);
    match next {
        EngineAction::ValuePortfolio { user_id } => assert_eq!(user_id, "alice"),
        other => panic!("unexpected action {:?}", other),
    }
    assert_eq!(run.phase(), EnginePhase::Valuing);
    assert_eq!(run.status(), StrategyStatus::Completed);
    let (run, next) = step(run, EngineEvent::Value(15_000_000), "t3", 4);
    match next {
        EngineAction::UpdateGoalProgress { goal_id, new_value_cents, pct_to_goal_bps, on_track } => {
            assert_eq!(goal_id, 77);
            assert_eq!(new_value_cents, 15_000_000);
            assert_eq!(pct_to_goal_bps, 2_500);
            assert!(on_track);
        }
        other => panic!("unexpected action {:?}", other),
    }
    assert_eq!(run.phase(), EnginePhase::Updating);
    let (run, next) = step(run, EngineEvent::Done, "t4", 5);
    assert!(matches!(next, EngineAction::Finished));
    assert_eq!(run.into_report().unwrap().total_executed, 1);
}

#[test]
fn goal_progress_is_measured_against_the_default_target() {
    assert_eq!(DEFAULT_TARGET_TOTAL_CENTS, 100_000_000);
    let executor = ApolloExecutor::new();
    let progress = |total: Option<u64>, value: u64| {
        let (run, _) = executor.execute_strategy(strategy(Vec::new(), Some(1), total));
        let (run, _) = step(run, EngineEvent::Done, "t", 0);
        let (run, _) = step(run, EngineEvent::Done, "t", 0);
        match step(run, EngineEvent::Value(value), "t", 0).1 {
            EngineAction::UpdateGoalProgress { pct_to_goal_bps, .. } => pct_to_goal_bps,
            other => panic!("unexpected action {:?}", other),
        }
    };
    assert_eq!(progress(None, 15_000_000), 1_500);
    assert_eq!(progress(None, 0), 0);
    assert_eq!(progress(Some(3), 1), 3_333);
    assert_eq!(progress(Some(0), 1), u64::MAX);
    assert_eq!(progress(Some(1), u64::MAX), u64::MAX);
    assert_eq!(progress(Some(u64::MAX), u64::MAX), 10_000);
}

#[test]
fn store_failure_at_the_mark_ends_the_execution() {
    let executor = ApolloExecutor::new();
    let actions = vec![action("crypto", "buy", "BTC", "buy", 200)];
    let (run, _) = executor.execute_strategy(strategy(actions, None, None));
    let (run, next) = step(run, failed("store down"), "t0", 1);
    match next {
        EngineAction::Abort(error) => assert_eq!(error, "store down"),
        other => panic!("unexpected action {:?}", other),
    }
    assert_eq!(run.phase(), EnginePhase::Failed);
    assert_eq!(run.status(), StrategyStatus::Generated);
    let (run, next) = step(run, EngineEvent::Done, "t1", 2);
    assert!(matches!(next, EngineAction::Ignored));
    match run.into_report() {
        Err(EngineError::ProfileStoreFailure(error)) => assert_eq!(error, "store down"),
        other => panic!("unexpected outcome {:?}", other),
    }
}

#[test]
fn store_failure_at_completion_ends_the_execution() {
    let executor = ApolloExecutor::new();
    let (run, _) = executor.execute_strategy(strategy(Vec::new(), Some(1), None));
    let (run, _) = step(run, EngineEvent::Done, "t0", 1);
    let (run, next) = step(run, failed("write failed"), "t1", 2);
    assert!(matches!(next, EngineAction::Abort(_)));
    assert_eq!(run.status(), StrategyStatus::Executing);
    assert!(matches!(run.into_report(), Err(EngineError::ProfileStoreFailure(_))));
}

#[test]
fn failure_of_valuation_or_goal_update_ends_the_execution() {
    let executor = ApolloExecutor::new();
    let (run, _) = executor.execute_strategy(strategy(Vec::new(), Some(1), None));
    let (run, _) = step(run, EngineEvent::Done, "t0", 1);
    let (run, _) = step(run, EngineEvent::Done, "t1", 2);
    let (run, next) = step(run, failed("venue down"), "t2", 3);
    assert!(matches!(next, EngineAction::Abort(_)));
    assert_eq!(run.status(), StrategyStatus::Completed);

    let (run, _) = executor.execute_strategy(strategy(Vec::new(), Some(1), None));
    let (run, _) = step(run, EngineEvent::Done, "t0", 1);
    let (run, _) = step(run, EngineEvent::Done, "t1", 2);
    let (run, _) = step(run, EngineEvent::Value(5), "t2", 3);
    let (run, next) = step(run, failed("write failed"), "t3", 4);
    match next {
        EngineAction::Abort(error) => assert_eq!(error, "write failed"),
        other => panic!("unexpected action {:?}", other),
    }
    match run.into_report() {
        Err(EngineError::ProfileStoreFailure(error)) => assert_eq!(error, "write failed"),
        other => panic!("unexpected outcome {:?}", other),
    }
}

#[test]
fn unexpected_events_change_nothing() {
    let executor = ApolloExecutor::new();
    let actions = vec![
        action("crypto", "buy", "BTC", "buy", 200),
        action("crypto", "buy", "ETH", "buy", 200),
    ];
    let (run, _) = executor.execute_strategy(strategy(actions, None, None));
    let (run, next) = step(run, venue_id("early"), "t", 0);
    assert!(matches!(next, EngineAction::Ignored));
    assert_eq!(run.phase(), EnginePhase::Marking);
    let (run, next) = step(run, EngineEvent::Value(1), "t", 0);
    assert!(matches!(next, EngineAction::Ignored));
    let (run, _) = step(run, EngineEvent::Done, "t", 0);
    assert_eq!(run.phase(), EnginePhase::Calling);
    let (run, next) = step(run, EngineEvent::Done, "t", 0);
    assert!(matches!(next, EngineAction::Ignored));
    assert_eq!(run.phase(), EnginePhase::Calling);
    let (run, _) = step(run, venue_id("tx"), "t", 0);
    assert_eq!(run.phase(), EnginePhase::Pausing);
    let (run, next) = step(run, failed("nothing was asked"), "t", 0);
    assert!(matches!(next, EngineAction::Ignored));
    let (run, next) = step(run, venue_id("nothing was called"), "t", 0);
    assert!(matches!(next, EngineAction::Ignored));
    assert_eq!(run.phase(), EnginePhase::Pausing);
    assert_eq!(run.report().total_executed, 1);
    assert!(matches!(run.into_report(), Err(EngineError::Unfinished)));
}

#[test]
fn store_is_asked_once_to_mark_and_once_to_complete() {
    let executor = ApolloExecutor::new();
    let actions = vec![
        action("crypto", "buy", "BTC", "buy", 200),
        action("bond", "buy", "T10", "buy", 200),
        action("stocks", "buy", "SPY", "buy", 200),
    ];
    let (mut run, first) = executor.execute_strategy(strategy(actions, Some(3), None));
    let mut marks = 0;
    let mut completions = 0;
    let mut statuses = vec![run.status()];
    let mut action = first;
    for tick in 0..40u64 {
        let event = match &action {
            EngineAction::MarkExecuting { .. } => {
                marks += 1;
                EngineEvent::Done
            }
            EngineAction::CompleteStrategy { .. } => {
                completions += 1;
                EngineEvent::Done
            }
            EngineAction::Call(_) => {
                if tick % 2 == 0 {
                    venue_id("id")
                } else {
                    failed("venue error")
                }
            }
            EngineAction::Pause { .. } | EngineAction::UpdateGoalProgress { .. } => EngineEvent::Done,
            EngineAction::ValuePortfolio { .. } => EngineEvent::Value(1_000),
            EngineAction::Finished | EngineAction::Abort(_) | EngineAction::Ignored => break,
        };
        let next = run.on_event(event, &at("t", tick));
        run = next.0;
        action = next.1;
        if statuses.last() != Some(&run.status()) {
            statuses.push(run.status());
        }
    }
    assert_eq!(marks, 1);
    assert_eq!(completions, 1);
    assert_eq!(
        statuses,
        vec![StrategyStatus::Generated, StrategyStatus::Executing, StrategyStatus::Completed]
    );
    let report = run.into_report().unwrap();
    assert_eq!(report.total_executed + report.total_failed, 3);
    assert_eq!(report.executed.len(), report.total_executed);
    assert_eq!(report.failed.len(), report.total_failed);
}

#[test]
fn status_names() {
    assert_eq!(StrategyStatus::Generated.as_str(), "generated");
    assert_eq!(StrategyStatus::Executing.as_str(), "executing");
    assert_eq!(StrategyStatus::Completed.as_str(), "completed");
    assert_eq!(StrategyStatus::Failed.as_str(), "failed");
}

#[test]
fn snapshot_weights_add_up_to_the_whole() {
    let snapshot = AllocationSnapshot::new(400_000, 100_000, 50_000, 450_000).unwrap();
    assert_eq!(snapshot.stocks_ppm(), 400_000);
    assert_eq!(snapshot.crypto_ppm(), 100_000);
    assert_eq!(snapshot.nfts_ppm(), 50_000);
    assert_eq!(snapshot.cash_ppm(), 450_000);
    assert!(AllocationSnapshot::new(400_000, 100_000, 50_000, 450_001).is_none());
    assert!(AllocationSnapshot::new(0, 0, 0, 0).is_none());
    assert!(AllocationSnapshot::new(u32::MAX, u32::MAX, u32::MAX, u32::MAX).is_none());
    assert!(AllocationSnapshot::new(0, 1_000_000, 0, 0).is_some());
}

#[test]
fn copies_of_records_hold_the_same_values() {
    let a = action("crypto", "buy", "BTC", "buy", 200);
    let b = a.duplicate();
    assert_eq!(a.action_type, b.action_type);
    assert_eq!(a.asset_class, b.asset_class);
    assert_eq!(a.symbol, b.symbol);
    assert_eq!(a.side, b.side);
    assert_eq!(a.amount_cents, b.amount_cents);
    assert_eq!(a.reason, b.reason);
    assert_eq!(a.priority, b.priority);
}
