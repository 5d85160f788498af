use apollo::agents::{AgentType, ExecutionStrategy};
use apollo::dispatch::{Dispatch, DispatchAction, DispatchError, DispatchPhase};
use apollo::router::{
    AgentPlan, AgentResult, ApolloRouter, AtlasContext, Confidence, HandlerReply, QueryRequest,
    FULL_CONFIDENCE, OVERALL_CONFIDENCE,
};
use serde_json::Value;
use uuid::Uuid;

fn plan(primary: AgentType, supporting: &[AgentType], strategy: ExecutionStrategy) -> AgentPlan {
    AgentPlan {
        primary_agent: primary,
        supporting_agents: supporting.to_vec(),
        execution_strategy: strategy,
        estimated_time_ms: 1000,
    }
}

fn reply(text: &str, basis_points: u16) -> Result<HandlerReply, String> {
    Ok(HandlerReply {
        data: Value::String(text.to_string()),
        confidence: Confidence::from_basis_points(basis_points).unwrap(),
    })
}

fn failure(text: &str) -> Result<HandlerReply, String> {
    Err(text.to_string())
}

fn agents_of(results: &[AgentResult]) -> Vec<AgentType> {
    results.iter().map(|r| r.agent).collect()
}

fn payloads_of(results: &[AgentResult]) -> Vec<Value> {
    results.iter().map(|r| r.data.clone()).collect()
}

fn request(query: &str, domains: &[&str]) -> QueryRequest {
    QueryRequest {
        query: query.to_string(),
        user_id: "u1".to_string(),
        entity_id: "e1".to_string(),
        context: AtlasContext {
            user_id: "u1".to_string(),
            entity_id: "e1".to_string(),
            available_data_types: domains.iter().map(|d| d.to_string()).collect(),
            privacy_levels: Vec::new(),
            knowledge_base_url: String::new(),
            entity_type: "Personal".to_string(),
        },
        conversation_id: Some(Uuid::from_u128(7)),
    }
}

#[test]
fn confidence_is_at_most_one() {
    assert_eq!(FULL_CONFIDENCE, 10_000);
    assert_eq!(Confidence::from_basis_points(0).unwrap().basis_points(), 0);
    assert_eq!(Confidence::from_basis_points(8000).unwrap().basis_points(), 8000);
    assert_eq!(Confidence::from_basis_points(10_000).unwrap().basis_points(), 10_000);
    assert!(Confidence::from_basis_points(10_001).is_none());
    assert!(Confidence::from_basis_points(u16::MAX).is_none());
}

#[test]
fn dispatch_begins_with_the_primary_handler() {
    let (dispatch, action) = Dispatch::begin(plan(
        AgentType::EmailAgent,
        &[AgentType::LedgerAgent],
        ExecutionStrategy::Parallel,
    ));
    assert!(matches!(action, DispatchAction::Invoke(AgentType::EmailAgent)));
    assert_eq!(dispatch.phase(), DispatchPhase::Primary);
    assert_eq!(dispatch.pending(), &vec![AgentType::EmailAgent]);
    assert!(matches!(dispatch.into_results(), Err(DispatchError::Unfinished)));
}

#[test]
fn single_strategy_skips_the_supporting_handlers() {
    let (dispatch, _) = Dispatch::begin(plan(
        AgentType::EmailAgent,
        &[AgentType::LedgerAgent],
        ExecutionStrategy::Single,
    ));
    let (dispatch, action) = dispatch.on_outcome(AgentType::EmailAgent, reply("mail", 8000));
    assert!(matches!(action, DispatchAction::Finished));
    assert_eq!(dispatch.phase(), DispatchPhase::Finished);
    let results = dispatch.into_results().unwrap();
    assert_eq!(agents_of(&results), vec![AgentType::EmailAgent]);
    assert_eq!(results[0].confidence.basis_points(), 8000);
}

#[test]
fn conditional_strategy_is_dispatched_like_single() {
    let (dispatch, _) = Dispatch::begin(plan(
        AgentType::EmailAgent,
        &[AgentType::LedgerAgent],
        ExecutionStrategy::Conditional,
    ));
    let (dispatch, action) = dispatch.on_outcome(AgentType::EmailAgent, reply("mail", 8000));
    assert!(matches!(action, DispatchAction::Finished));
    assert_eq!(agents_of(&dispatch.into_results().unwrap()), vec![AgentType::EmailAgent]);
}

#[test]
fn parallel_dispatch_collects_in_order_of_arrival() {
    let supporting = [AgentType::LedgerAgent, AgentType::HealthAgent, AgentType::Sage];
    let (dispatch, _) =
        Dispatch::begin(plan(AgentType::EmailAgent, &supporting, ExecutionStrategy::Parallel));
    let (dispatch, action) = dispatch.on_outcome(AgentType::EmailAgent, reply("mail", 9000));
    match action {
        DispatchAction::InvokeAll(agents) => assert_eq!(agents, supporting.to_vec()),
        other => panic!("unexpected action {:?}", other),
    }
    assert_eq!(dispatch.phase(), DispatchPhase::Supporting);
    assert_eq!(dispatch.pending(), &supporting.to_vec());
    let (dispatch, action) = dispatch.on_outcome(AgentType::Sage, reply("sage", 100));
    assert!(matches!(action, DispatchAction::Await));
    assert_eq!(
        dispatch.pending(),
        &vec![AgentType::LedgerAgent, AgentType::HealthAgent]
    );
    let (dispatch, action) = dispatch.on_outcome(AgentType::LedgerAgent, reply("ledger", 200));
    assert!(matches!(action, DispatchAction::Await));
    let (dispatch, action) = dispatch.on_outcome(AgentType::HealthAgent, reply("health", 300));
    assert!(matches!(action, DispatchAction::Finished));
    let results = dispatch.into_results().unwrap();
    assert_eq!(
        agents_of(&results),
        vec![
            AgentType::EmailAgent,
            AgentType::Sage,
            AgentType::LedgerAgent,
            AgentType::HealthAgent
        ]
    );
    assert_eq!(
        payloads_of(&results),
        vec![
            Value::String("mail".to_string()),
            Value::String("sage".to_string()),
            Value::String("ledger".to_string()),
            Value::String("health".to_string())
        ]
    );
}

#[test]
fn sequential_dispatch_invokes_one_at_a_time() {
    let supporting = [AgentType::LedgerAgent, AgentType::HealthAgent];
    let (dispatch, _) =
        Dispatch::begin(plan(AgentType::EmailAgent, &supporting, ExecutionStrategy::Sequential));
    let (dispatch, action) = dispatch.on_outcome(AgentType::EmailAgent, reply("mail", 9000));
    assert!(matches!(action, DispatchAction::Invoke(AgentType::LedgerAgent)));
    assert_eq!(dispatch.pending(), &vec![AgentType::LedgerAgent]);
    let (dispatch, action) = dispatch.on_outcome(AgentType::LedgerAgent, reply("ledger", 1));
    assert!(matches!(action, DispatchAction::Invoke(AgentType::HealthAgent)));
    let (dispatch, action) = dispatch.on_outcome(AgentType::HealthAgent, reply("health", 2));
    assert!(matches!(action, DispatchAction::Finished));
    assert_eq!(
        agents_of(&dispatch.into_results().unwrap()),
        vec![AgentType::EmailAgent, AgentType::LedgerAgent, AgentType::HealthAgent]
    );
}

#[test]
fn supporting_failure_in_parallel_keeps_the_other_results() {
    let supporting = [AgentType::LedgerAgent, AgentType::HealthAgent];
    let (dispatch, _) =
        Dispatch::begin(plan(AgentType::EmailAgent, &supporting, ExecutionStrategy::Parallel));
    let (dispatch, _) = dispatch.on_outcome(AgentType::EmailAgent, reply("mail", 9000));
    let (dispatch, action) = dispatch.on_outcome(AgentType::LedgerAgent, failure("ledger down"));
    assert!(matches!(action, DispatchAction::Await));
    assert_eq!(dispatch.phase(), DispatchPhase::Supporting);
    let (dispatch, action) = dispatch.on_outcome(AgentType::HealthAgent, reply("health", 300));
    assert!(matches!(action, DispatchAction::Finished));
    let isolated = dispatch.isolated_failures();
    assert_eq!(isolated.len(), 1);
    assert_eq!(isolated[0].agent, AgentType::LedgerAgent);
    assert_eq!(isolated[0].error, "ledger down");
    let results = dispatch.into_results().unwrap();
    assert_eq!(
        agents_of(&results),
        vec![AgentType::EmailAgent, AgentType::HealthAgent]
    );
}

#[test]
fn supporting_failure_in_sequence_does_not_stop_the_rest() {
    let supporting = [AgentType::LedgerAgent, AgentType::HealthAgent];
    let (dispatch, _) =
        Dispatch::begin(plan(AgentType::EmailAgent, &supporting, ExecutionStrategy::Sequential));
    let (dispatch, _) = dispatch.on_outcome(AgentType::EmailAgent, reply("mail", 9000));
    let (dispatch, action) = dispatch.on_outcome(AgentType::LedgerAgent, failure("ledger down"));
    assert!(matches!(action, DispatchAction::Invoke(AgentType::HealthAgent)));
    let (dispatch, action) = dispatch.on_outcome(AgentType::HealthAgent, failure("health down"));
    assert!(matches!(action, DispatchAction::Finished));
    assert_eq!(dispatch.isolated_failures().len(), 2);
    assert_eq!(
        agents_of(&dispatch.into_results().unwrap()),
        vec![AgentType::EmailAgent]
    );
}

#[test]
fn primary_failure_ends_the_dispatch() {
    let supporting = [AgentType::LedgerAgent];
    let (dispatch, _) =
        Dispatch::begin(plan(AgentType::EmailAgent, &supporting, ExecutionStrategy::Parallel));
    let (dispatch, action) = dispatch.on_outcome(AgentType::EmailAgent, failure("mail down"));
    match action {
        DispatchAction::Abort(error) => assert_eq!(error, "mail down"),
        other => panic!("unexpected action {:?}", other),
    }
    assert_eq!(dispatch.phase(), DispatchPhase::Failed);
    assert!(dispatch.pending().is_empty());
    let (dispatch, action) = dispatch.on_outcome(AgentType::LedgerAgent, reply("ledger", 1));
    assert!(matches!(action, DispatchAction::Ignored));
    match dispatch.into_results() {
        Err(DispatchError::PrimaryHandlerFailed(error)) => assert_eq!(error, "mail down"),
        other => panic!("unexpected outcome {:?}", other),
    }
}

#[test]
fn unexpected_outcomes_change_nothing() {
    let supporting = [AgentType::LedgerAgent];
    let (dispatch, _) =
        Dispatch::begin(plan(AgentType::EmailAgent, &supporting, ExecutionStrategy::Parallel));
    let (dispatch, action) = dispatch.on_outcome(AgentType::LedgerAgent, reply("early", 1));
    assert!(matches!(action, DispatchAction::Ignored));
    assert_eq!(dispatch.phase(), DispatchPhase::Primary);
    let (dispatch, _) = dispatch.on_outcome(AgentType::EmailAgent, reply("mail", 1));
    let (dispatch, action) = dispatch.on_outcome(AgentType::EmailAgent, reply("again", 1));
    assert!(matches!(action, DispatchAction::Ignored));
    let (dispatch, action) = dispatch.on_outcome(AgentType::LedgerAgent, reply("ledger", 1));
    assert!(matches!(action, DispatchAction::Finished));
    let (dispatch, action) = dispatch.on_outcome(AgentType::LedgerAgent, reply("late", 1));
    assert!(matches!(action, DispatchAction::Ignored));
    assert_eq!(
        payloads_of(&dispatch.into_results().unwrap()),
        vec![Value::String("mail".to_string()), Value::String("ledger".to_string())]
    );
}

#[test]
fn repeated_supporting_handler_is_invoked_as_often_as_planned() {
    let supporting = [AgentType::Sage, AgentType::Quant, AgentType::Sage];
    let (dispatch, _) =
        Dispatch::begin(plan(AgentType::EmailAgent, &supporting, ExecutionStrategy::Parallel));
    let (dispatch, _) = dispatch.on_outcome(AgentType::EmailAgent, reply("mail", 1));
    let (dispatch, _) = dispatch.on_outcome(AgentType::Sage, reply("first", 1));
    assert_eq!(dispatch.pending(), &vec![AgentType::Quant, AgentType::Sage]);
    let (dispatch, _) = dispatch.on_outcome(AgentType::Sage, reply("second", 1));
    assert_eq!(dispatch.pending(), &vec![AgentType::Quant]);
    let (dispatch, action) = dispatch.on_outcome(AgentType::Sage, reply("third", 1));
    assert!(matches!(action, DispatchAction::Ignored));
    let (dispatch, action) = dispatch.on_outcome(AgentType::Quant, reply("quant", 1));
    assert!(matches!(action, DispatchAction::Finished));
    assert_eq!(dispatch.into_results().unwrap().len(), 4);
}

#[test]
fn synthesis_has_the_fixed_form() {
    let router = ApolloRouter::new();
    let results = vec![
        AgentResult {
            agent: AgentType::LedgerAgent,
            data: Value::String("ledger".to_string()),
            confidence: Confidence::from_basis_points(8000).unwrap(),
        },
        AgentResult {
            agent: AgentType::EmailAgent,
            data: Value::Bool(true),
            confidence: Confidence::from_basis_points(1).unwrap(),
        },
    ];
    let id = Uuid::from_u128(42);
    let response =
        router.synthesize_response(id, "show my transactions", results, AgentType::LedgerAgent, 17);
    assert_eq!(response.query_id, id);
    assert_eq!(response.answer, "Processed query: show my transactions");
    assert_eq!(
        response.data,
        vec![Value::String("ledger".to_string()), Value::Bool(true)]
    );
    assert_eq!(response.summary, Some("Used 2 agents".to_string()));
    assert_eq!(
        response.suggestions,
        vec!["Refine search".to_string(), "Show more details".to_string()]
    );
    assert_eq!(response.related_queries, vec!["Show similar results".to_string()]);
    assert_eq!(
        response.agents_used,
        vec![AgentType::LedgerAgent, AgentType::EmailAgent]
    );
    assert_eq!(response.execution_time_ms, 17);
    assert_eq!(response.confidence.basis_points(), OVERALL_CONFIDENCE);
    assert_eq!(response.confidence.basis_points(), 8500);
    assert!(response.confidence.basis_points() <= FULL_CONFIDENCE);
}

#[test]
fn synthesis_counts_many_agents_in_decimal() {
    let router = ApolloRouter::new();
    let results: Vec<AgentResult> = (0..12)
        .map(|_| AgentResult {
            agent: AgentType::Sage,
            data: Value::Null,
            confidence: Confidence::from_basis_points(0).unwrap(),
        })
        .collect();
    let response = router.synthesize_response(Uuid::nil(), "", results, AgentType::Sage, 0);
    assert_eq!(response.summary, Some("Used 12 agents".to_string()));
    assert_eq!(response.answer, "Processed query: ");
    assert_eq!(response.data.len(), 12);
    let empty = router.synthesize_response(Uuid::nil(), "q", Vec::new(), AgentType::Sage, 0);
    assert_eq!(empty.summary, Some("Used 0 agents".to_string()));
    assert!(empty.agents_used.is_empty());
}

#[test]
fn query_is_routed_dispatched_and_completed() {
    let router = ApolloRouter::new();
    let req = request("Summarize each email about a transaction", &["transaction", "email"]);
    let (dispatch, action) = router.route_query(&req);
    assert!(matches!(action, DispatchAction::Invoke(AgentType::EmailAgent)));
    let (dispatch, action) = dispatch.on_outcome(AgentType::EmailAgent, reply("mail", 8000));
    match action {
        DispatchAction::InvokeAll(agents) => assert_eq!(agents, vec![AgentType::LedgerAgent]),
        other => panic!("unexpected action {:?}", other),
    }
    let (dispatch, action) = dispatch.on_outcome(AgentType::LedgerAgent, failure("ledger down"));
    assert!(matches!(action, DispatchAction::Finished));
    let id = Uuid::from_u128(9);
    let response = router
        .complete_query(id, req.query.as_str(), dispatch, 250)
        .unwrap();
    assert_eq!(response.query_id, id);
    assert_eq!(response.agents_used, vec![AgentType::EmailAgent]);
    assert_eq!(response.data, vec![Value::String("mail".to_string())]);
    assert_eq!(response.summary, Some("Used 1 agents".to_string()));
    assert_eq!(response.execution_time_ms, 250);
    assert_eq!(
        response.answer,
        "Processed query: Summarize each email about a transaction"
    );
}

#[test]
fn primary_failure_gives_an_error_and_no_response() {
    let router = ApolloRouter::new();
    let req = request("show my transactions", &["transaction", "email"]);
    let (dispatch, action) = router.route_query(&req);
    assert!(matches!(action, DispatchAction::Invoke(AgentType::LedgerAgent)));
    let (dispatch, action) = dispatch.on_outcome(AgentType::LedgerAgent, failure("unreachable"));
    assert!(matches!(action, DispatchAction::Abort(_)));
    match router.complete_query(Uuid::nil(), req.query.as_str(), dispatch, 5) {
        Err(DispatchError::PrimaryHandlerFailed(error)) => assert_eq!(error, "unreachable"),
        other => panic!("unexpected outcome {:?}", other),
    }
}

#[test]
fn unfinished_dispatch_gives_no_response() {
    let router = ApolloRouter::new();
    let (dispatch, _) = router.execute_agents(plan(
        AgentType::EmailAgent,
        &[AgentType::LedgerAgent],
        ExecutionStrategy::Sequential,
    ));
    assert!(matches!(
        router.complete_query(Uuid::nil(), "q", dispatch, 5),
        Err(DispatchError::Unfinished)
    ));
    let (dispatch, _) = router.execute_agents(plan(
        AgentType::EmailAgent,
        &[AgentType::LedgerAgent],
        ExecutionStrategy::Sequential,
    ));
    let (dispatch, _) = dispatch.on_outcome(AgentType::EmailAgent, reply("mail", 1));
    assert!(matches!(
        router.complete_query(Uuid::nil(), "q", dispatch, 5),
        Err(DispatchError::Unfinished)
    ));
}
