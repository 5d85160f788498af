//! Query routing: intent classification, agent selection and response synthesis.

use crate::agents::{AgentType, ExecutionStrategy};
use crate::dispatch::{dispatch_start, Dispatch, DispatchAction, DispatchError, DispatchPhase};
use crate::text::{
    decimal, decimal_string, is_substring, lowercase, same_text, str_contains, str_starts_with,
    to_lower,
};
use vstd::string::StringExecFns;
use serde_json::Value;
use uuid::Uuid;
use vstd::prelude::*;

verus! {

/// What the requester has declared about the data that may be consulted.
#[derive(Clone, Debug)]
pub struct AtlasContext {
    pub user_id: String,
    pub entity_id: String,
    pub available_data_types: Vec<String>,
    pub privacy_levels: Vec<String>,
    pub knowledge_base_url: String,
    pub entity_type: String,
}

/// A query as it is submitted.
#[derive(Clone, Debug)]
pub struct QueryRequest {
    pub query: String,
    pub user_id: String,
    pub entity_id: String,
    pub context: AtlasContext,
    pub conversation_id: Option<Uuid>,
}

/// The category of a query.
#[derive(Clone, Copy, Debug, PartialEq, Eq, Hash, Structural)]
pub enum IntentType {
    Search,
    Summarize,
    Analyze,
    Generate,
    Execute,
    Conversation,
}

/// What the classifier derives from a query.
#[derive(Clone, Debug)]
pub struct QueryIntent {
    pub intent_type: IntentType,
    pub data_types: Vec<String>,
    pub entities: Vec<String>,
    pub requires_atlas_data: bool,
}

/// The mathematical content of a [`QueryIntent`].
pub struct IntentView {
    pub intent_type: IntentType,
    pub data_types: Seq<Seq<char>>,
    pub entities: Seq<Seq<char>>,
    pub requires_atlas_data: bool,
}

impl View for QueryIntent {
    type V = IntentView;

    open spec fn view(&self) -> IntentView {
        IntentView {
            intent_type: self.intent_type,
            data_types: self.data_types.deep_view(),
            entities: self.entities.deep_view(),
            requires_atlas_data: self.requires_atlas_data,
        }
    }
}

/// The category that the leading word of a lower-case query selects. The
/// rules are tried in this order and the first that applies decides.
pub open spec fn intent_of(lowered: Seq<char>) -> IntentType {
    if "show"@.is_prefix_of(lowered) || "find"@.is_prefix_of(lowered) {
        IntentType::Search
    } else if "summarize"@.is_prefix_of(lowered) {
        IntentType::Summarize
    } else if "analyze"@.is_prefix_of(lowered) {
        IntentType::Analyze
    } else if "create"@.is_prefix_of(lowered) || "generate"@.is_prefix_of(lowered) {
        IntentType::Generate
    } else if "execute"@.is_prefix_of(lowered) || "trade"@.is_prefix_of(lowered) {
        IntentType::Execute
    } else {
        IntentType::Conversation
    }
}

/// The declared domains whose name occurs in the lower-case query, in the
/// order of their declaration, each once.
pub open spec fn referenced_domains(lowered: Seq<char>, declared: Seq<Seq<char>>) -> Seq<
    Seq<char>,
>
    decreases declared.len(),
{
    if declared.len() == 0 {
        Seq::empty()
    } else {
        let earlier = referenced_domains(lowered, declared.drop_last());
        let domain = declared.last();
        if is_substring(domain, lowered) && !earlier.contains(domain) {
            earlier.push(domain)
        } else {
            earlier
        }
    }
}

/// Whether a lower-case query mentions data that only the knowledge base holds.
pub open spec fn mentions_atlas_data(lowered: Seq<char>) -> bool {
    ||| is_substring("email"@, lowered)
    ||| is_substring("meeting"@, lowered)
    ||| is_substring("transaction"@, lowered)
    ||| is_substring("document"@, lowered)
}

/// The intent of a lower-case query under the declared domains.
pub open spec fn classify(lowered: Seq<char>, declared: Seq<Seq<char>>) -> IntentView {
    IntentView {
        intent_type: intent_of(lowered),
        data_types: referenced_domains(lowered, declared),
        entities: Seq::empty(),
        requires_atlas_data: mentions_atlas_data(lowered),
    }
}

/// Whether `texts` holds `wanted`.
pub fn contains_text(texts: &Vec<String>, wanted: &str) -> (found: bool)
    ensures
        found == texts.deep_view().contains(wanted@),
{
    let mut i: usize = 0;
    while i < texts.len()
        invariant
            i <= texts.len(),
            forall|j: int| 0 <= j < i ==> texts.deep_view()[j] != wanted@,
        decreases texts.len() - i,
    {
        if same_text(texts[i].as_str(), wanted) {
            assert(texts.deep_view()[i as int] == wanted@);
            return true;
        }
        i += 1;
    }
    false
}

/// The category of a query that is already in lower case.
pub fn intent_type_of(lowered: &str) -> (intent_type: IntentType)
    ensures
        intent_type == intent_of(lowered@),
{
    if str_starts_with(lowered, "show") || str_starts_with(lowered, "find") {
        IntentType::Search
    } else if str_starts_with(lowered, "summarize") {
        IntentType::Summarize
    } else if str_starts_with(lowered, "analyze") {
        IntentType::Analyze
    } else if str_starts_with(lowered, "create") || str_starts_with(lowered, "generate") {
        IntentType::Generate
    } else if str_starts_with(lowered, "execute") || str_starts_with(lowered, "trade") {
        IntentType::Execute
    } else {
        IntentType::Conversation
    }
}

/// The declared domains that a lower-case query names.
pub fn domains_in(lowered: &str, declared: &Vec<String>) -> (domains: Vec<String>)
    ensures
        domains.deep_view() == referenced_domains(lowered@, declared.deep_view()),
{
    let mut domains: Vec<String> = Vec::new();
    let mut i: usize = 0;
    assert(declared.deep_view().take(0) =~= Seq::<Seq<char>>::empty());
    while i < declared.len()
        invariant
            i <= declared.len(),
            domains.deep_view() == referenced_domains(lowered@, declared.deep_view().take(i as int)),
        decreases declared.len() - i,
    {
        let ghost before = domains.deep_view();
        let ghost upto = declared.deep_view().take(i as int + 1);
        assert(upto.drop_last() =~= declared.deep_view().take(i as int));
        assert(upto.last() == declared[i as int]@);
        let domain = &declared[i];
        if str_contains(lowered, domain.as_str()) && !contains_text(&domains, domain.as_str()) {
            domains.push(domain.clone());
            assert(domains.deep_view() =~= before.push(domain@));
        }
        i += 1;
    }
    assert(declared.deep_view().take(declared.len() as int) =~= declared.deep_view());
    domains
}

/// Whether a lower-case query needs a lookup in the knowledge base.
pub fn lowered_requires_atlas_data(lowered: &str) -> (needed: bool)
    ensures
        needed == mentions_atlas_data(lowered@),
{
    str_contains(lowered, "email") || str_contains(lowered, "meeting") || str_contains(
        lowered,
        "transaction",
    ) || str_contains(lowered, "document")
}

/// Classifies a query that is already in lower case.
pub fn classify_lowered(lowered: &str, context: &AtlasContext) -> (intent: QueryIntent)
    ensures
        intent@ == classify(lowered@, context.available_data_types.deep_view()),
{
    let intent = QueryIntent {
        intent_type: intent_type_of(lowered),
        data_types: domains_in(lowered, &context.available_data_types),
        entities: Vec::new(),
        requires_atlas_data: lowered_requires_atlas_data(lowered),
    };
    assert(intent.entities.deep_view() =~= Seq::<Seq<char>>::empty());
    intent
}

/// The handlers chosen for a query, and how they are to be run.
#[derive(Clone, Debug)]
pub struct AgentPlan {
    pub primary_agent: AgentType,
    pub supporting_agents: Vec<AgentType>,
    pub execution_strategy: ExecutionStrategy,
    pub estimated_time_ms: u64,
}

/// The latency hint that every plan carries, in milliseconds.
pub const ESTIMATED_TIME_MS: u64 = 1000;

/// Number of entries in the routing table of the primary agent.
pub const PRIMARY_ROUTE_COUNT: usize = 8;

/// The routing table of the primary agent: domains in priority order, each
/// with the agent that answers for it.
pub open spec fn primary_routes() -> Seq<(Seq<char>, AgentType)> {
    seq![
        ("email"@, AgentType::EmailAgent),
        ("meeting"@, AgentType::CalendarAgent),
        ("transaction"@, AgentType::LedgerAgent),
        ("document"@, AgentType::DocumentParser),
        ("code"@, AgentType::CodeEditor),
        ("trade"@, AgentType::TradingAgent),
        ("health"@, AgentType::HealthAgent),
        ("fitness"@, AgentType::FitnessAgent),
    ]
}

/// The primary agent for a set of referenced domains: the agent of the first
/// domain, in priority order, that is referenced; the knowledge agent where
/// none is.
pub open spec fn primary_for(domains: Seq<Seq<char>>) -> AgentType {
    if domains.contains("email"@) {
        AgentType::EmailAgent
    } else if domains.contains("meeting"@) {
        AgentType::CalendarAgent
    } else if domains.contains("transaction"@) {
        AgentType::LedgerAgent
    } else if domains.contains("document"@) {
        AgentType::DocumentParser
    } else if domains.contains("code"@) {
        AgentType::CodeEditor
    } else if domains.contains("trade"@) {
        AgentType::TradingAgent
    } else if domains.contains("health"@) {
        AgentType::HealthAgent
    } else if domains.contains("fitness"@) {
        AgentType::FitnessAgent
    } else {
        AgentType::KnowledgeAgent
    }
}

/// The agent dedicated to one domain, if the domain has one.
pub open spec fn dedicated_handler(domain: Seq<char>) -> Option<AgentType> {
    if domain == "email"@ {
        Some(AgentType::EmailAgent)
    } else if domain == "meeting"@ {
        Some(AgentType::CalendarAgent)
    } else if domain == "transaction"@ {
        Some(AgentType::LedgerAgent)
    } else if domain == "document"@ {
        Some(AgentType::DocumentParser)
    } else if domain == "code"@ {
        Some(AgentType::CodeEditor)
    } else if domain == "trade"@ {
        Some(AgentType::TradingAgent)
    } else if domain == "health"@ {
        Some(AgentType::HealthAgent)
    } else if domain == "fitness"@ {
        Some(AgentType::FitnessAgent)
    } else {
        None
    }
}

/// The supporting agents for the referenced domains: the dedicated agent of
/// each domain in turn, without the primary agent and without repeats.
pub open spec fn supporting_for(domains: Seq<Seq<char>>, primary: AgentType) -> Seq<AgentType>
    decreases domains.len(),
{
    if domains.len() == 0 {
        Seq::empty()
    } else {
        let earlier = supporting_for(domains.drop_last(), primary);
        match dedicated_handler(domains.last()) {
            Some(agent) => if agent != primary && !earlier.contains(agent) {
                earlier.push(agent)
            } else {
                earlier
            },
            None => earlier,
        }
    }
}

/// How a plan with `supporting` supporting agents is run for an intent.
pub open spec fn strategy_for(intent_type: IntentType, supporting: nat) -> ExecutionStrategy {
    if supporting == 0 {
        ExecutionStrategy::Single
    } else {
        match intent_type {
            IntentType::Summarize => ExecutionStrategy::Parallel,
            IntentType::Analyze => ExecutionStrategy::Sequential,
            _ => ExecutionStrategy::Parallel,
        }
    }
}

/// Whether `plan` is the plan that selection derives from `intent`.
pub open spec fn is_plan_for(plan: AgentPlan, intent: IntentView) -> bool {
    &&& plan.primary_agent == primary_for(intent.data_types)
    &&& plan.supporting_agents@ == supporting_for(intent.data_types, plan.primary_agent)
    &&& plan.execution_strategy == strategy_for(
        intent.intent_type,
        plan.supporting_agents@.len(),
    )
    &&& plan.estimated_time_ms == ESTIMATED_TIME_MS
}

/// Walking the routing table in order finds the primary agent: where the
/// domains of the first `rank` routes are not referenced, the route at `rank`
/// decides if its domain is referenced, and the knowledge agent answers once
/// the table is exhausted.
proof fn lemma_first_route_decides(domains: Seq<Seq<char>>, rank: int)
    requires
        0 <= rank <= PRIMARY_ROUTE_COUNT,
        forall|j: int| 0 <= j < rank ==> !domains.contains(#[trigger] primary_routes()[j].0),
        rank < PRIMARY_ROUTE_COUNT ==> domains.contains(primary_routes()[rank].0),
    ensures
        rank < PRIMARY_ROUTE_COUNT ==> primary_for(domains) == primary_routes()[rank].1,
        rank == PRIMARY_ROUTE_COUNT ==> primary_for(domains) == AgentType::KnowledgeAgent,
{
    let routes = primary_routes();
    assert(0 < rank ==> !domains.contains(routes[0].0));
    assert(1 < rank ==> !domains.contains(routes[1].0));
    assert(2 < rank ==> !domains.contains(routes[2].0));
    assert(3 < rank ==> !domains.contains(routes[3].0));
    assert(4 < rank ==> !domains.contains(routes[4].0));
    assert(5 < rank ==> !domains.contains(routes[5].0));
    assert(6 < rank ==> !domains.contains(routes[6].0));
    assert(7 < rank ==> !domains.contains(routes[7].0));
}

/// Classification is a function of the query and the declared domains: two
/// intents that were both derived from the same query under the same
/// declaration are the same intent.
pub proof fn classification_is_deterministic(
    query: Seq<char>,
    declared: Seq<Seq<char>>,
    first: QueryIntent,
    second: QueryIntent,
)
    requires
        first@ == classify(lowercase(query), declared),
        second@ == classify(lowercase(query), declared),
    ensures
        first@ == second@,
{
}

/// A domain is referenced exactly if it is declared and its name occurs in
/// the lower-case query.
pub proof fn referenced_domains_are_the_declared_that_occur(
    lowered: Seq<char>,
    declared: Seq<Seq<char>>,
    domain: Seq<char>,
)
    ensures
        referenced_domains(lowered, declared).contains(domain) <==> declared.contains(domain)
            && is_substring(domain, lowered),
    decreases declared.len(),
{
    if declared.len() > 0 {
        let earlier = referenced_domains(lowered, declared.drop_last());
        let last = declared.last();
        referenced_domains_are_the_declared_that_occur(lowered, declared.drop_last(), domain);
        if declared.contains(domain) {
            let i = choose|i: int| 0 <= i < declared.len() && declared[i] == domain;
            if i < declared.len() - 1 {
                assert(declared.drop_last()[i] == domain);
            }
        }
        if declared.drop_last().contains(domain) {
            let i = choose|i: int|
                0 <= i < declared.drop_last().len() && declared.drop_last()[i] == domain;
            assert(declared[i] == domain);
        }
        assert(declared[declared.len() - 1] == last);
        if is_substring(last, lowered) && !earlier.contains(last) {
            let now = earlier.push(last);
            assert(now[now.len() - 1] == last);
            if earlier.contains(domain) {
                let i = choose|i: int| 0 <= i < earlier.len() && earlier[i] == domain;
                assert(now[i] == domain);
            }
            if now.contains(domain) {
                let i = choose|i: int| 0 <= i < now.len() && now[i] == domain;
                if i < earlier.len() {
                    assert(earlier[i] == domain);
                }
            }
        }
    }
}

/// No domain is referenced twice.
pub proof fn referenced_domains_are_distinct(lowered: Seq<char>, declared: Seq<Seq<char>>)
    ensures
        referenced_domains(lowered, declared).no_duplicates(),
    decreases declared.len(),
{
    if declared.len() > 0 {
        referenced_domains_are_distinct(lowered, declared.drop_last());
    }
}

/// A query that names no declared domain references none.
pub proof fn unmatched_query_references_nothing(lowered: Seq<char>, declared: Seq<Seq<char>>)
    requires
        forall|i: int| 0 <= i < declared.len() ==> !is_substring(#[trigger] declared[i], lowered),
    ensures
        referenced_domains(lowered, declared).len() == 0,
    decreases declared.len(),
{
    if declared.len() > 0 {
        assert forall|i: int| 0 <= i < declared.drop_last().len() implies !is_substring(
            #[trigger] declared.drop_last()[i],
            lowered,
        ) by {
            assert(declared.drop_last()[i] == declared[i]);
        }
        unmatched_query_references_nothing(lowered, declared.drop_last());
        assert(declared.last() == declared[declared.len() - 1]);
    }
}

/// An agent supports exactly if it is not the primary agent and is dedicated
/// to one of the referenced domains.
pub proof fn supporting_agents_are_the_dedicated_others(
    domains: Seq<Seq<char>>,
    primary: AgentType,
    agent: AgentType,
)
    ensures
        supporting_for(domains, primary).contains(agent) <==> agent != primary && exists|i: int|
            0 <= i < domains.len() && dedicated_handler(#[trigger] domains[i]) == Some(agent),
    decreases domains.len(),
{
    if domains.len() > 0 {
        let rest = domains.drop_last();
        let earlier = supporting_for(rest, primary);
        let now = supporting_for(domains, primary);
        supporting_agents_are_the_dedicated_others(rest, primary, agent);
        let n = domains.len() - 1;
        assert(domains.last() == domains[n]);
        if now.contains(agent) {
            let k = choose|k: int| 0 <= k < now.len() && now[k] == agent;
            if k < earlier.len() && earlier[k] == agent {
                let i = choose|i: int|
                    0 <= i < rest.len() && dedicated_handler(#[trigger] rest[i]) == Some(agent);
                assert(domains[i] == rest[i]);
            } else {
                assert(dedicated_handler(domains[n]) == Some(agent));
            }
        }
        if agent != primary && exists|i: int|
            0 <= i < domains.len() && dedicated_handler(#[trigger] domains[i]) == Some(agent) {
            let i = choose|i: int|
                0 <= i < domains.len() && dedicated_handler(#[trigger] domains[i]) == Some(agent);
            if i < n {
                assert(rest[i] == domains[i]);
                let k = choose|k: int| 0 <= k < earlier.len() && earlier[k] == agent;
                assert(now[k] == agent);
            } else {
                if earlier.contains(agent) {
                    let k = choose|k: int| 0 <= k < earlier.len() && earlier[k] == agent;
                    assert(now[k] == agent);
                } else {
                    assert(now == earlier.push(agent));
                    assert(now[now.len() - 1] == agent);
                }
            }
        }
    }
}

/// No agent supports twice, and the primary agent never supports itself.
pub proof fn supporting_agents_are_distinct(domains: Seq<Seq<char>>, primary: AgentType)
    ensures
        supporting_for(domains, primary).no_duplicates(),
        !supporting_for(domains, primary).contains(primary),
    decreases domains.len(),
{
    if domains.len() > 0 {
        supporting_agents_are_distinct(domains.drop_last(), primary);
    }
}

/// The table of dedicated agents covers the routing table of the primary
/// agent: every domain that can select a primary agent has that agent as
/// its dedicated agent.
pub proof fn dedicated_agents_cover_primary_routes(rank: int)
    requires
        0 <= rank < PRIMARY_ROUTE_COUNT,
    ensures
        dedicated_handler(primary_routes()[rank].0) == Some(primary_routes()[rank].1),
{
    reveal_strlit("email");
    reveal_strlit("meeting");
    reveal_strlit("transaction");
    reveal_strlit("document");
    reveal_strlit("code");
    reveal_strlit("trade");
    reveal_strlit("health");
    reveal_strlit("fitness");
    let routes = primary_routes();
    assert("email"@.len() == 5 && "meeting"@.len() == 7 && "transaction"@.len() == 11);
    assert("document"@.len() == 8 && "code"@.len() == 4 && "trade"@.len() == 5);
    assert("health"@.len() == 6 && "fitness"@.len() == 7);
    assert("email"@[0] == 'e' && "trade"@[0] == 't');
    assert("meeting"@[0] == 'm' && "fitness"@[0] == 'f');
}

/// A plan runs the primary agent alone exactly if nothing supports it, and
/// no plan asks for the conditional strategy.
pub proof fn strategy_is_single_without_support(intent_type: IntentType, supporting: nat)
    ensures
        strategy_for(intent_type, supporting) == ExecutionStrategy::Single <==> supporting == 0,
        strategy_for(intent_type, supporting) != ExecutionStrategy::Conditional,
{
}

/// One entry of the routing table of the primary agent.
fn primary_route(rank: usize) -> (route: (&'static str, AgentType))
    requires
        rank < PRIMARY_ROUTE_COUNT,
    ensures
        (route.0@, route.1) == primary_routes()[rank as int],
{
    if rank == 0 {
        ("email", AgentType::EmailAgent)
    } else if rank == 1 {
        ("meeting", AgentType::CalendarAgent)
    } else if rank == 2 {
        ("transaction", AgentType::LedgerAgent)
    } else if rank == 3 {
        ("document", AgentType::DocumentParser)
    } else if rank == 4 {
        ("code", AgentType::CodeEditor)
    } else if rank == 5 {
        ("trade", AgentType::TradingAgent)
    } else if rank == 6 {
        ("health", AgentType::HealthAgent)
    } else {
        ("fitness", AgentType::FitnessAgent)
    }
}

/// The agent dedicated to a domain.
pub fn dedicated_agent(domain: &str) -> (agent: Option<AgentType>)
    ensures
        agent == dedicated_handler(domain@),
{
    if same_text(domain, "email") {
        Some(AgentType::EmailAgent)
    } else if same_text(domain, "meeting") {
        Some(AgentType::CalendarAgent)
    } else if same_text(domain, "transaction") {
        Some(AgentType::LedgerAgent)
    } else if same_text(domain, "document") {
        Some(AgentType::DocumentParser)
    } else if same_text(domain, "code") {
        Some(AgentType::CodeEditor)
    } else if same_text(domain, "trade") {
        Some(AgentType::TradingAgent)
    } else if same_text(domain, "health") {
        Some(AgentType::HealthAgent)
    } else if same_text(domain, "fitness") {
        Some(AgentType::FitnessAgent)
    } else {
        None
    }
}

/// Whether `agents` holds `wanted`.
pub fn contains_agent(agents: &Vec<AgentType>, wanted: AgentType) -> (found: bool)
    ensures
        found == agents@.contains(wanted),
{
    let mut i: usize = 0;
    while i < agents.len()
        invariant
            i <= agents.len(),
            forall|j: int| 0 <= j < i ==> agents@[j] != wanted,
        decreases agents.len() - i,
    {
        if agents[i] == wanted {
            return true;
        }
        i += 1;
    }
    false
}

/// Number of basis points in a confidence of one.
pub const FULL_CONFIDENCE: u16 = 10_000;

/// The confidence that every synthesized response carries, in basis points.
pub const OVERALL_CONFIDENCE: u16 = 8_500;

/// A confidence score between zero and one, held in basis points.
#[derive(Clone, Copy, Debug)]
pub struct Confidence {
    basis_points: u16,
}

impl View for Confidence {
    type V = nat;

    closed spec fn view(&self) -> nat {
        self.basis_points as nat
    }
}

impl Confidence {
    #[verifier::type_invariant]
    spec fn bounded(self) -> bool {
        self.basis_points <= FULL_CONFIDENCE
    }

    /// The confidence of `basis_points` hundredths of a percent, if that is
    /// at most one.
    pub fn from_basis_points(basis_points: u16) -> (confidence: Option<Confidence>)
        ensures
            confidence is Some <==> basis_points <= FULL_CONFIDENCE,
            confidence matches Some(c) ==> c@ == basis_points,
    {
        if basis_points <= FULL_CONFIDENCE {
            Some(Confidence { basis_points })
        } else {
            None
        }
    }

    /// The score in basis points.
    pub fn basis_points(&self) -> (basis_points: u16)
        ensures
            basis_points == self@,
            basis_points <= FULL_CONFIDENCE,
    {
        proof {
            use_type_invariant(self);
        }
        self.basis_points
    }
}

/// What a handler hands back when it succeeds.
#[derive(Clone, Debug)]
pub struct HandlerReply {
    pub data: Value,
    pub confidence: Confidence,
}

/// The result of one handler.
#[derive(Clone, Debug)]
pub struct AgentResult {
    pub agent: AgentType,
    pub data: Value,
    pub confidence: Confidence,
}

/// The one answer that a query gets.
#[derive(Debug)]
pub struct ApolloResponse {
    pub query_id: Uuid,
    pub answer: String,
    pub data: Vec<Value>,
    pub summary: Option<String>,
    pub suggestions: Vec<String>,
    pub related_queries: Vec<String>,
    pub agents_used: Vec<AgentType>,
    pub execution_time_ms: u64,
    pub confidence: Confidence,
}

/// Whether `response` is the synthesis of `results` for a query.
///
/// The payloads and the agents stand in the order of the results. The
/// answer, the summary and the two lists of follow-ups have a fixed form,
/// and the overall confidence is the same for every response.
pub open spec fn is_synthesis_of(
    response: ApolloResponse,
    query_id: Uuid,
    query: Seq<char>,
    results: Seq<AgentResult>,
    execution_time_ms: u64,
) -> bool {
    &&& response.query_id == query_id
    &&& response.answer@ == "Processed query: "@ + query
    &&& response.data@ == results.map_values(|r: AgentResult| r.data)
    &&& response.agents_used@ == results.map_values(|r: AgentResult| r.agent)
    &&& response.summary matches Some(summary) && summary@ == "Used "@ + decimal(results.len())
        + " agents"@
    &&& response.suggestions.deep_view() == seq!["Refine search"@, "Show more details"@]
    &&& response.related_queries.deep_view() == seq!["Show similar results"@]
    &&& response.execution_time_ms == execution_time_ms
    &&& response.confidence@ == OVERALL_CONFIDENCE
}

/// Routes queries to the specialised agents.
pub struct ApolloRouter {}

impl Default for ApolloRouter {
    /// The router; it holds no state of its own.
    fn default() -> (router: Self)
        ensures
            router == (ApolloRouter {  }),
    {
        ApolloRouter::new()
    }
}

impl ApolloRouter {
    pub fn new() -> (router: Self) {
        ApolloRouter {  }
    }

    /// Derives the intent of a query. Classification never fails: a query that
    /// no rule matches is a conversation without referenced domains.
    pub fn analyze_intent(&self, query: &str, context: &AtlasContext) -> (intent: QueryIntent)
        ensures
            intent@ == classify(lowercase(query@), context.available_data_types.deep_view()),
    {
        let lowered = to_lower(query);
        classify_lowered(lowered.as_str(), context)
    }

    /// Puts the plan for an intent together. Selection never fails.
    pub fn select_agents(&self, intent: &QueryIntent, context: &AtlasContext) -> (plan: AgentPlan)
        ensures
            is_plan_for(plan, intent@),
    {
        let primary_agent = self.select_primary_agent(intent, context);
        let supporting_agents = self.select_supporting_agents(intent, context);
        let execution_strategy = self.determine_strategy(intent, &supporting_agents);
        AgentPlan {
            primary_agent,
            supporting_agents,
            execution_strategy,
            estimated_time_ms: ESTIMATED_TIME_MS,
        }
    }

    /// The agent that must answer: the first entry of the routing table whose
    /// domain the query references, the knowledge agent where there is none.
    pub fn select_primary_agent(&self, intent: &QueryIntent, context: &AtlasContext) -> (agent:
        AgentType)
        ensures
            agent == primary_for(intent@.data_types),
    {
        let mut rank: usize = 0;
        while rank < PRIMARY_ROUTE_COUNT
            invariant
                rank <= PRIMARY_ROUTE_COUNT,
                forall|j: int|
                    0 <= j < rank ==> !intent@.data_types.contains(#[trigger] primary_routes()[j].0),
            decreases PRIMARY_ROUTE_COUNT - rank,
        {
            let route = primary_route(rank);
            if contains_text(&intent.data_types, route.0) {
                proof {
                    lemma_first_route_decides(intent@.data_types, rank as int);
                }
                return route.1;
            }
            rank += 1;
        }
        proof {
            lemma_first_route_decides(intent@.data_types, PRIMARY_ROUTE_COUNT as int);
        }
        AgentType::KnowledgeAgent
    }

    /// The agents that add to the primary agent's answer: the dedicated agent
    /// of every referenced domain, each once, the primary agent left out.
    pub fn select_supporting_agents(&self, intent: &QueryIntent, context: &AtlasContext) -> (agents:
        Vec<AgentType>)
        ensures
            agents@ == supporting_for(intent@.data_types, primary_for(intent@.data_types)),
    {
        let primary = self.select_primary_agent(intent, context);
        let mut agents: Vec<AgentType> = Vec::new();
        let mut i: usize = 0;
        let ghost domains = intent@.data_types;
        assert(domains.take(0) =~= Seq::<Seq<char>>::empty());
        while i < intent.data_types.len()
            invariant
                i <= intent.data_types.len(),
                domains == intent.data_types.deep_view(),
                agents@ == supporting_for(domains.take(i as int), primary),
            decreases intent.data_types.len() - i,
        {
            let ghost upto = domains.take(i as int + 1);
            assert(upto.drop_last() =~= domains.take(i as int));
            assert(upto.last() == intent.data_types[i as int]@);
            match dedicated_agent(intent.data_types[i].as_str()) {
                Some(agent) => {
                    if agent != primary && !contains_agent(&agents, agent) {
                        agents.push(agent);
                    }
                },
                None => {},
            }
            i += 1;
        }
        assert(domains.take(intent.data_types.len() as int) =~= domains);
        agents
    }

    /// How the plan is run: the primary agent alone where nothing supports
    /// it; one after the other for an analysis; side by side otherwise.
    pub fn determine_strategy(&self, intent: &QueryIntent, supporting_agents: &Vec<AgentType>) -> (strategy:
        ExecutionStrategy)
        ensures
            strategy == strategy_for(intent.intent_type, supporting_agents@.len()),
    {
        if supporting_agents.len() == 0 {
            ExecutionStrategy::Single
        } else {
            match intent.intent_type {
                IntentType::Summarize => ExecutionStrategy::Parallel,
                IntentType::Analyze => ExecutionStrategy::Sequential,
                _ => ExecutionStrategy::Parallel,
            }
        }
    }

    /// Merges the results of a dispatch into one response.
    pub fn synthesize_response(
        &self,
        query_id: Uuid,
        query: &str,
        results: Vec<AgentResult>,
        primary_agent: AgentType,
        execution_time_ms: u64,
    ) -> (response: ApolloResponse)
        ensures
            is_synthesis_of(response, query_id, query@, results@, execution_time_ms),
    {
        let mut data: Vec<Value> = Vec::new();
        let mut agents_used: Vec<AgentType> = Vec::new();
        let mut i: usize = 0;
        while i < results.len()
            invariant
                i <= results.len(),
                data@ == results@.take(i as int).map_values(|r: AgentResult| r.data),
                agents_used@ == results@.take(i as int).map_values(|r: AgentResult| r.agent),
            decreases results.len() - i,
        {
            data.push(results[i].data.clone());
            agents_used.push(results[i].agent);
            assert(data@ =~= results@.take(i as int + 1).map_values(|r: AgentResult| r.data));
            assert(agents_used@ =~= results@.take(i as int + 1).map_values(
                |r: AgentResult| r.agent,
            ));
            i += 1;
        }
        assert(results@.take(results.len() as int) =~= results@);
        let answer = String::from_str("Processed query: ").concat(query);
        let count = decimal_string(agents_used.len() as u64);
        let summary = String::from_str("Used ").concat(count.as_str()).concat(" agents");
        let mut suggestions: Vec<String> = Vec::new();
        suggestions.push(String::from_str("Refine search"));
        suggestions.push(String::from_str("Show more details"));
        assert(suggestions.deep_view() =~= seq!["Refine search"@, "Show more details"@]);
        let mut related_queries: Vec<String> = Vec::new();
        related_queries.push(String::from_str("Show similar results"));
        assert(related_queries.deep_view() =~= seq!["Show similar results"@]);
        let confidence = Confidence { basis_points: OVERALL_CONFIDENCE };
        ApolloResponse {
            query_id,
            answer,
            data,
            summary: Some(summary),
            suggestions,
            related_queries,
            agents_used,
            execution_time_ms,
            confidence,
        }
    }

    /// Begins the dispatch of a plan: see [`Dispatch::begin`].
    pub fn execute_agents(&self, plan: AgentPlan) -> (run: (Dispatch, DispatchAction))
        ensures
            (run.0@, run.1@) == dispatch_start(
                plan.primary_agent,
                plan.supporting_agents@,
                plan.execution_strategy,
            ),
    {
        Dispatch::begin(plan)
    }

    /// Takes a query up: classifies it, selects its handlers and begins
    /// their dispatch. The caller invokes the handlers as the dispatch asks
    /// and ends with [`ApolloRouter::complete_query`].
    pub fn route_query(&self, request: &QueryRequest) -> (run: (Dispatch, DispatchAction))
        ensures
            ({
                let intent = classify(
                    lowercase(request.query@),
                    request.context.available_data_types.deep_view(),
                );
                let primary = primary_for(intent.data_types);
                let supporting = supporting_for(intent.data_types, primary);
                (run.0@, run.1@) == dispatch_start(
                    primary,
                    supporting,
                    strategy_for(intent.intent_type, supporting.len()),
                )
            }),
    {
        let intent = self.analyze_intent(request.query.as_str(), &request.context);
        let plan = self.select_agents(&intent, &request.context);
        self.execute_agents(plan)
    }

    /// Ends a query. A finished dispatch is synthesized into the response. A
    /// dispatch whose primary handler failed gives that error and no
    /// response is synthesized; so does one that has not finished.
    pub fn complete_query(
        &self,
        query_id: Uuid,
        query: &str,
        dispatch: Dispatch,
        execution_time_ms: u64,
    ) -> (outcome: Result<ApolloResponse, DispatchError>)
        ensures
            dispatch@.phase == DispatchPhase::Finished ==> (outcome matches Ok(response)
                && is_synthesis_of(
                response,
                query_id,
                query@,
                dispatch@.results,
                execution_time_ms,
            ) && response.agents_used@.len() >= 1 && response.agents_used@[0]
                == dispatch@.primary),
            dispatch@.phase == DispatchPhase::Failed ==> (outcome matches Err(
                DispatchError::PrimaryHandlerFailed(error),
            ) && error@ == dispatch@.error),
            dispatch@.phase == DispatchPhase::Primary || dispatch@.phase
                == DispatchPhase::Supporting ==> outcome matches Err(DispatchError::Unfinished),
    {
        match dispatch.into_results() {
            Ok(results) => {
                let first = results[0].agent;
                Ok(self.synthesize_response(query_id, query, results, first, execution_time_ms))
            },
            Err(error) => Err(error),
        }
    }

    /// The declared domains that the query names.
    pub fn extract_data_types(&self, query: &str, context: &AtlasContext) -> (domains: Vec<String>)
        ensures
            domains.deep_view() == referenced_domains(
                lowercase(query@),
                context.available_data_types.deep_view(),
            ),
    {
        let lowered = to_lower(query);
        domains_in(lowered.as_str(), &context.available_data_types)
    }

    /// The named entities of a query. No entity recogniser is attached, so
    /// none are found.
    pub fn extract_entities(&self, query: &str) -> (entities: Vec<String>)
        ensures
            entities@.len() == 0,
    {
        Vec::new()
    }

    /// Whether the query needs a lookup in the knowledge base.
    pub fn requires_atlas_data(&self, query: &str) -> (needed: bool)
        ensures
            needed == mentions_atlas_data(lowercase(query@)),
    {
        let lowered = to_lower(query);
        lowered_requires_atlas_data(lowered.as_str())
    }
}

} // verus!
