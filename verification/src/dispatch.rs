//! The multi-agent dispatcher: which handler to invoke next, and what becomes
//! of each outcome.
//!
//! Invoking a handler is the caller's work. The dispatcher hands out the next
//! request as a [`DispatchAction`] and takes each outcome back through
//! [`Dispatch::on_outcome`].

use crate::agents::{AgentType, ExecutionStrategy};
use crate::router::{AgentPlan, AgentResult, HandlerReply};
use vstd::prelude::*;

verus! {

/// How long the caller is to wait for one handler, in milliseconds. A
/// handler that has not answered by then is reported as failed, so that a
/// slow supporting handler is set aside like any other that fails.
pub const HANDLER_TIMEOUT_MILLIS: u64 = 30_000;

/// Where a dispatch stands.
#[derive(Clone, Copy, Debug, PartialEq, Eq, Structural)]
pub enum DispatchPhase {
    /// The primary handler has been invoked and has not answered yet.
    Primary,
    /// The primary handler has answered; supporting handlers are outstanding.
    Supporting,
    /// Every handler that was invoked has answered.
    Finished,
    /// The primary handler failed; there is nothing to synthesize.
    Failed,
}

/// What the caller is to do next.
#[derive(Debug)]
pub enum DispatchAction {
    /// Invoke this handler and report its outcome.
    Invoke(AgentType),
    /// Invoke these handlers concurrently and report each outcome as it comes.
    InvokeAll(Vec<AgentType>),
    /// Nothing new to start: outcomes of handlers already invoked are outstanding.
    Await,
    /// The dispatch is complete; collect the results.
    Finished,
    /// The primary handler failed with this error; the dispatch has ended.
    Abort(String),
    /// The outcome was not expected and has changed nothing.
    Ignored,
}

/// The mathematical content of a [`DispatchAction`].
pub enum DispatchActionView {
    Invoke(AgentType),
    InvokeAll(Seq<AgentType>),
    Await,
    Finished,
    Abort(Seq<char>),
    Ignored,
}

impl View for DispatchAction {
    type V = DispatchActionView;

    open spec fn view(&self) -> DispatchActionView {
        match self {
            DispatchAction::Invoke(agent) => DispatchActionView::Invoke(*agent),
            DispatchAction::InvokeAll(agents) => DispatchActionView::InvokeAll(agents@),
            DispatchAction::Await => DispatchActionView::Await,
            DispatchAction::Finished => DispatchActionView::Finished,
            DispatchAction::Abort(error) => DispatchActionView::Abort(error@),
            DispatchAction::Ignored => DispatchActionView::Ignored,
        }
    }
}

/// A supporting handler whose failure was set aside.
#[derive(Clone, Debug)]
pub struct IsolatedFailure {
    pub agent: AgentType,
    pub error: String,
}

impl DeepView for IsolatedFailure {
    type V = (AgentType, Seq<char>);

    open spec fn deep_view(&self) -> (AgentType, Seq<char>) {
        (self.agent, self.error@)
    }
}

/// The mathematical content of a [`Dispatch`].
pub struct DispatchView {
    pub primary: AgentType,
    pub supporting: Seq<AgentType>,
    pub strategy: ExecutionStrategy,
    pub phase: DispatchPhase,
    /// How many of the supporting handlers have been invoked.
    pub launched: nat,
    /// The handlers that were invoked and have not answered.
    pub pending: Seq<AgentType>,
    /// The results so far, the primary handler's first.
    pub results: Seq<AgentResult>,
    /// The supporting handlers that failed, each with its error.
    pub isolated: Seq<(AgentType, Seq<char>)>,
    /// The primary handler's error, once the dispatch has failed.
    pub error: Seq<char>,
}

/// `agents` without the first occurrence of `agent`.
pub open spec fn without_first(agents: Seq<AgentType>, agent: AgentType) -> Seq<AgentType>
    decreases agents.len(),
{
    if agents.len() == 0 {
        agents
    } else if agents[0] == agent {
        agents.drop_first()
    } else {
        seq![agents[0]] + without_first(agents.drop_first(), agent)
    }
}

/// The outcome of a handler as the contracts read it.
pub open spec fn outcome_view(outcome: Result<HandlerReply, String>) -> Result<
    HandlerReply,
    Seq<char>,
> {
    match outcome {
        Ok(reply) => Ok(reply),
        Err(error) => Err(error@),
    }
}

/// The result that a successful reply of `agent` is recorded as.
pub open spec fn result_of(agent: AgentType, reply: HandlerReply) -> AgentResult {
    AgentResult { agent, data: reply.data, confidence: reply.confidence }
}

/// The state in which a dispatch begins, and its first action: the primary
/// handler is always invoked.
pub open spec fn dispatch_start(
    primary: AgentType,
    supporting: Seq<AgentType>,
    strategy: ExecutionStrategy,
) -> (DispatchView, DispatchActionView) {
    (
        DispatchView {
            primary,
            supporting,
            strategy,
            phase: DispatchPhase::Primary,
            launched: 0,
            pending: seq![primary],
            results: Seq::empty(),
            isolated: Seq::empty(),
            error: Seq::empty(),
        },
        DispatchActionView::Invoke(primary),
    )
}

/// What follows once nothing is pending: the supporting handlers that have
/// not been invoked are started as the strategy says, all at once or the
/// next one alone; where none is left, or the strategy has no supporting
/// step, the dispatch is finished.
pub open spec fn dispatch_advance(s: DispatchView) -> (DispatchView, DispatchActionView) {
    let finished = (
        DispatchView { phase: DispatchPhase::Finished, pending: Seq::empty(), ..s },
        DispatchActionView::Finished,
    );
    if s.launched >= s.supporting.len() {
        finished
    } else {
        match s.strategy {
            ExecutionStrategy::Parallel => {
                let rest = s.supporting.skip(s.launched as int);
                (
                    DispatchView {
                        phase: DispatchPhase::Supporting,
                        pending: rest,
                        launched: s.supporting.len(),
                        ..s
                    },
                    DispatchActionView::InvokeAll(rest),
                )
            },
            ExecutionStrategy::Sequential => {
                let next = s.supporting[s.launched as int];
                (
                    DispatchView {
                        phase: DispatchPhase::Supporting,
                        pending: seq![next],
                        launched: s.launched + 1,
                        ..s
                    },
                    DispatchActionView::Invoke(next),
                )
            },
            _ => finished,
        }
    }
}

/// One step of a dispatch: the state after `agent` has reported `outcome`,
/// and the next action.
///
/// An outcome is expected while the dispatch runs and its handler is
/// pending; any other changes nothing. The primary handler's failure ends
/// the dispatch. A supporting handler's failure is set aside and the
/// dispatch goes on.
pub open spec fn dispatch_step(
    s: DispatchView,
    agent: AgentType,
    outcome: Result<HandlerReply, Seq<char>>,
) -> (DispatchView, DispatchActionView) {
    if s.phase == DispatchPhase::Finished || s.phase == DispatchPhase::Failed
        || !s.pending.contains(agent) {
        (s, DispatchActionView::Ignored)
    } else if s.phase == DispatchPhase::Primary {
        match outcome {
            Err(error) => (
                DispatchView { phase: DispatchPhase::Failed, pending: Seq::empty(), error, ..s },
                DispatchActionView::Abort(error),
            ),
            Ok(reply) => dispatch_advance(
                DispatchView {
                    pending: Seq::empty(),
                    results: s.results.push(result_of(agent, reply)),
                    ..s
                },
            ),
        }
    } else {
        let pending = without_first(s.pending, agent);
        let recorded = match outcome {
            Ok(reply) => DispatchView {
                pending,
                results: s.results.push(result_of(agent, reply)),
                ..s
            },
            Err(error) => DispatchView {
                pending,
                isolated: s.isolated.push((agent, error)),
                ..s
            },
        };
        if pending.len() > 0 {
            (recorded, DispatchActionView::Await)
        } else {
            dispatch_advance(recorded)
        }
    }
}

/// What holds of every state that a dispatch can reach.
///
/// The primary handler's result is the first of the results. No supporting
/// handler is invoked before the primary handler has answered, and none
/// after it has failed. Every supporting handler that was invoked is
/// pending or has a result or a failure set aside, and never two of these.
pub open spec fn dispatch_inv(s: DispatchView) -> bool {
    &&& s.launched <= s.supporting.len()
    &&& match s.phase {
        DispatchPhase::Primary => {
            &&& s.pending == seq![s.primary]
            &&& s.results.len() == 0
            &&& s.isolated.len() == 0
            &&& s.launched == 0
        },
        DispatchPhase::Failed => {
            &&& s.pending.len() == 0
            &&& s.results.len() == 0
            &&& s.isolated.len() == 0
            &&& s.launched == 0
        },
        DispatchPhase::Supporting => {
            &&& s.results.len() >= 1
            &&& s.results[0].agent == s.primary
            &&& s.pending.len() > 0
            &&& s.results.len() - 1 + s.isolated.len() + s.pending.len() == s.launched
            &&& s.strategy == ExecutionStrategy::Parallel || s.strategy
                == ExecutionStrategy::Sequential
        },
        DispatchPhase::Finished => {
            &&& s.results.len() >= 1
            &&& s.results[0].agent == s.primary
            &&& s.pending.len() == 0
            &&& s.results.len() - 1 + s.isolated.len() == s.launched
            &&& (s.strategy == ExecutionStrategy::Parallel || s.strategy
                == ExecutionStrategy::Sequential) ==> s.launched == s.supporting.len()
            &&& (s.strategy == ExecutionStrategy::Single || s.strategy
                == ExecutionStrategy::Conditional) ==> s.launched == 0
        },
    }
}


/// Removing the first occurrence of a handler that is pending leaves one
/// handler fewer.
pub proof fn lemma_without_first_len(agents: Seq<AgentType>, agent: AgentType)
    requires
        agents.contains(agent),
    ensures
        without_first(agents, agent).len() == agents.len() - 1,
    decreases agents.len(),
{
    if agents[0] != agent {
        let i = choose|i: int| 0 <= i < agents.len() && agents[i] == agent;
        assert(agents.drop_first()[i - 1] == agent);
        lemma_without_first_len(agents.drop_first(), agent);
    }
}

/// Where `at` is the first position of `agent`, removing the first
/// occurrence is removing position `at`.
proof fn lemma_without_first_is_remove(agents: Seq<AgentType>, agent: AgentType, at: int)
    requires
        0 <= at < agents.len(),
        agents[at] == agent,
        forall|j: int| 0 <= j < at ==> agents[j] != agent,
    ensures
        without_first(agents, agent) == agents.remove(at),
    decreases agents.len(),
{
    if at == 0 {
        assert(agents.drop_first() =~= agents.remove(0));
    } else {
        let rest = agents.drop_first();
        assert forall|j: int| 0 <= j < at - 1 implies rest[j] != agent by {
            assert(rest[j] == agents[j + 1]);
        }
        lemma_without_first_is_remove(rest, agent, at - 1);
        assert(seq![agents[0]] + rest.remove(at - 1) =~= agents.remove(at));
    }
}

/// How often `agent` stands in `agents`.
pub open spec fn occurrences(agents: Seq<AgentType>, agent: AgentType) -> nat
    decreases agents.len(),
{
    if agents.len() == 0 {
        0
    } else {
        occurrences(agents.drop_last(), agent) + if agents.last() == agent {
            1nat
        } else {
            0nat
        }
    }
}

/// The supporting handlers that have a result, in the order of the results.
pub open spec fn answered(s: DispatchView) -> Seq<AgentType> {
    s.results.skip(1).map_values(|r: AgentResult| r.agent)
}

/// The supporting handlers whose failure was set aside, in that order.
pub open spec fn set_aside(s: DispatchView) -> Seq<AgentType> {
    s.isolated.map_values(|f: (AgentType, Seq<char>)| f.0)
}

/// Every invocation of a supporting handler is accounted for: as often as a
/// handler was invoked, it is pending, has a result, or has a failure set
/// aside. Before the primary handler has answered, and after it has failed,
/// no supporting handler was invoked.
pub open spec fn dispatch_accounted(s: DispatchView) -> bool {
    s.phase == DispatchPhase::Supporting || s.phase == DispatchPhase::Finished ==> forall|
        agent: AgentType,
    |
        occurrences(answered(s), agent) + occurrences(set_aside(s), agent) + occurrences(
            s.pending,
            agent,
        ) == occurrences(s.supporting.take(s.launched as int), agent)
}

/// Occurrences add up over the parts of a sequence.
proof fn lemma_occurrences_of_parts(front: Seq<AgentType>, back: Seq<AgentType>, agent: AgentType)
    ensures
        occurrences(front + back, agent) == occurrences(front, agent) + occurrences(back, agent),
    decreases back.len(),
{
    if back.len() == 0 {
        assert(front + back =~= front);
    } else {
        lemma_occurrences_of_parts(front, back.drop_last(), agent);
        assert((front + back).drop_last() =~= front + back.drop_last());
        assert((front + back).last() == back.last());
    }
}

/// A single handler occurs once, and only as itself.
proof fn lemma_occurrences_of_one(one: AgentType, agent: AgentType)
    ensures
        occurrences(seq![one], agent) == if one == agent {
            1nat
        } else {
            0nat
        },
{
    assert(seq![one].drop_last() =~= Seq::<AgentType>::empty());
    assert(seq![one].last() == one);
    assert(occurrences(Seq::<AgentType>::empty(), agent) == 0);
}

/// Removing the first occurrence of a handler takes one occurrence of that
/// handler away and none of any other.
proof fn lemma_occurrences_without_first(agents: Seq<AgentType>, gone: AgentType, agent: AgentType)
    requires
        agents.contains(gone),
    ensures
        occurrences(without_first(agents, gone), agent) + (if gone == agent {
            1nat
        } else {
            0nat
        }) == occurrences(agents, agent),
    decreases agents.len(),
{
    let rest = agents.drop_first();
    assert(agents =~= seq![agents[0]] + rest);
    lemma_occurrences_of_parts(seq![agents[0]], rest, agent);
    lemma_occurrences_of_one(agents[0], agent);
    if agents[0] != gone {
        let i = choose|i: int| 0 <= i < agents.len() && agents[i] == gone;
        assert(rest[i - 1] == gone);
        lemma_occurrences_without_first(rest, gone, agent);
        lemma_occurrences_of_parts(seq![agents[0]], without_first(rest, gone), agent);
    }
}

/// Every step keeps the account of the supporting handlers.
pub proof fn dispatch_step_keeps_account(
    s: DispatchView,
    agent: AgentType,
    outcome: Result<HandlerReply, Seq<char>>,
)
    requires
        dispatch_inv(s),
        dispatch_accounted(s),
    ensures
        dispatch_accounted(dispatch_step(s, agent, outcome).0),
{
    let after = dispatch_step(s, agent, outcome).0;
    if s.phase == DispatchPhase::Finished || s.phase == DispatchPhase::Failed
        || !s.pending.contains(agent) {
    } else if s.phase == DispatchPhase::Primary {
        if let Ok(reply) = outcome {
            let recorded = DispatchView {
                pending: Seq::empty(),
                results: s.results.push(result_of(agent, reply)),
                ..s
            };
            assert(answered(recorded) =~= Seq::<AgentType>::empty());
            assert(set_aside(recorded) =~= Seq::<AgentType>::empty());
            assert(recorded.supporting.take(0) =~= Seq::<AgentType>::empty());
            assert(answered(after) == answered(recorded));
            assert(set_aside(after) == set_aside(recorded));
            assert forall|other: AgentType|
                occurrences(answered(after), other) + occurrences(set_aside(after), other)
                    + occurrences(after.pending, other) == occurrences(
                    after.supporting.take(after.launched as int),
                    other,
                ) by {
                lemma_advance_keeps_account(recorded, other);
            }
        }
    } else {
        let pending = without_first(s.pending, agent);
        let recorded = match outcome {
            Ok(reply) => DispatchView {
                pending,
                results: s.results.push(result_of(agent, reply)),
                ..s
            },
            Err(error) => DispatchView { pending, isolated: s.isolated.push((agent, error)), ..s },
        };
        assert forall|other: AgentType|
            occurrences(answered(recorded), other) + occurrences(set_aside(recorded), other)
                + occurrences(recorded.pending, other) == occurrences(
                recorded.supporting.take(recorded.launched as int),
                other,
            ) by {
            lemma_occurrences_without_first(s.pending, agent, other);
            lemma_occurrences_of_one(agent, other);
            match outcome {
                Ok(reply) => {
                    assert(answered(recorded) =~= answered(s) + seq![agent]);
                    lemma_occurrences_of_parts(answered(s), seq![agent], other);
                },
                Err(error) => {
                    assert(set_aside(recorded) =~= set_aside(s) + seq![agent]);
                    lemma_occurrences_of_parts(set_aside(s), seq![agent], other);
                },
            }
        }
        if pending.len() == 0 {
            assert(answered(after) == answered(recorded));
            assert(set_aside(after) == set_aside(recorded));
            assert forall|other: AgentType|
                occurrences(answered(after), other) + occurrences(set_aside(after), other)
                    + occurrences(after.pending, other) == occurrences(
                    after.supporting.take(after.launched as int),
                    other,
                ) by {
                lemma_advance_keeps_account(recorded, other);
            }
        }
    }
}

/// Starting what is left of the supporting handlers keeps the account.
proof fn lemma_advance_keeps_account(s: DispatchView, agent: AgentType)
    requires
        s.launched <= s.supporting.len(),
        s.pending.len() == 0,
        occurrences(answered(s), agent) + occurrences(set_aside(s), agent) == occurrences(
            s.supporting.take(s.launched as int),
            agent,
        ),
    ensures
        ({
            let after = dispatch_advance(s).0;
            occurrences(answered(s), agent) + occurrences(set_aside(s), agent) + occurrences(
                after.pending,
                agent,
            ) == occurrences(after.supporting.take(after.launched as int), agent)
        }),
{
    let after = dispatch_advance(s).0;
    let launched = s.launched as int;
    assert(occurrences(Seq::<AgentType>::empty(), agent) == 0);
    if s.launched < s.supporting.len() {
        match s.strategy {
            ExecutionStrategy::Parallel => {
                assert(s.supporting.take(s.supporting.len() as int) =~= s.supporting.take(launched)
                    + s.supporting.skip(launched));
                lemma_occurrences_of_parts(
                    s.supporting.take(launched),
                    s.supporting.skip(launched),
                    agent,
                );
            },
            ExecutionStrategy::Sequential => {
                assert(s.supporting.take(launched + 1) =~= s.supporting.take(launched)
                    + seq![s.supporting[launched]]);
                lemma_occurrences_of_parts(
                    s.supporting.take(launched),
                    seq![s.supporting[launched]],
                    agent,
                );
            },
            _ => {},
        }
    }
}

/// When a dispatch with supporting handlers has finished, every supporting
/// handler of the plan has been invoked as often as the plan names it, and
/// each invocation has given a result or a failure that was set aside.
pub proof fn finished_dispatch_has_heard_every_handler(s: DispatchView, agent: AgentType)
    requires
        dispatch_inv(s),
        dispatch_accounted(s),
        s.phase == DispatchPhase::Finished,
        s.strategy == ExecutionStrategy::Parallel || s.strategy == ExecutionStrategy::Sequential,
    ensures
        occurrences(answered(s), agent) + occurrences(set_aside(s), agent) == occurrences(
            s.supporting,
            agent,
        ),
{
    assert(s.supporting.take(s.supporting.len() as int) =~= s.supporting);
    assert(occurrences(s.pending, agent) == 0);
}

/// A dispatch begins in a state that the invariant admits.
pub proof fn dispatch_start_is_sound(
    primary: AgentType,
    supporting: Seq<AgentType>,
    strategy: ExecutionStrategy,
)
    ensures
        dispatch_inv(dispatch_start(primary, supporting, strategy).0),
        dispatch_accounted(dispatch_start(primary, supporting, strategy).0),
{
}

/// Every step leads from a state that the invariant admits to another.
pub proof fn dispatch_step_is_sound(
    s: DispatchView,
    agent: AgentType,
    outcome: Result<HandlerReply, Seq<char>>,
)
    requires
        dispatch_inv(s),
    ensures
        dispatch_inv(dispatch_step(s, agent, outcome).0),
{
    if s.pending.contains(agent) {
        lemma_without_first_len(s.pending, agent);
    }
}

/// The failure of a supporting handler is isolated: the results collected so
/// far stay as they are, the dispatch does not fail, and the failure is set
/// aside with its error.
pub proof fn supporting_failure_is_isolated(s: DispatchView, agent: AgentType, error: Seq<char>)
    requires
        dispatch_inv(s),
        s.phase == DispatchPhase::Supporting,
        s.pending.contains(agent),
    ensures
        ({
            let (after, action) = dispatch_step(s, agent, Err(error));
            &&& after.results == s.results
            &&& after.isolated == s.isolated.push((agent, error))
            &&& after.phase == DispatchPhase::Supporting || after.phase == DispatchPhase::Finished
            &&& !(action is Abort)
            &&& !(action is Ignored)
        }),
{
}

/// No step removes a result: what was collected before a step is the
/// beginning of what is collected after it.
pub proof fn results_are_kept(
    s: DispatchView,
    agent: AgentType,
    outcome: Result<HandlerReply, Seq<char>>,
)
    ensures
        s.results.is_prefix_of(dispatch_step(s, agent, outcome).0.results),
{
}

/// The action of a step names exactly what the step has started: a handler
/// is pending after a step if it was pending before and has not answered,
/// or if the action asks for it to be invoked. A step that finishes or
/// aborts leaves nothing pending, and a step that waits or ignores starts
/// nothing.
pub proof fn action_names_what_is_started(
    s: DispatchView,
    agent: AgentType,
    outcome: Result<HandlerReply, Seq<char>>,
)
    requires
        dispatch_inv(s),
    ensures
        ({
            let (after, action) = dispatch_step(s, agent, outcome);
            match action {
                DispatchActionView::Invoke(started) => after.pending == seq![started]
                    && after.phase == DispatchPhase::Supporting,
                DispatchActionView::InvokeAll(started) => after.pending == started && after.phase
                    == DispatchPhase::Supporting,
                DispatchActionView::Await => after.pending == without_first(s.pending, agent)
                    && after.phase == DispatchPhase::Supporting,
                DispatchActionView::Finished => after.pending.len() == 0 && after.phase
                    == DispatchPhase::Finished,
                DispatchActionView::Abort(error) => after.pending.len() == 0 && after.phase
                    == DispatchPhase::Failed && after.error == error,
                DispatchActionView::Ignored => after == s,
            }
        }),
{
}

/// The failure of the primary handler ends the dispatch with its error,
/// before any supporting handler has been invoked.
pub proof fn primary_failure_is_fatal(s: DispatchView, error: Seq<char>)
    requires
        dispatch_inv(s),
        s.phase == DispatchPhase::Primary,
    ensures
        ({
            let (after, action) = dispatch_step(s, s.primary, Err(error));
            &&& after.phase == DispatchPhase::Failed
            &&& after.error == error
            &&& after.results.len() == 0
            &&& after.launched == 0
            &&& action == DispatchActionView::Abort(error)
        }),
{
    assert(s.pending[0] == s.primary);
}

/// A dispatch that has failed or finished stays as it is: every later
/// outcome is ignored and nothing more is invoked.
pub proof fn ended_dispatch_is_final(
    s: DispatchView,
    agent: AgentType,
    outcome: Result<HandlerReply, Seq<char>>,
)
    requires
        s.phase == DispatchPhase::Failed || s.phase == DispatchPhase::Finished,
    ensures
        dispatch_step(s, agent, outcome) == (s, DispatchActionView::Ignored),
{
}

/// Why a dispatch has no results to give.
#[derive(Debug)]
pub enum DispatchError {
    /// The primary handler failed with this error.
    PrimaryHandlerFailed(String),
    /// Handlers are still outstanding.
    Unfinished,
}

/// The dispatch of one plan.
#[derive(Debug)]
pub struct Dispatch {
    primary: AgentType,
    supporting: Vec<AgentType>,
    strategy: ExecutionStrategy,
    phase: DispatchPhase,
    launched: usize,
    pending: Vec<AgentType>,
    results: Vec<AgentResult>,
    isolated: Vec<IsolatedFailure>,
    error: String,
}

impl View for Dispatch {
    type V = DispatchView;

    closed spec fn view(&self) -> DispatchView {
        DispatchView {
            primary: self.primary,
            supporting: self.supporting@,
            strategy: self.strategy,
            phase: self.phase,
            launched: self.launched as nat,
            pending: self.pending@,
            results: self.results@,
            isolated: self.isolated.deep_view(),
            error: self.error@,
        }
    }
}

/// The position of the first occurrence of `agent`, if there is one.
fn first_position(agents: &Vec<AgentType>, agent: AgentType) -> (at: Option<usize>)
    ensures
        at is Some <==> agents@.contains(agent),
        at matches Some(i) ==> i < agents.len() && agents@[i as int] == agent && forall|j: int|
            0 <= j < i ==> agents@[j] != agent,
{
    let mut i: usize = 0;
    while i < agents.len()
        invariant
            i <= agents.len(),
            forall|j: int| 0 <= j < i ==> agents@[j] != agent,
        decreases agents.len() - i,
    {
        if agents[i] == agent {
            return Some(i);
        }
        i += 1;
    }
    None
}

/// The handlers of `agents` from position `from` on.
fn agents_from(agents: &Vec<AgentType>, from: usize) -> (rest: Vec<AgentType>)
    requires
        from <= agents.len(),
    ensures
        rest@ == agents@.skip(from as int),
{
    let mut rest: Vec<AgentType> = Vec::new();
    let mut i: usize = from;
    while i < agents.len()
        invariant
            from <= i <= agents.len(),
            rest@ == agents@.subrange(from as int, i as int),
        decreases agents.len() - i,
    {
        rest.push(agents[i]);
        assert(rest@ =~= agents@.subrange(from as int, i as int + 1));
        i += 1;
    }
    assert(agents@.subrange(from as int, agents.len() as int) =~= agents@.skip(from as int));
    rest
}

impl Dispatch {
    #[verifier::type_invariant]
    spec fn sound(self) -> bool {
        dispatch_inv(self@) && dispatch_accounted(self@)
    }

    /// Begins the dispatch of `plan`. The first action is always to invoke
    /// the primary handler.
    pub fn begin(plan: AgentPlan) -> (run: (Dispatch, DispatchAction))
        ensures
            (run.0@, run.1@) == dispatch_start(
                plan.primary_agent,
                plan.supporting_agents@,
                plan.execution_strategy,
            ),
            dispatch_inv(run.0@),
            dispatch_accounted(run.0@),
    {
        let primary = plan.primary_agent;
        let mut pending: Vec<AgentType> = Vec::new();
        pending.push(primary);
        assert(pending@ =~= seq![primary]);
        let dispatch = Dispatch {
            primary,
            supporting: plan.supporting_agents,
            strategy: plan.execution_strategy,
            phase: DispatchPhase::Primary,
            launched: 0,
            pending,
            results: Vec::new(),
            isolated: Vec::new(),
            error: String::new(),
        };
        assert(dispatch.isolated.deep_view() =~= Seq::empty());
        assert(dispatch.results@ =~= Seq::empty());
        (dispatch, DispatchAction::Invoke(primary))
    }

    /// Takes the outcome that `agent` has reported and says what to do next.
    pub fn on_outcome(self, agent: AgentType, outcome: Result<HandlerReply, String>) -> (next: (
        Dispatch,
        DispatchAction,
    ))
        ensures
            (next.0@, next.1@) == dispatch_step(self@, agent, outcome_view(outcome)),
            dispatch_inv(next.0@),
            dispatch_accounted(next.0@),
    {
        proof {
            use_type_invariant(&self);
            dispatch_step_is_sound(self@, agent, outcome_view(outcome));
            dispatch_step_keeps_account(self@, agent, outcome_view(outcome));
        }
        let ghost before = self@;
        let at = match self.phase {
            DispatchPhase::Finished | DispatchPhase::Failed => None,
            _ => first_position(&self.pending, agent),
        };
        let at: usize = match at {
            None => {
                return (self, DispatchAction::Ignored);
            },
            Some(i) => i,
        };
        proof {
            lemma_without_first_is_remove(before.pending, agent, at as int);
        }
        let Dispatch {
            primary,
            supporting,
            strategy,
            phase,
            launched,
            mut pending,
            mut results,
            mut isolated,
            error,
        } = self;
        match phase {
            DispatchPhase::Primary => {
                match outcome {
                    Err(failure) => {
                        let text = failure.clone();
                        let failed = Dispatch {
                            primary,
                            supporting,
                            strategy,
                            phase: DispatchPhase::Failed,
                            launched,
                            pending: Vec::new(),
                            results,
                            isolated,
                            error: failure,
                        };
                        (failed, DispatchAction::Abort(text))
                    },
                    Ok(reply) => {
                        results.push(
                            AgentResult { agent, data: reply.data, confidence: reply.confidence },
                        );
                        Self::advance(primary, supporting, strategy, launched, results, isolated, error)
                    },
                }
            },
            _ => {
                pending.remove(at);
                match outcome {
                    Ok(reply) => {
                        results.push(
                            AgentResult { agent, data: reply.data, confidence: reply.confidence },
                        );
                    },
                    Err(failure) => {
                        let ghost earlier = isolated.deep_view();
                        isolated.push(IsolatedFailure { agent, error: failure });
                        assert(isolated.deep_view() =~= earlier.push((agent, failure@)));
                    },
                }
                if pending.len() > 0 {
                    let waiting = Dispatch {
                        primary,
                        supporting,
                        strategy,
                        phase: DispatchPhase::Supporting,
                        launched,
                        pending,
                        results,
                        isolated,
                        error,
                    };
                    (waiting, DispatchAction::Await)
                } else {
                    Self::advance(primary, supporting, strategy, launched, results, isolated, error)
                }
            },
        }
    }

    /// Starts what is left of the supporting handlers, or finishes.
    fn advance(
        primary: AgentType,
        supporting: Vec<AgentType>,
        strategy: ExecutionStrategy,
        launched: usize,
        results: Vec<AgentResult>,
        isolated: Vec<IsolatedFailure>,
        error: String,
    ) -> (next: (Dispatch, DispatchAction))
        requires
            launched <= supporting.len(),
            dispatch_inv(
                dispatch_advance(
                    DispatchView {
                        primary,
                        supporting: supporting@,
                        strategy,
                        phase: DispatchPhase::Supporting,
                        launched: launched as nat,
                        pending: Seq::empty(),
                        results: results@,
                        isolated: isolated.deep_view(),
                        error: error@,
                    },
                ).0,
            ),
            dispatch_accounted(
                dispatch_advance(
                    DispatchView {
                        primary,
                        supporting: supporting@,
                        strategy,
                        phase: DispatchPhase::Supporting,
                        launched: launched as nat,
                        pending: Seq::empty(),
                        results: results@,
                        isolated: isolated.deep_view(),
                        error: error@,
                    },
                ).0,
            ),
        ensures
            (next.0@, next.1@) == dispatch_advance(
                DispatchView {
                    primary,
                    supporting: supporting@,
                    strategy,
                    phase: DispatchPhase::Supporting,
                    launched: launched as nat,
                    pending: Seq::empty(),
                    results: results@,
                    isolated: isolated.deep_view(),
                    error: error@,
                },
            ),
    {
        if launched < supporting.len() {
            match strategy {
                ExecutionStrategy::Parallel => {
                    let rest = agents_from(&supporting, launched);
                    let invoked = agents_from(&supporting, launched);
                    let all = supporting.len();
                    let running = Dispatch {
                        primary,
                        supporting,
                        strategy,
                        phase: DispatchPhase::Supporting,
                        launched: all,
                        pending: rest,
                        results,
                        isolated,
                        error,
                    };
                    return (running, DispatchAction::InvokeAll(invoked));
                },
                ExecutionStrategy::Sequential => {
                    let next = supporting[launched];
                    let mut pending: Vec<AgentType> = Vec::new();
                    pending.push(next);
                    assert(pending@ =~= seq![next]);
                    let running = Dispatch {
                        primary,
                        supporting,
                        strategy,
                        phase: DispatchPhase::Supporting,
                        launched: launched + 1,
                        pending,
                        results,
                        isolated,
                        error,
                    };
                    return (running, DispatchAction::Invoke(next));
                },
                _ => {},
            }
        }
        let finished = Dispatch {
            primary,
            supporting,
            strategy,
            phase: DispatchPhase::Finished,
            launched,
            pending: Vec::new(),
            results,
            isolated,
            error,
        };
        (finished, DispatchAction::Finished)
    }

    /// Where the dispatch stands.
    pub fn phase(&self) -> (phase: DispatchPhase)
        ensures
            phase == self@.phase,
    {
        self.phase
    }

    /// The handlers that were invoked and have not answered.
    pub fn pending(&self) -> (pending: &Vec<AgentType>)
        ensures
            pending@ == self@.pending,
    {
        &self.pending
    }

    /// The supporting handlers whose failure was set aside.
    pub fn isolated_failures(&self) -> (isolated: &Vec<IsolatedFailure>)
        ensures
            isolated.deep_view() == self@.isolated,
    {
        &self.isolated
    }

    /// The results of a finished dispatch, the primary handler's first. A
    /// failed dispatch gives the primary handler's error instead, and one
    /// that still runs says so.
    pub fn into_results(self) -> (results: Result<Vec<AgentResult>, DispatchError>)
        ensures
            self@.phase == DispatchPhase::Finished ==> (results matches Ok(collected)
                && collected@ == self@.results && collected@.len() >= 1 && collected@[0].agent
                == self@.primary),
            self@.phase == DispatchPhase::Failed ==> (results matches Err(
                DispatchError::PrimaryHandlerFailed(error),
            ) && error@ == self@.error),
            self@.phase == DispatchPhase::Primary || self@.phase == DispatchPhase::Supporting
                ==> results matches Err(DispatchError::Unfinished),
    {
        proof {
            use_type_invariant(&self);
        }
        match self.phase {
            DispatchPhase::Finished => Ok(self.results),
            DispatchPhase::Failed => Err(DispatchError::PrimaryHandlerFailed(self.error)),
            _ => Err(DispatchError::Unfinished),
        }
    }
}

} // verus!
