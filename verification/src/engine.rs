//! The strategy execution engine.
//!
//! The engine walks the actions of a strategy in their stored order. What it
//! needs from outside (the profile store, a venue, a pause, a valuation) it
//! hands out as an [`EngineAction`]; the caller performs it and reports the
//! outcome as an [`EngineEvent`], with the time at which it was observed.
//! The failure of one action is recorded and never keeps the later actions
//! from being attempted. Only a failure of the profile store, or of the
//! valuation that a goal update needs, ends an execution early.

use crate::executor::{
    error_text, venue_call_for, ApolloExecutor, ExecutionError, ExecutionErrorView, VenueCall,
    VenueCallView,
};
use crate::strategy::{
    ActionView, ApolloStrategy, ExecutedAction, ExecutedView, ExecutionResult, FailedAction,
    FailedView, ReportView, StrategyStatus,
};
use vstd::prelude::*;

verus! {

/// How long the caller is to wait for one venue call, in milliseconds. A
/// call that has not returned by then is reported as failed, so that it is
/// recorded for its action and the later actions are still attempted.
pub const VENUE_CALL_TIMEOUT_MILLIS: u64 = 30_000;

/// The pause between two actions, in milliseconds: a courtesy to the venues.
pub const PAUSE_MILLIS: u64 = 500;

/// The value, in cents, that a goal is taken to aim at where the strategy
/// names none.
pub const DEFAULT_TARGET_TOTAL_CENTS: u64 = 100_000_000;

/// Number of basis points in a whole.
pub const BPS_PER_WHOLE: u64 = 10_000;

/// What the caller's clocks read when an event was observed.
#[derive(Clone, Debug)]
pub struct Timestamp {
    /// The wall clock, as RFC 3339 text.
    pub rfc3339: String,
    /// The milliseconds since the execution began.
    pub elapsed_ms: u64,
}

/// The mathematical content of a [`Timestamp`].
pub struct TimeView {
    pub rfc3339: Seq<char>,
    pub elapsed_ms: u64,
}

impl DeepView for Timestamp {
    type V = TimeView;

    open spec fn deep_view(&self) -> TimeView {
        TimeView { rfc3339: self.rfc3339@, elapsed_ms: self.elapsed_ms }
    }
}

/// The outcome of what the engine last asked for.
#[derive(Clone, Debug)]
pub enum EngineEvent {
    /// The request was carried out: the store has acknowledged, or the pause is over.
    Done,
    /// The venue has carried out the call and assigned this identifier.
    VenueId(String),
    /// The portfolio is worth this many cents.
    Value(u64),
    /// The request failed with this error text.
    Failed(String),
}

/// The mathematical content of an [`EngineEvent`].
pub enum EventView {
    Done,
    VenueId(Seq<char>),
    Value(u64),
    Failed(Seq<char>),
}

impl DeepView for EngineEvent {
    type V = EventView;

    open spec fn deep_view(&self) -> EventView {
        match self {
            EngineEvent::Done => EventView::Done,
            EngineEvent::VenueId(id) => EventView::VenueId(id@),
            EngineEvent::Value(cents) => EventView::Value(*cents),
            EngineEvent::Failed(error) => EventView::Failed(error@),
        }
    }
}

/// What the caller is to do next.
#[derive(Debug)]
pub enum EngineAction {
    /// Mark the strategy as executing in the profile store.
    MarkExecuting { strategy_id: String },
    /// Make this call at its venue.
    Call(VenueCall),
    /// Wait this long.
    Pause { millis: u64 },
    /// Hand the report to the profile store and mark the strategy as completed.
    CompleteStrategy { strategy_id: String },
    /// Find out what the user's portfolio is worth now.
    ValuePortfolio { user_id: String },
    /// Record the progress towards the goal in the profile store, with the report.
    UpdateGoalProgress { goal_id: i64, new_value_cents: u64, pct_to_goal_bps: u64, on_track: bool },
    /// The execution is complete.
    Finished,
    /// The execution has ended early with this error.
    Abort(String),
    /// The event was not expected and has changed nothing.
    Ignored,
}

/// The mathematical content of an [`EngineAction`].
pub enum EngineActionView {
    MarkExecuting { strategy_id: Seq<char> },
    Call(VenueCallView),
    Pause { millis: u64 },
    CompleteStrategy { strategy_id: Seq<char> },
    ValuePortfolio { user_id: Seq<char> },
    UpdateGoalProgress { goal_id: i64, new_value_cents: u64, pct_to_goal_bps: u64, on_track: bool },
    Finished,
    Abort(Seq<char>),
    Ignored,
}

impl DeepView for EngineAction {
    type V = EngineActionView;

    open spec fn deep_view(&self) -> EngineActionView {
        match self {
            EngineAction::MarkExecuting { strategy_id } => EngineActionView::MarkExecuting {
                strategy_id: strategy_id@,
            },
            EngineAction::Call(call) => EngineActionView::Call(call.deep_view()),
            EngineAction::Pause { millis } => EngineActionView::Pause { millis: *millis },
            EngineAction::CompleteStrategy { strategy_id } => EngineActionView::CompleteStrategy {
                strategy_id: strategy_id@,
            },
            EngineAction::ValuePortfolio { user_id } => EngineActionView::ValuePortfolio {
                user_id: user_id@,
            },
            EngineAction::UpdateGoalProgress {
                goal_id,
                new_value_cents,
                pct_to_goal_bps,
                on_track,
            } => EngineActionView::UpdateGoalProgress {
                goal_id: *goal_id,
                new_value_cents: *new_value_cents,
                pct_to_goal_bps: *pct_to_goal_bps,
                on_track: *on_track,
            },
            EngineAction::Finished => EngineActionView::Finished,
            EngineAction::Abort(error) => EngineActionView::Abort(error@),
            EngineAction::Ignored => EngineActionView::Ignored,
        }
    }
}

/// Where an execution stands.
#[derive(Clone, Copy, Debug, PartialEq, Eq, Structural)]
pub enum EnginePhase {
    /// The store has been asked to mark the strategy as executing.
    Marking,
    /// A venue has been called for the next action.
    Calling,
    /// The pause before the next action runs.
    Pausing,
    /// Every action has its outcome; the store has been asked to complete the strategy.
    Completing,
    /// The portfolio is being valued for the goal update.
    Valuing,
    /// The store has been asked to record the progress towards the goal.
    Updating,
    /// The execution is complete.
    Done,
    /// The execution has ended early.
    Failed,
}

/// What became of one action.
#[derive(Clone, Debug)]
pub enum ActionOutcome {
    Executed(ExecutedAction),
    Failed(FailedAction),
}

/// The mathematical content of an [`ActionOutcome`].
pub enum OutcomeView {
    Executed(ExecutedView),
    Failed(FailedView),
}

impl DeepView for ActionOutcome {
    type V = OutcomeView;

    open spec fn deep_view(&self) -> OutcomeView {
        match self {
            ActionOutcome::Executed(record) => OutcomeView::Executed(record.deep_view()),
            ActionOutcome::Failed(record) => OutcomeView::Failed(record.deep_view()),
        }
    }
}

/// The action that an outcome belongs to.
pub open spec fn outcome_action(outcome: OutcomeView) -> ActionView {
    match outcome {
        OutcomeView::Executed(record) => record.action,
        OutcomeView::Failed(record) => record.action,
    }
}

/// The mathematical content of a [`StrategyExecution`].
pub struct EngineView {
    pub strategy_id: Seq<char>,
    pub user_id: Seq<char>,
    pub goal_id: Option<i64>,
    pub target_total_cents: Option<u64>,
    pub actions: Seq<ActionView>,
    pub price_cents: u64,
    pub phase: EnginePhase,
    pub status: StrategyStatus,
    /// The outcomes of the actions that are settled, in the order of the actions.
    pub outcomes: Seq<OutcomeView>,
    /// The time that the actions took, once all are settled.
    pub execution_time_ms: u64,
    /// The error that ended the execution, if it failed.
    pub error: Seq<char>,
}

/// The executed records among the outcomes, in order.
pub open spec fn executed_of(outcomes: Seq<OutcomeView>) -> Seq<ExecutedView>
    decreases outcomes.len(),
{
    if outcomes.len() == 0 {
        Seq::empty()
    } else {
        let earlier = executed_of(outcomes.drop_last());
        match outcomes.last() {
            OutcomeView::Executed(record) => earlier.push(record),
            OutcomeView::Failed(_) => earlier,
        }
    }
}

/// The failed records among the outcomes, in order.
pub open spec fn failed_of(outcomes: Seq<OutcomeView>) -> Seq<FailedView>
    decreases outcomes.len(),
{
    if outcomes.len() == 0 {
        Seq::empty()
    } else {
        let earlier = failed_of(outcomes.drop_last());
        match outcomes.last() {
            OutcomeView::Executed(_) => earlier,
            OutcomeView::Failed(record) => earlier.push(record),
        }
    }
}

/// The report of an execution: the outcomes parted into executed and failed,
/// with their counts and the time taken.
pub open spec fn report_of(s: EngineView) -> ReportView {
    ReportView {
        strategy_id: s.strategy_id,
        user_id: s.user_id,
        executed: executed_of(s.outcomes),
        failed: failed_of(s.outcomes),
        total_executed: executed_of(s.outcomes).len(),
        total_failed: failed_of(s.outcomes).len(),
        execution_time_ms: s.execution_time_ms,
    }
}

/// How far a portfolio worth `value_cents` has come towards `target_cents`,
/// in basis points of the target. The measure stops at the largest number
/// that fits, which also stands for a target of nothing.
pub open spec fn pct_to_goal(value_cents: u64, target_cents: u64) -> u64 {
    if target_cents == 0 {
        u64::MAX
    } else if value_cents * BPS_PER_WHOLE / (target_cents as int) > u64::MAX {
        u64::MAX
    } else {
        (value_cents * BPS_PER_WHOLE / (target_cents as int)) as u64
    }
}

/// The value that the goal of an execution aims at.
pub open spec fn target_total(s: EngineView) -> u64 {
    match s.target_total_cents {
        Some(cents) => cents,
        None => DEFAULT_TARGET_TOTAL_CENTS,
    }
}

/// The state in which the execution of a strategy begins, and its first
/// action: the store is asked to mark the strategy as executing.
pub open spec fn engine_start(
    strategy_id: Seq<char>,
    user_id: Seq<char>,
    goal_id: Option<i64>,
    target_total_cents: Option<u64>,
    actions: Seq<ActionView>,
    price_cents: u64,
) -> (EngineView, EngineActionView) {
    (
        EngineView {
            strategy_id,
            user_id,
            goal_id,
            target_total_cents,
            actions,
            price_cents,
            phase: EnginePhase::Marking,
            status: StrategyStatus::Generated,
            outcomes: Seq::empty(),
            execution_time_ms: 0,
            error: Seq::empty(),
        },
        EngineActionView::MarkExecuting { strategy_id },
    )
}

/// Every action has its outcome: the time taken is fixed and the store is
/// asked to complete the strategy.
pub open spec fn engine_finalize(s: EngineView, now: TimeView) -> (EngineView, EngineActionView) {
    (
        EngineView { phase: EnginePhase::Completing, execution_time_ms: now.elapsed_ms, ..s },
        EngineActionView::CompleteStrategy { strategy_id: s.strategy_id },
    )
}

/// The next action gets `outcome`. A pause follows if another action is
/// left, whatever the outcome was; else the execution is finalized.
pub open spec fn engine_settle(s: EngineView, outcome: OutcomeView, now: TimeView) -> (
    EngineView,
    EngineActionView,
) {
    let recorded = EngineView { outcomes: s.outcomes.push(outcome), ..s };
    if recorded.outcomes.len() < s.actions.len() {
        (
            EngineView { phase: EnginePhase::Pausing, ..recorded },
            EngineActionView::Pause { millis: PAUSE_MILLIS },
        )
    } else {
        engine_finalize(recorded, now)
    }
}

/// The next action is attempted: its venue is called, or, where the
/// executor rejects it, it is settled as failed without a call.
pub open spec fn engine_attempt(s: EngineView, now: TimeView) -> (EngineView, EngineActionView) {
    let action = s.actions[s.outcomes.len() as int];
    match venue_call_for(action, s.user_id, s.price_cents) {
        Ok(call) => (EngineView { phase: EnginePhase::Calling, ..s }, EngineActionView::Call(call)),
        Err(error) => engine_settle(
            s,
            OutcomeView::Failed(
                FailedView { action, error: error_text(error), failed_at: now.rfc3339 },
            ),
            now,
        ),
    }
}

/// The execution ends early with `error`.
pub open spec fn engine_abort(s: EngineView, error: Seq<char>) -> (EngineView, EngineActionView) {
    (EngineView { phase: EnginePhase::Failed, error, ..s }, EngineActionView::Abort(error))
}

/// One step of an execution: the state after `event` was observed at `now`,
/// and the next action. An event that the phase does not expect changes
/// nothing.
pub open spec fn engine_step(s: EngineView, event: EventView, now: TimeView) -> (
    EngineView,
    EngineActionView,
) {
    match (s.phase, event) {
        (EnginePhase::Marking, EventView::Done) => {
            let executing = EngineView { status: StrategyStatus::Executing, ..s };
            if s.actions.len() == 0 {
                engine_finalize(executing, now)
            } else {
                engine_attempt(executing, now)
            }
        },
        (EnginePhase::Calling, EventView::VenueId(id)) => engine_settle(
            s,
            OutcomeView::Executed(
                ExecutedView {
                    action: s.actions[s.outcomes.len() as int],
                    result_id: id,
                    executed_at: now.rfc3339,
                    executed_price_cents: None,
                },
            ),
            now,
        ),
        (EnginePhase::Calling, EventView::Failed(error)) => engine_settle(
            s,
            OutcomeView::Failed(
                FailedView {
                    action: s.actions[s.outcomes.len() as int],
                    error: error_text(ExecutionErrorView::Venue(error)),
                    failed_at: now.rfc3339,
                },
            ),
            now,
        ),
        (EnginePhase::Pausing, EventView::Done) => engine_attempt(s, now),
        (EnginePhase::Completing, EventView::Done) => {
            let completed = EngineView { status: StrategyStatus::Completed, ..s };
            if s.goal_id is Some {
                (
                    EngineView { phase: EnginePhase::Valuing, ..completed },
                    EngineActionView::ValuePortfolio { user_id: s.user_id },
                )
            } else {
                (EngineView { phase: EnginePhase::Done, ..completed }, EngineActionView::Finished)
            }
        },
        (EnginePhase::Valuing, EventView::Value(cents)) => (
            EngineView { phase: EnginePhase::Updating, ..s },
            EngineActionView::UpdateGoalProgress {
                goal_id: s.goal_id->0,
                new_value_cents: cents,
                pct_to_goal_bps: pct_to_goal(cents, target_total(s)),
                on_track: true,
            },
        ),
        (EnginePhase::Updating, EventView::Done) => (
            EngineView { phase: EnginePhase::Done, ..s },
            EngineActionView::Finished,
        ),
        (EnginePhase::Marking, EventView::Failed(error)) => engine_abort(s, error),
        (EnginePhase::Completing, EventView::Failed(error)) => engine_abort(s, error),
        (EnginePhase::Valuing, EventView::Failed(error)) => engine_abort(s, error),
        (EnginePhase::Updating, EventView::Failed(error)) => engine_abort(s, error),
        _ => (s, EngineActionView::Ignored),
    }
}

/// What holds of every state that an execution can reach.
///
/// The outcomes are those of the first actions, one for each and in their
/// order. The status is `Generated` until the store has acknowledged the
/// mark, `Executing` until it has acknowledged the completion, and
/// `Completed` from then on. The store is asked to complete the strategy
/// only when every action has its outcome.
pub open spec fn engine_inv(s: EngineView) -> bool {
    &&& s.price_cents > 0
    &&& s.outcomes.len() <= s.actions.len()
    &&& forall|i: int|
        0 <= i < s.outcomes.len() ==> outcome_action(#[trigger] s.outcomes[i]) == s.actions[i]
    &&& match s.phase {
        EnginePhase::Marking => s.status == StrategyStatus::Generated && s.outcomes.len() == 0,
        EnginePhase::Calling => s.status == StrategyStatus::Executing && s.outcomes.len()
            < s.actions.len(),
        EnginePhase::Pausing => s.status == StrategyStatus::Executing && 0 < s.outcomes.len()
            < s.actions.len(),
        EnginePhase::Completing => s.status == StrategyStatus::Executing && s.outcomes.len()
            == s.actions.len(),
        EnginePhase::Valuing => s.status == StrategyStatus::Completed && s.outcomes.len()
            == s.actions.len() && s.goal_id is Some,
        EnginePhase::Updating => s.status == StrategyStatus::Completed && s.outcomes.len()
            == s.actions.len() && s.goal_id is Some,
        EnginePhase::Done => s.status == StrategyStatus::Completed && s.outcomes.len()
            == s.actions.len(),
        EnginePhase::Failed => {
            ||| s.status == StrategyStatus::Generated && s.outcomes.len() == 0
            ||| s.status == StrategyStatus::Executing && s.outcomes.len() == s.actions.len()
            ||| s.status == StrategyStatus::Completed && s.outcomes.len() == s.actions.len()
                && s.goal_id is Some
        },
    }
}

/// An execution begins in a state that the invariant admits.
pub proof fn engine_start_is_sound(
    strategy_id: Seq<char>,
    user_id: Seq<char>,
    goal_id: Option<i64>,
    target_total_cents: Option<u64>,
    actions: Seq<ActionView>,
    price_cents: u64,
)
    requires
        price_cents > 0,
    ensures
        engine_inv(
            engine_start(strategy_id, user_id, goal_id, target_total_cents, actions, price_cents).0,
        ),
{
}

/// Every step leads from a state that the invariant admits to another.
pub proof fn engine_step_is_sound(s: EngineView, event: EventView, now: TimeView)
    requires
        engine_inv(s),
    ensures
        engine_inv(engine_step(s, event, now).0),
{
}

/// Every outcome is an executed record or a failed one, and never both: the
/// two lists of a report hold as many records as there are outcomes.
pub proof fn outcomes_are_parted(outcomes: Seq<OutcomeView>)
    ensures
        executed_of(outcomes).len() + failed_of(outcomes).len() == outcomes.len(),
    decreases outcomes.len(),
{
    if outcomes.len() > 0 {
        outcomes_are_parted(outcomes.drop_last());
    }
}

/// Once the store is asked to complete a strategy, and from then on, every
/// action of the strategy is in the report, as executed or as failed.
pub proof fn report_accounts_for_every_action(s: EngineView)
    requires
        engine_inv(s),
        s.phase == EnginePhase::Completing || s.phase == EnginePhase::Valuing || s.phase
            == EnginePhase::Updating || s.phase == EnginePhase::Done,
    ensures
        report_of(s).executed.len() + report_of(s).failed.len() == s.actions.len(),
        report_of(s).total_executed + report_of(s).total_failed == s.actions.len(),
{
    outcomes_are_parted(s.outcomes);
}


/// The failure of a venue call is isolated: it is recorded for its action
/// with the venue's error text, and the execution goes on to the pause
/// before the next action, or to its completion where none is left. It
/// never ends the execution.
pub proof fn venue_failure_is_isolated(s: EngineView, error: Seq<char>, now: TimeView)
    requires
        engine_inv(s),
        s.phase == EnginePhase::Calling,
    ensures
        ({
            let (after, action) = engine_step(s, EventView::Failed(error), now);
            let record = FailedView {
                action: s.actions[s.outcomes.len() as int],
                error,
                failed_at: now.rfc3339,
            };
            &&& after.outcomes == s.outcomes.push(OutcomeView::Failed(record))
            &&& after.status == s.status
            &&& if after.outcomes.len() < s.actions.len() {
                after.phase == EnginePhase::Pausing && action == (EngineActionView::Pause {
                    millis: PAUSE_MILLIS,
                })
            } else {
                after.phase == EnginePhase::Completing && action
                    == (EngineActionView::CompleteStrategy { strategy_id: s.strategy_id })
            }
        }),
{
}

/// After a pause the next action is attempted, whatever became of the
/// actions before it: either its venue is called, or it is rejected and
/// recorded as failed.
pub proof fn next_action_is_attempted(s: EngineView, now: TimeView)
    requires
        engine_inv(s),
        s.phase == EnginePhase::Pausing,
    ensures
        ({
            let (after, action) = engine_step(s, EventView::Done, now);
            let next = s.actions[s.outcomes.len() as int];
            match venue_call_for(next, s.user_id, s.price_cents) {
                Ok(call) => action == EngineActionView::Call(call) && after.phase
                    == EnginePhase::Calling && after.outcomes == s.outcomes,
                Err(error) => after.outcomes == s.outcomes.push(
                    OutcomeView::Failed(
                        FailedView {
                            action: next,
                            error: error_text(error),
                            failed_at: now.rfc3339,
                        },
                    ),
                ) && !(action is Call),
            }
        }),
{
}

/// An action that the executor rejects is recorded as failed at once, and
/// no venue is called for it.
pub proof fn rejected_action_calls_no_venue(s: EngineView, now: TimeView)
    requires
        engine_inv(s),
        s.phase == EnginePhase::Marking || s.phase == EnginePhase::Pausing,
        s.outcomes.len() < s.actions.len(),
        venue_call_for(s.actions[s.outcomes.len() as int], s.user_id, s.price_cents) is Err,
    ensures
        ({
            let (after, action) = engine_step(s, EventView::Done, now);
            let next = s.actions[s.outcomes.len() as int];
            let error = venue_call_for(next, s.user_id, s.price_cents)->Err_0;
            &&& !(action is Call)
            &&& after.outcomes == s.outcomes.push(
                OutcomeView::Failed(
                    FailedView { action: next, error: error_text(error), failed_at: now.rfc3339 },
                ),
            )
        }),
{
}

/// The action of a step is the request whose outcome the new phase waits
/// for: a venue call while calling, a pause while pausing, and so on. A
/// step that is ignored asks for nothing and changes nothing.
pub proof fn action_matches_phase(s: EngineView, event: EventView, now: TimeView)
    requires
        engine_inv(s),
    ensures
        ({
            let (after, action) = engine_step(s, event, now);
            match action {
                EngineActionView::MarkExecuting { .. } => false,
                EngineActionView::Call(_) => after.phase == EnginePhase::Calling,
                EngineActionView::Pause { millis } => after.phase == EnginePhase::Pausing && millis
                    == PAUSE_MILLIS,
                EngineActionView::CompleteStrategy { strategy_id } => after.phase
                    == EnginePhase::Completing && strategy_id == s.strategy_id,
                EngineActionView::ValuePortfolio { user_id } => after.phase == EnginePhase::Valuing
                    && user_id == s.user_id,
                EngineActionView::UpdateGoalProgress { goal_id, .. } => after.phase
                    == EnginePhase::Updating && s.goal_id == Some(goal_id),
                EngineActionView::Finished => after.phase == EnginePhase::Done,
                EngineActionView::Abort(error) => after.phase == EnginePhase::Failed && after.error
                    == error,
                EngineActionView::Ignored => after == s,
            }
        }),
{
}

/// The status of a strategy only moves forward, one stage at a time, from
/// `Generated` over `Executing` to `Completed`. No step sets it back, and
/// none marks the strategy as failed: the failure of an action is no
/// failure of the strategy.
pub proof fn status_only_advances(s: EngineView, event: EventView, now: TimeView)
    requires
        engine_inv(s),
    ensures
        ({
            let after = engine_step(s, event, now).0;
            &&& after.status != StrategyStatus::Failed
            &&& {
                ||| after.status == s.status
                ||| s.status == StrategyStatus::Generated && after.status
                    == StrategyStatus::Executing
                ||| s.status == StrategyStatus::Executing && after.status
                    == StrategyStatus::Completed
            }
        }),
{
}

/// The state that a sequence of events leads to, and the actions that the
/// engine asked for on the way, one for each event.
pub open spec fn engine_run(s: EngineView, events: Seq<(EventView, TimeView)>) -> (
    EngineView,
    Seq<EngineActionView>,
)
    decreases events.len(),
{
    if events.len() == 0 {
        (s, Seq::empty())
    } else {
        let (before, asked) = engine_run(s, events.drop_last());
        let (after, action) = engine_step(before, events.last().0, events.last().1);
        (after, asked.push(action))
    }
}

/// How often the store is asked to mark the strategy as executing.
pub open spec fn marks_asked(asked: Seq<EngineActionView>) -> nat
    decreases asked.len(),
{
    if asked.len() == 0 {
        0
    } else {
        marks_asked(asked.drop_last()) + if asked.last() is MarkExecuting {
            1nat
        } else {
            0nat
        }
    }
}

/// How often the store is asked to complete the strategy.
pub open spec fn completions_asked(asked: Seq<EngineActionView>) -> nat
    decreases asked.len(),
{
    if asked.len() == 0 {
        0
    } else {
        completions_asked(asked.drop_last()) + if asked.last() is CompleteStrategy {
            1nat
        } else {
            0nat
        }
    }
}

/// Whether the store has been asked to complete the strategy.
pub open spec fn completion_asked(s: EngineView) -> bool {
    match s.phase {
        EnginePhase::Marking | EnginePhase::Calling | EnginePhase::Pausing => false,
        EnginePhase::Failed => s.status != StrategyStatus::Generated,
        _ => true,
    }
}

/// Over any sequence of events the invariant is kept, the store is never
/// asked again to mark the strategy, and it is asked to complete the
/// strategy exactly when the execution passes from its actions to its
/// completion, which happens at most once.
pub proof fn lemma_run_asks_the_store_once(s: EngineView, events: Seq<(EventView, TimeView)>)
    requires
        engine_inv(s),
    ensures
        engine_inv(engine_run(s, events).0),
        marks_asked(engine_run(s, events).1) == 0,
        completions_asked(engine_run(s, events).1) + (if completion_asked(s) {
            1nat
        } else {
            0nat
        }) == (if completion_asked(engine_run(s, events).0) {
            1nat
        } else {
            0nat
        }),
    decreases events.len(),
{
    if events.len() > 0 {
        lemma_run_asks_the_store_once(s, events.drop_last());
        let (before, asked) = engine_run(s, events.drop_last());
        let (after, action) = engine_step(before, events.last().0, events.last().1);
        engine_step_is_sound(before, events.last().0, events.last().1);
        assert(asked.push(action).drop_last() =~= asked);
        assert(asked.push(action).last() == action);
    }
}

/// In every execution the store is asked exactly once to mark the strategy
/// as executing, at the very beginning, and at most once to complete it. If
/// the execution comes to its end without a failure of the store, it has
/// been asked exactly once to complete it, its status is `Completed`, and
/// every action has its outcome.
pub proof fn store_is_asked_once(
    strategy_id: Seq<char>,
    user_id: Seq<char>,
    goal_id: Option<i64>,
    target_total_cents: Option<u64>,
    actions: Seq<ActionView>,
    price_cents: u64,
    events: Seq<(EventView, TimeView)>,
)
    requires
        price_cents > 0,
    ensures
        ({
            let (start, first) = engine_start(
                strategy_id,
                user_id,
                goal_id,
                target_total_cents,
                actions,
                price_cents,
            );
            let (end, asked) = engine_run(start, events);
            &&& first is MarkExecuting
            &&& marks_asked(asked) == 0
            &&& completions_asked(asked) <= 1
            &&& end.phase == EnginePhase::Done ==> {
                &&& completions_asked(asked) == 1
                &&& end.status == StrategyStatus::Completed
                &&& end.outcomes.len() == actions.len()
                &&& executed_of(end.outcomes).len() + failed_of(end.outcomes).len()
                    == actions.len()
            }
        }),
{
    let (start, first) = engine_start(
        strategy_id,
        user_id,
        goal_id,
        target_total_cents,
        actions,
        price_cents,
    );
    lemma_run_asks_the_store_once(start, events);
    lemma_run_keeps_the_strategy(start, events);
    outcomes_are_parted(engine_run(start, events).0.outcomes);
}

/// No step changes what is executed: the strategy, its actions and the
/// reference price stay as they were.
pub proof fn lemma_run_keeps_the_strategy(s: EngineView, events: Seq<(EventView, TimeView)>)
    ensures
        engine_run(s, events).0.actions == s.actions,
        engine_run(s, events).0.strategy_id == s.strategy_id,
        engine_run(s, events).0.user_id == s.user_id,
        engine_run(s, events).0.price_cents == s.price_cents,
    decreases events.len(),
{
    if events.len() > 0 {
        lemma_run_keeps_the_strategy(s, events.drop_last());
    }
}

/// Why an execution has no report to give.
#[derive(Debug)]
pub enum EngineError {
    /// The profile store, or the valuation for the goal update, failed with
    /// this error. What was recorded could not be kept.
    ProfileStoreFailure(String),
    /// The execution has not come to its end.
    Unfinished,
}

/// What an execution holds, whatever its phase.
#[derive(Debug)]
struct Core {
    strategy: ApolloStrategy,
    executor: ApolloExecutor,
    status: StrategyStatus,
    outcomes: Vec<ActionOutcome>,
    execution_time_ms: u64,
    error: String,
}

impl Core {
    spec fn at(self, phase: EnginePhase) -> EngineView {
        EngineView {
            strategy_id: self.strategy.strategy_id@,
            user_id: self.strategy.user_id@,
            goal_id: self.strategy.goal_id,
            target_total_cents: self.strategy.target_allocation.total_cents,
            actions: self.strategy.actions.deep_view(),
            price_cents: self.executor.price(),
            phase,
            status: self.status,
            outcomes: self.outcomes.deep_view(),
            execution_time_ms: self.execution_time_ms,
            error: self.error@,
        }
    }
}

/// The execution of one strategy.
#[derive(Debug)]
pub struct StrategyExecution {
    core: Core,
    phase: EnginePhase,
}

impl View for StrategyExecution {
    type V = EngineView;

    closed spec fn view(&self) -> EngineView {
        self.core.at(self.phase)
    }
}

/// The progress towards a goal, in basis points of the target.
fn progress_bps(value_cents: u64, target_cents: u64) -> (bps: u64)
    ensures
        bps == pct_to_goal(value_cents, target_cents),
{
    if target_cents == 0 {
        u64::MAX
    } else {
        assert(value_cents * BPS_PER_WHOLE <= u64::MAX * 10_000) by (nonlinear_arith)
            requires
                value_cents <= u64::MAX,
                BPS_PER_WHOLE == 10_000,
        ;
        let scaled: u128 = value_cents as u128 * BPS_PER_WHOLE as u128;
        let quotient: u128 = scaled / target_cents as u128;
        if quotient > u64::MAX as u128 {
            u64::MAX
        } else {
            quotient as u64
        }
    }
}

/// Every action has its outcome: begins to report the results by asking the
/// store to complete the strategy.
fn report_results(core: Core, phase: EnginePhase, now: &Timestamp) -> (next: (
    StrategyExecution,
    EngineAction,
))
    requires
        engine_inv(engine_finalize(core.at(phase), now.deep_view()).0),
    ensures
        (next.0@, next.1.deep_view()) == engine_finalize(core.at(phase), now.deep_view()),
{
    let strategy_id = core.strategy.strategy_id.clone();
    let core = Core { execution_time_ms: now.elapsed_ms, ..core };
    (
        StrategyExecution { core, phase: EnginePhase::Completing },
        EngineAction::CompleteStrategy { strategy_id },
    )
}

/// Records the outcome of the next action, then pauses or reports the results.
fn settle(core: Core, phase: EnginePhase, outcome: ActionOutcome, now: &Timestamp) -> (next: (
    StrategyExecution,
    EngineAction,
))
    requires
        core.outcomes.len() < core.strategy.actions.len(),
        engine_inv(engine_settle(core.at(phase), outcome.deep_view(), now.deep_view()).0),
    ensures
        (next.0@, next.1.deep_view()) == engine_settle(
            core.at(phase),
            outcome.deep_view(),
            now.deep_view(),
        ),
{
    let ghost before = core.at(phase);
    let Core { strategy, executor, status, mut outcomes, execution_time_ms, error } = core;
    outcomes.push(outcome);
    assert(outcomes.deep_view() =~= before.outcomes.push(outcome.deep_view()));
    let core = Core { strategy, executor, status, outcomes, execution_time_ms, error };
    assert(core.strategy.actions.deep_view().len() == core.strategy.actions.len());
    if core.outcomes.len() < core.strategy.actions.len() {
        (
            StrategyExecution { core, phase: EnginePhase::Pausing },
            EngineAction::Pause { millis: PAUSE_MILLIS },
        )
    } else {
        report_results(core, phase, now)
    }
}

/// Attempts the next action: calls its venue, or settles it as failed where
/// the executor rejects it.
fn attempt(core: Core, phase: EnginePhase, now: &Timestamp) -> (next: (
    StrategyExecution,
    EngineAction,
))
    requires
        core.outcomes.len() < core.strategy.actions.len(),
        engine_inv(engine_attempt(core.at(phase), now.deep_view()).0),
    ensures
        (next.0@, next.1.deep_view()) == engine_attempt(core.at(phase), now.deep_view()),
{
    let at: usize = core.outcomes.len();
    assert(core.strategy.actions.deep_view()[at as int] == core.strategy.actions[at as int].deep_view());
    assert(core.outcomes.deep_view().len() == at);
    let decision = core.executor.execute_action(
        &core.strategy.actions[at],
        core.strategy.user_id.as_str(),
    );
    match decision {
        Ok(call) => (StrategyExecution { core, phase: EnginePhase::Calling }, EngineAction::Call(call)),
        Err(error) => {
            let record = FailedAction {
                action: core.strategy.actions[at].duplicate(),
                error: error.message(),
                failed_at: now.rfc3339.clone(),
            };
            settle(core, phase, ActionOutcome::Failed(record), now)
        },
    }
}

/// Ends the execution early.
fn abort(core: Core, phase: EnginePhase, error: String) -> (next: (StrategyExecution, EngineAction))
    requires
        engine_inv(engine_abort(core.at(phase), error@).0),
    ensures
        (next.0@, next.1.deep_view()) == engine_abort(core.at(phase), error@),
{
    let text = error.clone();
    let core = Core { error, ..core };
    (StrategyExecution { core, phase: EnginePhase::Failed }, EngineAction::Abort(text))
}

impl ApolloExecutor {
    /// Begins the execution of a strategy. The first action is always to
    /// mark the strategy as executing.
    pub fn execute_strategy(&self, strategy: ApolloStrategy) -> (run: (
        StrategyExecution,
        EngineAction,
    ))
        ensures
            (run.0@, run.1.deep_view()) == engine_start(
                strategy.strategy_id@,
                strategy.user_id@,
                strategy.goal_id,
                strategy.target_allocation.total_cents,
                strategy.actions.deep_view(),
                self.price(),
            ),
            engine_inv(run.0@),
    {
        let price: u64 = self.reference_price_cents();
        let strategy_id = strategy.strategy_id.clone();
        let core = Core {
            strategy,
            executor: *self,
            status: StrategyStatus::Generated,
            outcomes: Vec::new(),
            execution_time_ms: 0,
            error: String::new(),
        };
        assert(core.outcomes.deep_view() =~= Seq::empty());
        (
            StrategyExecution { core, phase: EnginePhase::Marking },
            EngineAction::MarkExecuting { strategy_id },
        )
    }
}

impl StrategyExecution {
    #[verifier::type_invariant]
    spec fn sound(self) -> bool {
        engine_inv(self@)
    }

    /// Takes the outcome of what was last asked for, observed at `now`, and
    /// says what to do next.
    pub fn on_event(self, event: EngineEvent, now: &Timestamp) -> (next: (
        StrategyExecution,
        EngineAction,
    ))
        ensures
            (next.0@, next.1.deep_view()) == engine_step(
                self@,
                event.deep_view(),
                now.deep_view(),
            ),
            engine_inv(next.0@),
    {
        proof {
            use_type_invariant(&self);
            engine_step_is_sound(self@, event.deep_view(), now.deep_view());
        }
        let StrategyExecution { core, phase } = self;
        assert(core.strategy.actions.deep_view().len() == core.strategy.actions.len());
        assert(core.outcomes.deep_view().len() == core.outcomes.len());
        match phase {
            EnginePhase::Marking => match event {
                EngineEvent::Done => {
                    let core = Core { status: StrategyStatus::Executing, ..core };
                    if core.strategy.actions.len() == 0 {
                        report_results(core, phase, now)
                    } else {
                        attempt(core, phase, now)
                    }
                },
                EngineEvent::Failed(error) => abort(core, phase, error),
                _ => (StrategyExecution { core, phase }, EngineAction::Ignored),
            },
            EnginePhase::Calling => match event {
                EngineEvent::VenueId(id) => {
                    let at: usize = core.outcomes.len();
                    assert(core.strategy.actions.deep_view()[at as int]
                        == core.strategy.actions[at as int].deep_view());
                    let record = ExecutedAction {
                        action: core.strategy.actions[at].duplicate(),
                        result_id: id,
                        executed_at: now.rfc3339.clone(),
                        executed_price_cents: None,
                    };
                    settle(core, phase, ActionOutcome::Executed(record), now)
                },
                EngineEvent::Failed(error) => {
                    let at: usize = core.outcomes.len();
                    assert(core.strategy.actions.deep_view()[at as int]
                        == core.strategy.actions[at as int].deep_view());
                    let record = FailedAction {
                        action: core.strategy.actions[at].duplicate(),
                        error: ExecutionError::Venue(error).message(),
                        failed_at: now.rfc3339.clone(),
                    };
                    settle(core, phase, ActionOutcome::Failed(record), now)
                },
                _ => (StrategyExecution { core, phase }, EngineAction::Ignored),
            },
            EnginePhase::Pausing => match event {
                EngineEvent::Done => attempt(core, phase, now),
                _ => (StrategyExecution { core, phase }, EngineAction::Ignored),
            },
            EnginePhase::Completing => match event {
                EngineEvent::Done => {
                    let core = Core { status: StrategyStatus::Completed, ..core };
                    if core.strategy.goal_id.is_some() {
                        let user_id = core.strategy.user_id.clone();
                        (
                            StrategyExecution { core, phase: EnginePhase::Valuing },
                            EngineAction::ValuePortfolio { user_id },
                        )
                    } else {
                        (StrategyExecution { core, phase: EnginePhase::Done }, EngineAction::Finished)
                    }
                },
                EngineEvent::Failed(error) => abort(core, phase, error),
                _ => (StrategyExecution { core, phase }, EngineAction::Ignored),
            },
            EnginePhase::Valuing => match event {
                EngineEvent::Value(cents) => {
                    let goal_id: i64 = match core.strategy.goal_id {
                        Some(id) => id,
                        None => 0,
                    };
                    let target: u64 = match core.strategy.target_allocation.total_cents {
                        Some(total) => total,
                        None => DEFAULT_TARGET_TOTAL_CENTS,
                    };
                    let pct_to_goal_bps = progress_bps(cents, target);
                    (
                        StrategyExecution { core, phase: EnginePhase::Updating },
                        EngineAction::UpdateGoalProgress {
                            goal_id,
                            new_value_cents: cents,
                            pct_to_goal_bps,
                            on_track: true,
                        },
                    )
                },
                EngineEvent::Failed(error) => abort(core, phase, error),
                _ => (StrategyExecution { core, phase }, EngineAction::Ignored),
            },
            EnginePhase::Updating => match event {
                EngineEvent::Done => (
                    StrategyExecution { core, phase: EnginePhase::Done },
                    EngineAction::Finished,
                ),
                EngineEvent::Failed(error) => abort(core, phase, error),
                _ => (StrategyExecution { core, phase }, EngineAction::Ignored),
            },
            _ => (StrategyExecution { core, phase }, EngineAction::Ignored),
        }
    }

    /// Where the execution stands.
    pub fn phase(&self) -> (phase: EnginePhase)
        ensures
            phase == self@.phase,
    {
        self.phase
    }

    /// The status of the strategy, as the profile store has acknowledged it.
    pub fn status(&self) -> (status: StrategyStatus)
        ensures
            status == self@.status,
            status != StrategyStatus::Failed,
    {
        proof {
            use_type_invariant(self);
        }
        self.core.status
    }

    /// The report of the execution as it stands: the outcomes so far, parted
    /// into executed and failed. Once the store is asked to complete the
    /// strategy the report holds every action.
    pub fn report(&self) -> (report: ExecutionResult)
        ensures
            report.deep_view() == report_of(self@),
            report.total_executed + report.total_failed == self@.outcomes.len(),
            self@.phase == EnginePhase::Completing || self@.phase == EnginePhase::Valuing
                || self@.phase == EnginePhase::Updating || self@.phase == EnginePhase::Done
                ==> report.executed@.len() + report.failed@.len() == self@.actions.len(),
    {
        proof {
            use_type_invariant(self);
        }
        let mut executed: Vec<ExecutedAction> = Vec::new();
        let mut failed: Vec<FailedAction> = Vec::new();
        let ghost outcomes = self.core.outcomes.deep_view();
        let mut i: usize = 0;
        assert(outcomes.take(0) =~= Seq::<OutcomeView>::empty());
        while i < self.core.outcomes.len()
            invariant
                i <= self.core.outcomes.len(),
                outcomes == self.core.outcomes.deep_view(),
                executed.deep_view() == executed_of(outcomes.take(i as int)),
                failed.deep_view() == failed_of(outcomes.take(i as int)),
            decreases self.core.outcomes.len() - i,
        {
            let ghost upto = outcomes.take(i as int + 1);
            assert(upto.drop_last() =~= outcomes.take(i as int));
            assert(upto.last() == self.core.outcomes[i as int].deep_view());
            match &self.core.outcomes[i] {
                ActionOutcome::Executed(record) => {
                    let ghost earlier = executed.deep_view();
                    executed.push(record.duplicate());
                    assert(executed.deep_view() =~= earlier.push(record.deep_view()));
                },
                ActionOutcome::Failed(record) => {
                    let ghost earlier = failed.deep_view();
                    failed.push(record.duplicate());
                    assert(failed.deep_view() =~= earlier.push(record.deep_view()));
                },
            }
            i += 1;
        }
        assert(outcomes.take(self.core.outcomes.len() as int) =~= outcomes);
        proof {
            outcomes_are_parted(outcomes);
        }
        let total_executed = executed.len();
        let total_failed = failed.len();
        ExecutionResult {
            strategy_id: self.core.strategy.strategy_id.clone(),
            user_id: self.core.strategy.user_id.clone(),
            executed,
            failed,
            total_executed,
            total_failed,
            execution_time_ms: self.core.execution_time_ms,
        }
    }

    /// The report of an execution that is complete. An execution that ended
    /// early gives the error instead, and one that still runs says so.
    pub fn into_report(self) -> (outcome: Result<ExecutionResult, EngineError>)
        ensures
            self@.phase == EnginePhase::Done ==> (outcome matches Ok(report) && report.deep_view()
                == report_of(self@) && report.executed@.len() + report.failed@.len()
                == self@.actions.len()),
            self@.phase == EnginePhase::Failed ==> (outcome matches Err(
                EngineError::ProfileStoreFailure(error),
            ) && error@ == self@.error),
            self@.phase != EnginePhase::Done && self@.phase != EnginePhase::Failed
                ==> outcome matches Err(EngineError::Unfinished),
    {
        match self.phase {
            EnginePhase::Done => Ok(self.report()),
            EnginePhase::Failed => Err(EngineError::ProfileStoreFailure(self.core.error)),
            _ => Err(EngineError::Unfinished),
        }
    }
}

} // verus!
