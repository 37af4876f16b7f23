//! The transaction executor: an ordered batch of steps run as one
//! all-or-nothing unit of work.
//!
//! The executor performs no I/O itself. It is a state machine: the driver
//! that owns the pool, the transaction handle, and the socket asks it what to
//! do next, performs the returned [`DbAction`], and reports what happened as
//! a [`DbEvent`]. A transaction handle that is discarded without a commit
//! undoes its effects (the driver's scoped-rollback guarantee), so the engine
//! issues no explicit rollback: it simply never asks for a commit once
//! anything has failed.

use vstd::prelude::*;
use crate::binder::{bind_all_spec, bind_params, BindError};
use crate::messages::{
    begin_error_message, begin_error_text, bind_error_message, bind_error_text,
    commit_error_message, commit_error_text, connect_error_message, connect_error_text,
    sql_error_message, sql_error_text,
};
use crate::values::{BoundModel, BoundParam, DynamicValue, ValueModel};

verus! {

/// One statement to run inside the transaction: its SQL text, used as-is,
/// and its ordered parameters, bound strictly left to right against the
/// statement's placeholders. The count and order are the caller's
/// responsibility; no validation against placeholder count is performed.
#[derive(Clone, Debug, PartialEq)]
pub struct TransactionStep {
    pub sql: String,
    pub params: Vec<DynamicValue>,
}

/// The mathematical model of a [`TransactionStep`].
pub struct StepModel {
    pub sql: Seq<char>,
    pub params: Seq<ValueModel>,
}

impl View for TransactionStep {
    type V = StepModel;

    open spec fn view(&self) -> StepModel {
        StepModel { sql: self.sql@, params: self.params.deep_view() }
    }
}

impl DeepView for TransactionStep {
    type V = StepModel;

    open spec fn deep_view(&self) -> StepModel {
        self.view()
    }
}

/// The structured result of a call. A fully successful call carries
/// `success: true` and no error; a failed call never builds a result at all,
/// it surfaces an [`EngineError`] instead.
#[derive(Clone, Debug, PartialEq)]
pub struct TransactionResult {
    pub success: bool,
    pub error: Option<String>,
}

/// The mathematical model of a [`TransactionResult`].
pub struct ResultModel {
    pub success: bool,
    pub error: Option<Seq<char>>,
}

impl View for TransactionResult {
    type V = ResultModel;

    open spec fn view(&self) -> ResultModel {
        ResultModel {
            success: self.success,
            error: match &self.error {
                Some(s) => Some(s@),
                None => None,
            },
        }
    }
}

/// Why a call failed, with what the driver reported. Every kind is
/// call-terminal: nothing is retried and no progress is partially reported.
#[derive(Debug, PartialEq)]
pub enum EngineError {
    /// Connecting to the backend failed; the identifier is not cached.
    Connect { message: String },
    /// Opening the transaction failed; no step was run.
    Begin { message: String },
    /// A parameter failed to bind; no statement of its step was executed.
    Bind { error: BindError },
    /// A statement failed; its text is kept to aid diagnosis.
    Step { message: String, sql: String },
    /// The final commit failed; reported distinctly from step failure.
    Commit { message: String },
}

/// The mathematical model of an [`EngineError`].
pub enum ErrorModel {
    Connect { message: Seq<char> },
    Begin { message: Seq<char> },
    Bind { error: BindError },
    Step { message: Seq<char>, sql: Seq<char> },
    Commit { message: Seq<char> },
}

impl View for EngineError {
    type V = ErrorModel;

    open spec fn view(&self) -> ErrorModel {
        match self {
            EngineError::Connect { message } => ErrorModel::Connect { message: message@ },
            EngineError::Begin { message } => ErrorModel::Begin { message: message@ },
            EngineError::Bind { error } => ErrorModel::Bind { error: *error },
            EngineError::Step { message, sql } => ErrorModel::Step {
                message: message@,
                sql: sql@,
            },
            EngineError::Commit { message } => ErrorModel::Commit { message: message@ },
        }
    }
}

/// The caller-facing text of an error. These literal shapes are part of the
/// interface; existing callers match on them.
pub open spec fn error_text(e: ErrorModel) -> Seq<char> {
    match e {
        ErrorModel::Connect { message } => connect_error_text(message),
        ErrorModel::Begin { message } => begin_error_text(message),
        ErrorModel::Bind { error } => bind_error_text(error),
        ErrorModel::Step { message, sql } => sql_error_text(message, sql),
        ErrorModel::Commit { message } => commit_error_text(message),
    }
}

impl EngineError {
    /// Render the error as its caller-facing string.
    pub fn render(&self) -> (r: String)
        ensures
            r@ == error_text(self@),
    {
        match self {
            EngineError::Connect { message } => connect_error_message(message.as_str()),
            EngineError::Begin { message } => begin_error_message(message.as_str()),
            EngineError::Bind { error } => bind_error_message(error),
            EngineError::Step { message, sql } => sql_error_message(
                message.as_str(),
                sql.as_str(),
            ),
            EngineError::Commit { message } => commit_error_message(message.as_str()),
        }
    }
}

/// Where a call stands.
#[derive(Debug, PartialEq)]
pub enum Phase {
    /// Waiting for a new pool to be opened (first use of the identifier).
    Connecting,
    /// Waiting for the transaction to be opened.
    Beginning,
    /// Waiting for the statement of the step at `step_index` to be executed.
    Running { step_index: usize },
    /// Waiting for the commit.
    Committing,
    /// The call is over, with this outcome.
    Finished { outcome: Result<TransactionResult, EngineError> },
}

/// The mathematical model of a [`Phase`].
pub enum PhaseModel {
    Connecting,
    Beginning,
    Running { step_index: int },
    Committing,
    Finished { outcome: Result<ResultModel, ErrorModel> },
}

impl View for Phase {
    type V = PhaseModel;

    open spec fn view(&self) -> PhaseModel {
        match self {
            Phase::Connecting => PhaseModel::Connecting,
            Phase::Beginning => PhaseModel::Beginning,
            Phase::Running { step_index } => PhaseModel::Running {
                step_index: *step_index as int,
            },
            Phase::Committing => PhaseModel::Committing,
            Phase::Finished { outcome } => PhaseModel::Finished {
                outcome: match outcome {
                    Ok(r) => Ok(r@),
                    Err(e) => Err(e@),
                },
            },
        }
    }
}

/// What the driver reports back: the outcome of the action it was asked to
/// perform, carrying the driver's own message on failure.
#[derive(Debug, PartialEq)]
pub enum DbEvent {
    Connected,
    ConnectFailed { message: String },
    Begun,
    BeginFailed { message: String },
    StepExecuted,
    StepFailed { message: String },
    Committed,
    CommitFailed { message: String },
}

/// The mathematical model of a [`DbEvent`].
pub enum EventModel {
    Connected,
    ConnectFailed { message: Seq<char> },
    Begun,
    BeginFailed { message: Seq<char> },
    StepExecuted,
    StepFailed { message: Seq<char> },
    Committed,
    CommitFailed { message: Seq<char> },
}

impl View for DbEvent {
    type V = EventModel;

    open spec fn view(&self) -> EventModel {
        match self {
            DbEvent::Connected => EventModel::Connected,
            DbEvent::ConnectFailed { message } => EventModel::ConnectFailed { message: message@ },
            DbEvent::Begun => EventModel::Begun,
            DbEvent::BeginFailed { message } => EventModel::BeginFailed { message: message@ },
            DbEvent::StepExecuted => EventModel::StepExecuted,
            DbEvent::StepFailed { message } => EventModel::StepFailed { message: message@ },
            DbEvent::Committed => EventModel::Committed,
            DbEvent::CommitFailed { message } => EventModel::CommitFailed { message: message@ },
        }
    }
}

/// What the engine asks the driver to do next. `Finish` ends the call: the
/// driver discards any still-open transaction handle (undoing uncommitted
/// work) and hands the outcome to the caller.
#[derive(Debug, PartialEq)]
pub enum DbAction {
    Connect { identifier: String },
    Begin,
    Execute { sql: String, params: Vec<BoundParam> },
    Commit,
    Finish { outcome: Result<TransactionResult, EngineError> },
}

/// The mathematical model of a [`DbAction`].
pub enum ActionModel {
    Connect { identifier: Seq<char> },
    Begin,
    Execute { sql: Seq<char>, params: Seq<BoundModel> },
    Commit,
    Finish { outcome: Result<ResultModel, ErrorModel> },
}

impl View for DbAction {
    type V = ActionModel;

    open spec fn view(&self) -> ActionModel {
        match self {
            DbAction::Connect { identifier } => ActionModel::Connect { identifier: identifier@ },
            DbAction::Begin => ActionModel::Begin,
            DbAction::Execute { sql, params } => ActionModel::Execute {
                sql: sql@,
                params: params.deep_view(),
            },
            DbAction::Commit => ActionModel::Commit,
            DbAction::Finish { outcome } => ActionModel::Finish {
                outcome: match outcome {
                    Ok(r) => Ok(r@),
                    Err(e) => Err(e@),
                },
            },
        }
    }
}

/// One in-flight call: the batch it was given and where it stands.
#[derive(Debug)]
pub struct Executor {
    pub identifier: String,
    pub steps: Vec<TransactionStep>,
    pub phase: Phase,
}

/// The mathematical model of an [`Executor`].
pub struct ExecutorModel {
    pub identifier: Seq<char>,
    pub steps: Seq<StepModel>,
    pub phase: PhaseModel,
}

impl View for Executor {
    type V = ExecutorModel;

    open spec fn view(&self) -> ExecutorModel {
        ExecutorModel {
            identifier: self.identifier@,
            steps: self.steps.deep_view(),
            phase: self.phase@,
        }
    }
}

/// Validity: while a step is running, its index lies within the batch.
pub open spec fn wf(m: ExecutorModel) -> bool {
    m.phase matches PhaseModel::Running { step_index } ==> 0 <= step_index < m.steps.len()
}

/// Which report answers the action that the phase is waiting on.
pub open spec fn event_fits(m: ExecutorModel, e: EventModel) -> bool {
    match m.phase {
        PhaseModel::Connecting => e is Connected || e is ConnectFailed,
        PhaseModel::Beginning => e is Begun || e is BeginFailed,
        PhaseModel::Running { .. } => e is StepExecuted || e is StepFailed,
        PhaseModel::Committing => e is Committed || e is CommitFailed,
        PhaseModel::Finished { .. } => false,
    }
}

/// The phase the engine moves to when the steps from position `i` onward are
/// still to run: past the end, commit; at a step whose parameters bind, run
/// it; at a step whose parameters do not bind, finish with that error before
/// any statement of it executes.
pub open spec fn phase_at_step(m: ExecutorModel, i: int) -> PhaseModel {
    if i >= m.steps.len() {
        PhaseModel::Committing
    } else {
        match bind_all_spec(m.steps[i].params) {
            Ok(_) => PhaseModel::Running { step_index: i },
            Err(e) => PhaseModel::Finished { outcome: Err(ErrorModel::Bind { error: e }) },
        }
    }
}

/// The action asked for when the steps from position `i` onward are still to
/// run.
pub open spec fn action_at_step(m: ExecutorModel, i: int) -> ActionModel {
    if i >= m.steps.len() {
        ActionModel::Commit
    } else {
        match bind_all_spec(m.steps[i].params) {
            Ok(bs) => ActionModel::Execute { sql: m.steps[i].sql, params: bs },
            Err(e) => ActionModel::Finish { outcome: Err(ErrorModel::Bind { error: e }) },
        }
    }
}

/// The phase after one report.
pub open spec fn next_phase(m: ExecutorModel, e: EventModel) -> PhaseModel {
    match e {
        EventModel::Connected => PhaseModel::Beginning,
        EventModel::ConnectFailed { message } => PhaseModel::Finished {
            outcome: Err(ErrorModel::Connect { message }),
        },
        EventModel::Begun => phase_at_step(m, 0),
        EventModel::BeginFailed { message } => PhaseModel::Finished {
            outcome: Err(ErrorModel::Begin { message }),
        },
        EventModel::StepExecuted => phase_at_step(m, m.phase->step_index + 1),
        EventModel::StepFailed { message } => PhaseModel::Finished {
            outcome: Err(
                ErrorModel::Step { message, sql: m.steps[m.phase->step_index].sql },
            ),
        },
        EventModel::Committed => PhaseModel::Finished {
            outcome: Ok(ResultModel { success: true, error: None }),
        },
        EventModel::CommitFailed { message } => PhaseModel::Finished {
            outcome: Err(ErrorModel::Commit { message }),
        },
    }
}

/// The action after one report.
pub open spec fn next_action(m: ExecutorModel, e: EventModel) -> ActionModel {
    match e {
        EventModel::Connected => ActionModel::Begin,
        EventModel::Begun => action_at_step(m, 0),
        EventModel::StepExecuted => action_at_step(m, m.phase->step_index + 1),
        EventModel::Committed => ActionModel::Finish {
            outcome: Ok(ResultModel { success: true, error: None }),
        },
        _ => ActionModel::Finish {
            outcome: match next_phase(m, e) {
                PhaseModel::Finished { outcome } => outcome,
                _ => Ok(ResultModel { success: true, error: None }),
            },
        },
    }
}

/// The model a call starts from, given whether the registry already held a
/// pool for the identifier.
pub open spec fn init_model(
    identifier: Seq<char>,
    steps: Seq<StepModel>,
    pool_in_registry: bool,
) -> ExecutorModel {
    ExecutorModel {
        identifier,
        steps,
        phase: if pool_in_registry {
            PhaseModel::Beginning
        } else {
            PhaseModel::Connecting
        },
    }
}

/// The first action of a call: connect exactly when the registry held no
/// pool for the identifier, otherwise go straight to opening a transaction.
pub open spec fn init_action(identifier: Seq<char>, pool_in_registry: bool) -> ActionModel {
    if pool_in_registry {
        ActionModel::Begin
    } else {
        ActionModel::Connect { identifier }
    }
}

impl Executor {
    /// Start a call. The driver has already looked the identifier up in the
    /// registry, with its lock held only for that lookup; whether a pool was
    /// found decides whether a connect is asked for.
    pub fn start(identifier: String, steps: Vec<TransactionStep>, pool_in_registry: bool) -> (r: (
        Executor,
        DbAction,
    ))
        ensures
            r.0@ == init_model(identifier@, steps.deep_view(), pool_in_registry),
            r.1@ == init_action(identifier@, pool_in_registry),
            wf(r.0@),
    {
        if pool_in_registry {
            let ex = Executor { identifier, steps, phase: Phase::Beginning };
            (ex, DbAction::Begin)
        } else {
            let id = identifier.clone();
            let ex = Executor { identifier, steps, phase: Phase::Connecting };
            (ex, DbAction::Connect { identifier: id })
        }
    }

    /// Move past the steps before position `i`: bind and run the step at `i`,
    /// or ask for the commit when the batch is exhausted.
    fn advance(&mut self, i: usize) -> (action: DbAction)
        requires
            i <= old(self).steps@.len(),
        ensures
            final(self).identifier == old(self).identifier,
            final(self).steps == old(self).steps,
            final(self)@.phase == phase_at_step(old(self)@, i as int),
            action@ == action_at_step(old(self)@, i as int),
    {
        if i < self.steps.len() {
            match bind_params(&self.steps[i].params) {
                Ok(bs) => {
                    self.phase = Phase::Running { step_index: i };
                    DbAction::Execute { sql: self.steps[i].sql.clone(), params: bs }
                },
                Err(e) => {
                    self.phase = Phase::Finished {
                        outcome: Err(EngineError::Bind { error: e }),
                    };
                    DbAction::Finish { outcome: Err(EngineError::Bind { error: e }) }
                },
            }
        } else {
            self.phase = Phase::Committing;
            DbAction::Commit
        }
    }

    /// Take the driver's report of the last action and answer with the next
    /// action. The whole transition is the model's: the executor afterward
    /// and the action are exactly what [`next_phase`] and [`next_action`]
    /// say.
    pub fn on_event(&mut self, event: DbEvent) -> (action: DbAction)
        requires
            wf(old(self)@),
            event_fits(old(self)@, event@),
        ensures
            final(self)@.identifier == old(self)@.identifier,
            final(self)@.steps == old(self)@.steps,
            final(self)@.phase == next_phase(old(self)@, event@),
            action@ == next_action(old(self)@, event@),
            wf(final(self)@),
    {
        let running_index: usize = match &self.phase {
            Phase::Running { step_index } => *step_index,
            _ => 0,
        };
        match event {
            DbEvent::Connected => {
                self.phase = Phase::Beginning;
                DbAction::Begin
            },
            DbEvent::ConnectFailed { message } => {
                let m = message.clone();
                self.phase = Phase::Finished {
                    outcome: Err(EngineError::Connect { message }),
                };
                DbAction::Finish { outcome: Err(EngineError::Connect { message: m }) }
            },
            DbEvent::Begun => self.advance(0),
            DbEvent::BeginFailed { message } => {
                let m = message.clone();
                self.phase = Phase::Finished { outcome: Err(EngineError::Begin { message }) };
                DbAction::Finish { outcome: Err(EngineError::Begin { message: m }) }
            },
            DbEvent::StepExecuted => {
                let n = self.steps.len();
                assert(running_index < n);
                self.advance(running_index + 1)
            },
            DbEvent::StepFailed { message } => {
                let m = message.clone();
                let sql = self.steps[running_index].sql.clone();
                let sql2 = sql.clone();
                self.phase = Phase::Finished {
                    outcome: Err(EngineError::Step { message, sql }),
                };
                DbAction::Finish { outcome: Err(EngineError::Step { message: m, sql: sql2 }) }
            },
            DbEvent::Committed => {
                self.phase = Phase::Finished {
                    outcome: Ok(TransactionResult { success: true, error: None }),
                };
                DbAction::Finish {
                    outcome: Ok(TransactionResult { success: true, error: None }),
                }
            },
            DbEvent::CommitFailed { message } => {
                let m = message.clone();
                self.phase = Phase::Finished {
                    outcome: Err(EngineError::Commit { message }),
                };
                DbAction::Finish { outcome: Err(EngineError::Commit { message: m }) }
            },
        }
    }
}

/// The model with its phase replaced.
pub open spec fn with_phase(m: ExecutorModel, p: PhaseModel) -> ExecutorModel {
    ExecutorModel { phase: p, ..m }
}

/// The model after a whole sequence of reports.
pub open spec fn run(m: ExecutorModel, events: Seq<EventModel>) -> ExecutorModel
    decreases events.len(),
{
    if events.len() == 0 {
        m
    } else {
        run(with_phase(m, next_phase(m, events[0])), events.drop_first())
    }
}

/// A sequence of reports is a run when each answers the action its phase was
/// waiting on. In particular no report follows a finished call.
pub open spec fn trace_ok(m: ExecutorModel, events: Seq<EventModel>) -> bool
    decreases events.len(),
{
    events.len() == 0 || (event_fits(m, events[0]) && trace_ok(
        with_phase(m, next_phase(m, events[0])),
        events.drop_first(),
    ))
}

/// A report of a failed connect, begin, or step.
pub open spec fn is_failure_event(e: EventModel) -> bool {
    e is ConnectFailed || e is BeginFailed || e is StepFailed
}

/// One transition keeps the model valid.
proof fn lemma_wf_preserved(m: ExecutorModel, e: EventModel)
    requires
        wf(m),
        event_fits(m, e),
    ensures
        wf(with_phase(m, next_phase(m, e))),
{
}

/// Running a prefix of length `j >= 1` is one transition followed by running
/// a prefix of the rest.
proof fn lemma_run_take_step(m: ExecutorModel, events: Seq<EventModel>, j: int)
    requires
        1 <= j <= events.len(),
    ensures
        run(m, events.take(j)) == run(
            with_phase(m, next_phase(m, events[0])),
            events.drop_first().take(j - 1),
        ),
{
    assert(events.take(j)[0] == events[0]);
    assert(events.take(j).drop_first() =~= events.drop_first().take(j - 1));
}

/// A commit is asked for exactly when the engine enters its committing
/// phase, and that happens only once every step of the batch has been bound
/// and has reported success: from the last step's success report, or, for an
/// empty batch, straight after the transaction opened.
pub proof fn lemma_commit_needs_all_steps(m: ExecutorModel, e: EventModel)
    requires
        wf(m),
        event_fits(m, e),
    ensures
        next_action(m, e) is Commit <==> next_phase(m, e) is Committing,
        next_phase(m, e) is Committing ==> ({
            ||| (m.phase is Beginning && e is Begun && m.steps.len() == 0)
            ||| (m.phase matches PhaseModel::Running { step_index } && e is StepExecuted
                && step_index + 1 == m.steps.len())
        }),
{
}

/// Atomicity: in any run that reports a failed connect, begin, or step (and
/// in any run that stops a step whose parameters do not bind), the engine is
/// never in its committing phase, so it never asks for a commit. The open
/// transaction handle is discarded uncommitted, which undoes every step that
/// had already executed: no step of the batch becomes observable.
pub proof fn lemma_atomicity(m: ExecutorModel, events: Seq<EventModel>)
    requires
        wf(m),
        trace_ok(m, events),
        exists|k: int| 0 <= k < events.len() && is_failure_event(events[k]),
    ensures
        forall|j: int| 0 <= j <= events.len() ==> !(run(m, events.take(j)).phase is Committing),
    decreases events.len(),
{
    let k = choose|k: int| 0 <= k < events.len() && is_failure_event(events[k]);
    let m1 = with_phase(m, next_phase(m, events[0]));
    // The current phase is not the committing one: a failure report never
    // answers a commit, and from the committing phase the call finishes at
    // once, after which no report fits.
    if m.phase is Committing {
        assert(!is_failure_event(events[0]));
        assert(m1.phase is Finished);
        assert(k >= 1);
        assert(trace_ok(m1, events.drop_first()));
        if events.drop_first().len() > 0 {
            assert(event_fits(m1, events.drop_first()[0]));
        }
        assert(false);
    }
    assert(run(m, events.take(0)) == m);
    lemma_wf_preserved(m, events[0]);
    if is_failure_event(events[0]) {
        // The call finishes at once; the trace holds no further report.
        assert(m1.phase is Finished);
        assert(trace_ok(m1, events.drop_first()));
        if events.drop_first().len() > 0 {
            assert(event_fits(m1, events.drop_first()[0]));
        }
        assert(events.len() == 1);
        assert(run(m, events.take(1)) == m1) by {
            lemma_run_take_step(m, events, 1);
        }
    } else {
        assert(0 <= k - 1 < events.drop_first().len() && is_failure_event(
            events.drop_first()[k - 1],
        ));
        lemma_atomicity(m1, events.drop_first());
        assert forall|j: int| 0 <= j <= events.len() implies !(run(
            m,
            events.take(j),
        ).phase is Committing) by {
            if j >= 1 {
                lemma_run_take_step(m, events, j);
                assert(!(run(m1, events.drop_first().take(j - 1)).phase is Committing));
            }
        }
    }
}

/// Pool reuse: a connect is asked for exactly when the registry held no pool
/// for the identifier; once the new pool's handle is stored, the identical
/// identifier maps to that one handle, so a second call for it asks for no
/// connect, while entries for every other identifier are untouched by the
/// insertion.
pub proof fn lemma_pool_reuse(
    registry: Map<Seq<char>, u64>,
    identifier: Seq<char>,
    handle: u64,
    other: Seq<char>,
)
    ensures
        init_action(identifier, false) == (ActionModel::Connect { identifier }),
        init_action(identifier, true) == ActionModel::Begin,
        registry.insert(identifier, handle).contains_key(identifier),
        registry.insert(identifier, handle)[identifier] == handle,
        other != identifier ==> registry.insert(identifier, handle).contains_key(other)
            == registry.contains_key(other),
        other != identifier && registry.contains_key(other) ==> registry.insert(
            identifier,
            handle,
        )[other] == registry[other],
{
}

/// Idempotent identifier handling: the engine keeps no per-call state beyond
/// the model. Two calls that start from the same identifier, the same batch,
/// and the same registry answer, and whose backends report the same events,
/// pass through the same phases and finish with the same outcome.
pub proof fn lemma_idempotent_runs(
    identifier: Seq<char>,
    steps: Seq<StepModel>,
    pool_in_registry: bool,
    events1: Seq<EventModel>,
    events2: Seq<EventModel>,
)
    requires
        events1 == events2,
    ensures
        run(init_model(identifier, steps, pool_in_registry), events1) == run(
            init_model(identifier, steps, pool_in_registry),
            events2,
        ),
        init_action(identifier, pool_in_registry) == init_action(identifier, pool_in_registry),
{
}

} // verus!
