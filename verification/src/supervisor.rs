//! Bounded-retry supervision of a monitoring session.
//!
//! The supervisor owns the lifecycle of the tap: it counts start attempts,
//! orders a fixed backoff between retries, and after the configured budget
//! is spent reports a terminal failure exactly once. The embedding program
//! performs what each returned action names (attempt the tap, sleep, park,
//! surface the report); the supervisor decides.

use vstd::prelude::*;

use crate::errors::MonitorError;

verus! {

/// Where a supervised session stands. `Failed` and `Stopped` are terminal.
#[derive(Debug, Clone, Copy, PartialEq, Eq, Structural)]
pub enum SessionState {
    Idle,
    Starting,
    Listening,
    Retrying,
    Failed,
    Stopped,
}

/// How one attempt to create the tap ended. The two failures are treated
/// alike for retry purposes.
#[derive(Debug, Clone, Copy, PartialEq, Eq, Structural)]
pub enum AttemptOutcome {
    Success,
    PermissionDenied,
    RunLoopSourceCreationFailed,
}

/// What the embedding program must do next.
#[derive(Debug, Clone, Copy, PartialEq, Eq, Structural)]
pub enum SupervisorAction {
    /// Listening is established: park the tap thread in the host's event
    /// loop.
    Proceed,
    /// Sleep this many milliseconds, release whatever the failed attempt
    /// allocated, then attempt again.
    RetryAfterBackoff(u64),
    /// Terminal: surface this error to the session's owner. Emitted exactly
    /// once per session.
    ReportFailure(MonitorError),
}

/// The supervisor as the contracts see it.
pub ghost struct SupervisorModel {
    pub state: SessionState,
    pub attempts: u32,
    pub max_attempts: u32,
    pub backoff_ms: u64,
}

impl SupervisorModel {
    /// Internal consistency: the budget is positive, the counter never
    /// passes it, a state about to attempt still has budget, and an idle
    /// session has attempted nothing.
    pub open spec fn wf(self) -> bool {
        &&& 1 <= self.max_attempts
        &&& self.attempts <= self.max_attempts
        &&& (self.state is Starting || self.state is Retrying ==> self.attempts
            < self.max_attempts)
        &&& (self.state is Idle ==> self.attempts == 0)
    }
}

/// The error a failed attempt stands for.
pub open spec fn spec_error_of(outcome: AttemptOutcome) -> MonitorError
    recommends
        !(outcome is Success),
{
    match outcome {
        AttemptOutcome::Success => MonitorError::PermissionDenied,
        AttemptOutcome::PermissionDenied => MonitorError::PermissionDenied,
        AttemptOutcome::RunLoopSourceCreationFailed => MonitorError::RunLoopSourceCreationFailed,
    }
}

/// What one attempt result does to the supervisor: success establishes
/// listening; a failure within budget orders one backoff and a retry; a
/// failure that spends the budget is terminal and carries the report.
pub open spec fn spec_on_attempt(m: SupervisorModel, outcome: AttemptOutcome) -> (
    SupervisorModel,
    SupervisorAction,
) {
    let spent = (m.attempts + 1) as u32;
    if outcome is Success {
        (
            SupervisorModel { state: SessionState::Listening, attempts: spent, ..m },
            SupervisorAction::Proceed,
        )
    } else if spent < m.max_attempts {
        (
            SupervisorModel { state: SessionState::Retrying, attempts: spent, ..m },
            SupervisorAction::RetryAfterBackoff(m.backoff_ms),
        )
    } else {
        (
            SupervisorModel { state: SessionState::Failed, attempts: spent, ..m },
            SupervisorAction::ReportFailure(spec_error_of(outcome)),
        )
    }
}

/// What an error from a live tap does: retry if budget remains, else
/// terminal with the report. The retry budget is per session, so attempts
/// spent before listening was established still count.
pub open spec fn spec_on_tap_error(m: SupervisorModel, error: MonitorError) -> (
    SupervisorModel,
    SupervisorAction,
) {
    if m.attempts < m.max_attempts {
        (
            SupervisorModel { state: SessionState::Retrying, ..m },
            SupervisorAction::RetryAfterBackoff(m.backoff_ms),
        )
    } else {
        (
            SupervisorModel { state: SessionState::Failed, ..m },
            SupervisorAction::ReportFailure(error),
        )
    }
}

/// The error a failed attempt stands for.
pub fn error_of(outcome: AttemptOutcome) -> (e: MonitorError)
    requires
        !(outcome is Success),
    ensures
        e == spec_error_of(outcome),
{
    match outcome {
        AttemptOutcome::Success => MonitorError::PermissionDenied,
        AttemptOutcome::PermissionDenied => MonitorError::PermissionDenied,
        AttemptOutcome::RunLoopSourceCreationFailed => MonitorError::RunLoopSourceCreationFailed,
    }
}

/// The retry supervisor of one session. Its view is `SupervisorModel`.
pub struct Supervisor {
    state: SessionState,
    attempts: u32,
    max_attempts: u32,
    backoff_ms: u64,
}

impl View for Supervisor {
    type V = SupervisorModel;

    closed spec fn view(&self) -> SupervisorModel {
        SupervisorModel {
            state: self.state,
            attempts: self.attempts,
            max_attempts: self.max_attempts,
            backoff_ms: self.backoff_ms,
        }
    }
}

impl Supervisor {
    /// A supervisor for a fresh session: `max_attempts` tap-creation
    /// attempts at most, `backoff_ms` milliseconds between them.
    pub fn new(max_attempts: u32, backoff_ms: u64) -> (s: Supervisor)
        requires
            1 <= max_attempts,
        ensures
            s@.wf(),
            s@ == (SupervisorModel {
                state: SessionState::Idle,
                attempts: 0,
                max_attempts,
                backoff_ms,
            }),
    {
        Supervisor { state: SessionState::Idle, attempts: 0, max_attempts, backoff_ms }
    }

    /// Where the session stands.
    pub fn state(&self) -> (s: SessionState)
        ensures
            s == self@.state,
    {
        self.state
    }

    /// How many tap-creation attempts have been made this session.
    pub fn attempts_made(&self) -> (n: u32)
        ensures
            n == self@.attempts,
    {
        self.attempts
    }

    /// The configured backoff between attempts, in milliseconds.
    pub fn backoff_ms(&self) -> (ms: u64)
        ensures
            ms == self@.backoff_ms,
    {
        self.backoff_ms
    }

    /// Open the session: the first attempt may begin. A session that is
    /// not idle is not begun twice; that is a caller error, refused
    /// immediately and never retried.
    pub fn begin(&mut self) -> (r: Result<(), MonitorError>)
        requires
            old(self)@.wf(),
        ensures
            final(self)@.wf(),
            old(self)@.state is Idle ==> r == Ok::<(), MonitorError>(()) && final(self)@ == (
            SupervisorModel { state: SessionState::Starting, ..old(self)@ }),
            !(old(self)@.state is Idle) ==> r == Err::<(), MonitorError>(
                MonitorError::AlreadyRunning,
            ) && final(self)@ == old(self)@,
    {
        match self.state {
            SessionState::Idle => {
                self.state = SessionState::Starting;
                Ok(())
            },
            _ => Err(MonitorError::AlreadyRunning),
        }
    }

    /// Record how the attempt just made ended, and say what to do next.
    pub fn on_attempt_result(&mut self, outcome: AttemptOutcome) -> (a: SupervisorAction)
        requires
            old(self)@.wf(),
            old(self)@.state is Starting,
        ensures
            final(self)@.wf(),
            (final(self)@, a) == spec_on_attempt(old(self)@, outcome),
    {
        self.attempts = self.attempts + 1;
        match outcome {
            AttemptOutcome::Success => {
                self.state = SessionState::Listening;
                SupervisorAction::Proceed
            },
            _ => {
                if self.attempts < self.max_attempts {
                    self.state = SessionState::Retrying;
                    SupervisorAction::RetryAfterBackoff(self.backoff_ms)
                } else {
                    self.state = SessionState::Failed;
                    SupervisorAction::ReportFailure(error_of(outcome))
                }
            },
        }
    }

    /// The ordered backoff has been slept and the failed attempt's
    /// resources released: the next attempt may begin.
    pub fn on_backoff_elapsed(&mut self)
        requires
            old(self)@.wf(),
            old(self)@.state is Retrying,
        ensures
            final(self)@.wf(),
            final(self)@ == (SupervisorModel { state: SessionState::Starting, ..old(self)@ }),
    {
        self.state = SessionState::Starting;
    }

    /// A live tap reported an error: retry within the session's remaining
    /// budget, else terminal.
    pub fn on_tap_error(&mut self, error: MonitorError) -> (a: SupervisorAction)
        requires
            old(self)@.wf(),
            old(self)@.state is Listening,
        ensures
            final(self)@.wf(),
            (final(self)@, a) == spec_on_tap_error(old(self)@, error),
    {
        if self.attempts < self.max_attempts {
            self.state = SessionState::Retrying;
            SupervisorAction::RetryAfterBackoff(self.backoff_ms)
        } else {
            self.state = SessionState::Failed;
            SupervisorAction::ReportFailure(error)
        }
    }

    /// An explicit stop of a listening session: terminal, no report.
    pub fn request_stop(&mut self)
        requires
            old(self)@.wf(),
            old(self)@.state is Listening,
        ensures
            final(self)@.wf(),
            final(self)@ == (SupervisorModel { state: SessionState::Stopped, ..old(self)@ }),
    {
        self.state = SessionState::Stopped;
    }
}

/// One thing that can happen to a supervised session, in the order it
/// happens. A begin on a session that is not idle is refused and changes
/// nothing; every other event is only ever produced in the state its
/// method requires.
#[derive(Debug, Clone, Copy, PartialEq, Eq, Structural)]
pub enum SupervisorEvent {
    StartRequested,
    AttemptResult(AttemptOutcome),
    BackoffElapsed,
    TapError(MonitorError),
    StopRequested,
}

/// Whether the supervisor has a transition for this event in this state.
pub open spec fn spec_event_enabled(m: SupervisorModel, e: SupervisorEvent) -> bool {
    match e {
        SupervisorEvent::StartRequested => true,
        SupervisorEvent::AttemptResult(_) => m.state is Starting,
        SupervisorEvent::BackoffElapsed => m.state is Retrying,
        SupervisorEvent::TapError(_) => m.state is Listening,
        SupervisorEvent::StopRequested => m.state is Listening,
    }
}

/// The supervisor after one event, with the action it emits, if any. This
/// is the whole state machine in one place; each method's contract is one
/// of its rows.
pub open spec fn spec_step(m: SupervisorModel, e: SupervisorEvent) -> (
    SupervisorModel,
    Option<SupervisorAction>,
)
    recommends
        spec_event_enabled(m, e),
{
    match e {
        SupervisorEvent::StartRequested => (
            if m.state is Idle {
                SupervisorModel { state: SessionState::Starting, ..m }
            } else {
                m
            },
            None,
        ),
        SupervisorEvent::AttemptResult(outcome) => {
            let stepped = spec_on_attempt(m, outcome);
            (stepped.0, Some(stepped.1))
        },
        SupervisorEvent::BackoffElapsed => (
            SupervisorModel { state: SessionState::Starting, ..m },
            None,
        ),
        SupervisorEvent::TapError(error) => {
            let stepped = spec_on_tap_error(m, error);
            (stepped.0, Some(stepped.1))
        },
        SupervisorEvent::StopRequested => (
            SupervisorModel { state: SessionState::Stopped, ..m },
            None,
        ),
    }
}

/// How many terminal reports one emitted action holds.
pub open spec fn spec_action_reports(a: Option<SupervisorAction>) -> nat {
    match a {
        Some(SupervisorAction::ReportFailure(_)) => 1nat,
        _ => 0nat,
    }
}

/// How many terminal reports a session emits over a whole event trace.
/// The walk stops at the first event the state has no transition for;
/// verified callers never produce such an event.
pub open spec fn spec_trace_reports(m: SupervisorModel, events: Seq<SupervisorEvent>) -> nat
    decreases events.len(),
{
    if events.len() == 0 {
        0
    } else if !spec_event_enabled(m, events[0]) {
        0
    } else {
        spec_action_reports(spec_step(m, events[0]).1) + spec_trace_reports(
            spec_step(m, events[0]).0,
            events.drop_first(),
        )
    }
}

/// Where a whole event trace leaves the session.
pub open spec fn spec_trace_final(m: SupervisorModel, events: Seq<SupervisorEvent>) -> SupervisorModel
    decreases events.len(),
{
    if events.len() == 0 {
        m
    } else if !spec_event_enabled(m, events[0]) {
        m
    } else {
        spec_trace_final(spec_step(m, events[0]).0, events.drop_first())
    }
}

/// Every enabled step preserves the supervisor's consistency.
pub proof fn lemma_step_preserves_wf(m: SupervisorModel, e: SupervisorEvent)
    requires
        m.wf(),
        spec_event_enabled(m, e),
    ensures
        spec_step(m, e).0.wf(),
{
}

/// A failed session is inert: no trace from it emits anything or leaves
/// the state.
pub proof fn lemma_failed_is_inert(m: SupervisorModel, events: Seq<SupervisorEvent>)
    requires
        m.state is Failed,
    ensures
        spec_trace_reports(m, events) == 0,
        spec_trace_final(m, events) == m,
    decreases events.len(),
{
    if events.len() > 0 {
        if spec_event_enabled(m, events[0]) {
            assert(spec_step(m, events[0]) == (m, Option::<SupervisorAction>::None));
            lemma_failed_is_inert(m, events.drop_first());
        }
    }
}

/// The terminal failure report is emitted exactly once: over any event
/// trace a session emits at most one report, and it emits one exactly when
/// the trace ends in `Failed`.
pub proof fn lemma_terminal_report_exactly_once(m: SupervisorModel, events: Seq<SupervisorEvent>)
    requires
        m.wf(),
        !(m.state is Failed),
    ensures
        spec_trace_reports(m, events) <= 1,
        spec_trace_reports(m, events) == 1 <==> spec_trace_final(m, events).state is Failed,
    decreases events.len(),
{
    if events.len() > 0 && spec_event_enabled(m, events[0]) {
        let next = spec_step(m, events[0]).0;
        let emitted = spec_step(m, events[0]).1;
        lemma_step_preserves_wf(m, events[0]);
        if spec_action_reports(emitted) == 1 {
            assert(next.state is Failed);
            lemma_failed_is_inert(next, events.drop_first());
        } else {
            assert(!(next.state is Failed));
            lemma_terminal_report_exactly_once(next, events.drop_first());
        }
    }
}

/// What one supervised start-up came to: how many attempts were made, how
/// many backoff waits were ordered (each of `backoff_ms_each`
/// milliseconds), how many terminal reports were emitted and with which
/// error, and where the session ended.
#[derive(Debug, Clone, Copy)]
pub struct SupervisionReport {
    pub attempts_made: u32,
    pub backoff_waits: u32,
    pub backoff_ms_each: u64,
    pub failure_reports: u32,
    pub reported_error: Option<MonitorError>,
    pub outcome: SessionState,
}

/// Drive one session's start-up to its verdict, reading how each attempt
/// ends from `outcomes` in order.
///
/// Exactly the spec's retry policy, stated for every script of outcomes:
/// the first success within budget establishes listening, with one backoff
/// wait between consecutive attempts and no failure report; a budget spent
/// entirely on failures makes exactly `max_attempts` attempts, orders
/// `max_attempts - 1` waits, ends `Failed` and reports the last error
/// exactly once; a script shorter than the budget with no success leaves
/// the session still `Starting`, nothing reported.
pub fn supervise_attempts(supervisor: &mut Supervisor, outcomes: &Vec<AttemptOutcome>) -> (rep:
    SupervisionReport)
    requires
        old(supervisor)@.wf(),
        old(supervisor)@.state is Idle,
    ensures
        final(supervisor)@.wf(),
        final(supervisor)@.max_attempts == old(supervisor)@.max_attempts,
        final(supervisor)@.backoff_ms == old(supervisor)@.backoff_ms,
        rep.outcome == final(supervisor)@.state,
        rep.attempts_made == final(supervisor)@.attempts,
        rep.backoff_ms_each == old(supervisor)@.backoff_ms,
        rep.outcome is Listening <==> (exists|k: int|
            0 <= k < old(supervisor)@.max_attempts && k < outcomes@.len() && outcomes@[k]
                is Success),
        rep.outcome is Listening ==> (1 <= rep.attempts_made <= old(supervisor)@.max_attempts
            && outcomes@[rep.attempts_made - 1] is Success && (forall|j: int|
            0 <= j < rep.attempts_made - 1 ==> !(outcomes@[j] is Success)) && rep.backoff_waits
            == rep.attempts_made - 1 && rep.failure_reports == 0 && rep.reported_error is None),
        rep.outcome is Failed <==> (outcomes@.len() >= old(supervisor)@.max_attempts && (forall|
            j: int,
        | 0 <= j < old(supervisor)@.max_attempts ==> !(outcomes@[j] is Success))),
        rep.outcome is Failed ==> (rep.attempts_made == old(supervisor)@.max_attempts
            && rep.backoff_waits == rep.attempts_made - 1 && rep.failure_reports == 1
            && rep.reported_error == Some(spec_error_of(outcomes@[rep.attempts_made - 1]))),
        !(rep.outcome is Listening) && !(rep.outcome is Failed) ==> (rep.outcome is Starting
            && rep.attempts_made == outcomes@.len() && rep.attempts_made < old(
            supervisor,
        )@.max_attempts && (forall|j: int|
            0 <= j < outcomes@.len() ==> !(outcomes@[j] is Success)) && rep.backoff_waits
            == rep.attempts_made && rep.failure_reports == 0 && rep.reported_error is None),
{
    let ghost initial = supervisor@;
    let _begun = supervisor.begin();
    let mut i: usize = 0;
    let mut backoff_waits: u32 = 0;
    let mut failure_reports: u32 = 0;
    let mut reported_error: Option<MonitorError> = None;
    let mut established: bool = false;
    let mut failed: bool = false;
    while i < outcomes.len() && !established && !failed
        invariant
            supervisor@.wf(),
            supervisor@.max_attempts == initial.max_attempts,
            supervisor@.backoff_ms == initial.backoff_ms,
            supervisor@.attempts == i,
            i <= outcomes.len(),
            !(established && failed),
            !established && !failed ==> supervisor@.state is Starting,
            established ==> supervisor@.state is Listening && 1 <= i && outcomes@[i - 1]
                is Success,
            failed ==> supervisor@.state is Failed && i == initial.max_attempts,
            forall|j: int|
                0 <= j < i ==> (outcomes@[j] is Success <==> (established && j == i - 1)),
            backoff_waits == if established || failed {
                i - 1
            } else {
                i as int
            },
            failure_reports == if failed {
                1int
            } else {
                0int
            },
            failed ==> reported_error == Some(spec_error_of(outcomes@[i - 1])),
            !failed ==> reported_error is None,
        decreases outcomes.len() - i,
    {
        let action = supervisor.on_attempt_result(outcomes[i]);
        i = i + 1;
        match action {
            SupervisorAction::Proceed => {
                established = true;
            },
            SupervisorAction::RetryAfterBackoff(_wait_ms) => {
                backoff_waits = backoff_waits + 1;
                supervisor.on_backoff_elapsed();
            },
            SupervisorAction::ReportFailure(error) => {
                failure_reports = failure_reports + 1;
                reported_error = Some(error);
                failed = true;
            },
        }
    }
    SupervisionReport {
        attempts_made: supervisor.attempts_made(),
        backoff_waits,
        backoff_ms_each: supervisor.backoff_ms(),
        failure_reports,
        reported_error,
        outcome: supervisor.state(),
    }
}

} // verus!
