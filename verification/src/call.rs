//! The course of a call after it was accepted: which action the caller
//! takes next, and what follows from the way each action ended. A call is
//! a small state machine; the caller carries out one action at a time and
//! reports back until the machine gives the reply.

use vstd::prelude::*;
use tokio::sync::oneshot::Receiver;
use crate::common::{opt_string, State, UEvent, UEventView};
use crate::eapi::{
    call_result, location_query, state_query, step_views, DisplayStep, DisplayStepView, Handlers,
    Outcome, OutcomeView, REBOOT_DELAY_MS,
};
use crate::error::{Error, ErrorKind, ErrorView};
use crate::number::Number;
use crate::payload::Payload;
use crate::process::{
    run_result, system_cmd_x, ExternalCommand, ExternalCommandView, ProcessOutcome,
};
use crate::reply::{query_result, QueryReply};

verus! {

/// What the caller does next for a call. The first four actions end the
/// call; after each of the others the caller reports how it went.
#[derive(Debug)]
pub enum Action {
    /// Reply that the call succeeded, without payload.
    Reply,
    /// Reply with the snapshot of the panel in this state at this location.
    ReplySnapshot { state: State, location: Option<String> },
    /// Reply that the call succeeded, and run the command after the delay,
    /// detached from the call.
    ReplyAndDetach { command: ExternalCommand, delay_ms: u64 },
    /// Reply with this error.
    Fail(Error),
    /// Hand the command to the executor, and report whether that could be
    /// done.
    Enqueue(UEvent),
    /// Hand the query to the executor, wait for the reply up to the bound
    /// of a query, and report how the wait ended.
    AskState { query: UEvent, state_reply: Receiver<State> },
    /// As `AskState`, for the location of the page.
    AskLocation { query: UEvent, location_reply: Receiver<Option<String>> },
    /// Set the backlight to this level, and report how the command ended.
    SetBrightness(Number),
    /// Run the command, and report how it ended.
    Run(ExternalCommand),
    /// Wait for so long, and report that the pause is over.
    Pause { millis: u64 },
}

/// An action as contracts speak of it.
pub enum ActionView {
    Reply,
    ReplySnapshot { state: State, location: Option<Seq<char>> },
    ReplyAndDetach { command: ExternalCommandView, delay_ms: u64 },
    Fail(ErrorView),
    Enqueue(UEventView),
    AskState,
    AskLocation,
    SetBrightness(Number),
    Run(ExternalCommandView),
    Pause { millis: u64 },
}

impl View for Action {
    type V = ActionView;

    open spec fn view(&self) -> ActionView {
        match self {
            Action::Reply => ActionView::Reply,
            Action::ReplySnapshot { state, location } => ActionView::ReplySnapshot {
                state: *state,
                location: opt_string(*location),
            },
            Action::ReplyAndDetach { command, delay_ms } => ActionView::ReplyAndDetach {
                command: command@,
                delay_ms: *delay_ms,
            },
            Action::Fail(error) => ActionView::Fail(error@),
            Action::Enqueue(command) => ActionView::Enqueue(command@),
            Action::AskState { query, state_reply } => ActionView::AskState,
            Action::AskLocation { query, location_reply } => ActionView::AskLocation,
            Action::SetBrightness(level) => ActionView::SetBrightness(*level),
            Action::Run(command) => ActionView::Run(command@),
            Action::Pause { millis } => ActionView::Pause { millis: *millis },
        }
    }
}

impl ActionView {
    /// Whether an action ends its call.
    pub open spec fn is_final(self) -> bool {
        self is Reply || self is ReplySnapshot || self is ReplyAndDetach || self is Fail
    }
}

/// How an action ended, as the caller reports it.
#[derive(Debug)]
pub enum Report {
    /// Whether the command could be handed to the executor.
    Enqueued { sent: bool },
    /// How the wait for the state ended.
    State(QueryReply<State>),
    /// How the wait for the location ended.
    Location(QueryReply<Option<String>>),
    /// How the external command ended.
    Process(ProcessOutcome),
    /// The pause is over.
    Paused,
}

/// Where a call stands.
#[derive(Debug)]
pub enum Call {
    /// A command is being handed to the executor.
    Sending,
    /// The state of the page is being asked for.
    AskingState,
    /// The state is known; the location of the page is being asked for.
    AskingLocation { state: State },
    /// An external command is running; it may end with one of these exit
    /// codes besides zero. These steps are still to come.
    Running { exit_ok: Vec<i32>, rest: Vec<DisplayStep> },
    /// A pause is being kept. These steps are still to come.
    Pausing { rest: Vec<DisplayStep> },
    /// The reply was given.
    Finished,
}

/// A call as contracts speak of it.
pub enum CallView {
    Sending,
    AskingState,
    AskingLocation { state: State },
    Running { exit_ok: Seq<i32>, rest: Seq<DisplayStepView> },
    Pausing { rest: Seq<DisplayStepView> },
    Finished,
}

impl View for Call {
    type V = CallView;

    open spec fn view(&self) -> CallView {
        match self {
            Call::Sending => CallView::Sending,
            Call::AskingState => CallView::AskingState,
            Call::AskingLocation { state } => CallView::AskingLocation { state: *state },
            Call::Running { exit_ok, rest } => CallView::Running {
                exit_ok: exit_ok@,
                rest: step_views(rest@),
            },
            Call::Pausing { rest } => CallView::Pausing { rest: step_views(rest@) },
            Call::Finished => CallView::Finished,
        }
    }
}

impl CallView {
    /// The number of reports that a call can still take before it must
    /// give its reply.
    pub open spec fn reports_left(self) -> nat {
        match self {
            CallView::Sending => 1,
            CallView::AskingState => 2,
            CallView::AskingLocation { .. } => 1,
            CallView::Running { rest, .. } => 1 + rest.len(),
            CallView::Pausing { rest } => 1 + rest.len(),
            CallView::Finished => 0,
        }
    }
}

/// The error for a report that does not answer the action that was given.
pub open spec fn out_of_turn() -> ErrorView {
    ErrorView { kind: ErrorKind::Internal, message: Seq::empty() }
}

/// The next of the steps that are still to come: its action, and the call
/// that waits for the report of it; the reply, where no step is left.
pub open spec fn next_step(rest: Seq<DisplayStepView>) -> (CallView, ActionView) {
    if rest.len() == 0 {
        (CallView::Finished, ActionView::Reply)
    } else {
        match rest[0] {
            DisplayStepView::Brightness(level) => (
                CallView::Running { exit_ok: Seq::empty(), rest: rest.drop_first() },
                ActionView::SetBrightness(level),
            ),
            DisplayStepView::Run(command) => (
                CallView::Running { exit_ok: command.exit_ok, rest: rest.drop_first() },
                ActionView::Run(command),
            ),
            DisplayStepView::Pause(millis) => (
                CallView::Pausing { rest: rest.drop_first() },
                ActionView::Pause { millis },
            ),
        }
    }
}

/// How a call begins: with its first action, and as the call that waits
/// for the report of it.
pub open spec fn begun(outcome: OutcomeView) -> (CallView, ActionView) {
    match outcome {
        OutcomeView::Done => (CallView::Finished, ActionView::Reply),
        OutcomeView::Enqueue(command) => (CallView::Sending, ActionView::Enqueue(command)),
        OutcomeView::Info => (CallView::AskingState, ActionView::AskState),
        OutcomeView::Display(steps) => next_step(steps),
        OutcomeView::Reboot(command) => (
            CallView::Finished,
            ActionView::ReplyAndDetach { command, delay_ms: REBOOT_DELAY_MS },
        ),
    }
}

/// The error of a query that gave no value.
pub open spec fn query_error<T>(reply: QueryReply<T>) -> ErrorView {
    ErrorView {
        kind: if reply is TimedOut {
            ErrorKind::Timeout
        } else {
            ErrorKind::Internal
        },
        message: Seq::empty(),
    }
}

/// How a call goes on after a report. A report that does not answer the
/// action that was given ends the call with an internal error; so does
/// every failure of an action, with its own error.
pub open spec fn resumed(call: CallView, report: Report) -> (CallView, ActionView) {
    match (call, report) {
        (CallView::Sending, Report::Enqueued { sent }) => if sent {
            (CallView::Finished, ActionView::Reply)
        } else {
            (CallView::Finished, ActionView::Fail(out_of_turn()))
        },
        (CallView::AskingState, Report::State(reply)) => match reply {
            QueryReply::Value(state) => (
                CallView::AskingLocation { state },
                ActionView::AskLocation,
            ),
            _ => (CallView::Finished, ActionView::Fail(query_error(reply))),
        },
        (CallView::AskingLocation { state }, Report::Location(reply)) => match reply {
            QueryReply::Value(location) => (
                CallView::Finished,
                ActionView::ReplySnapshot { state, location: opt_string(location) },
            ),
            _ => (CallView::Finished, ActionView::Fail(query_error(reply))),
        },
        (CallView::Running { exit_ok, rest }, Report::Process(outcome)) => match run_result(
            outcome,
            exit_ok,
        ) {
            Ok(()) => next_step(rest),
            Err(error) => (CallView::Finished, ActionView::Fail(error)),
        },
        (CallView::Pausing { rest }, Report::Paused) => next_step(rest),
        _ => (CallView::Finished, ActionView::Fail(out_of_turn())),
    }
}

fn copy_codes(codes: &Vec<i32>) -> (copy: Vec<i32>)
    ensures
        copy@ == codes@,
{
    let mut copy: Vec<i32> = Vec::new();
    let mut i: usize = 0;
    while i < codes.len()
        invariant
            i <= codes.len(),
            copy@ == codes@.take(i as int),
        decreases codes.len() - i,
    {
        copy.push(codes[i]);
        i = i + 1;
    }
    copy
}

fn take_next_step(steps: Vec<DisplayStep>) -> (next: (Call, Action))
    ensures
        (next.0@, next.1@) == next_step(step_views(steps@)),
{
    let mut rest = steps;
    if rest.len() == 0 {
        return (Call::Finished, Action::Reply);
    }
    let ghost all = step_views(rest@);
    let first = rest.remove(0);
    assert(step_views(rest@) =~= all.drop_first());
    match first {
        DisplayStep::Brightness(level) => (
            Call::Running { exit_ok: Vec::new(), rest },
            Action::SetBrightness(level),
        ),
        DisplayStep::Run(command) => {
            let exit_ok = copy_codes(&command.exit_ok);
            (Call::Running { exit_ok, rest }, Action::Run(command))
        },
        DisplayStep::Pause(millis) => (Call::Pausing { rest }, Action::Pause { millis }),
    }
}

fn fail(error: Error) -> (next: (Call, Action))
    ensures
        next.0@ == CallView::Finished,
        next.1@ == ActionView::Fail(error@),
{
    (Call::Finished, Action::Fail(error))
}

/// How a call starts, from the way it was judged: a call that was refused
/// is over with its error before anything is done.
pub open spec fn started(answer: Result<OutcomeView, ErrorView>) -> (CallView, ActionView) {
    match answer {
        Ok(outcome) => begun(outcome),
        Err(error) => (CallView::Finished, ActionView::Fail(error)),
    }
}

impl Call {
    /// Judges a call and begins it: the first action, and the call that
    /// waits for the report of it.
    pub fn start(handlers: &Handlers, method: &str, payload: &Payload) -> (next: (Call, Action))
        ensures
            (next.0@, next.1@) == started(call_result(*handlers, method@, payload@)),
    {
        match handlers.handle_call(method, payload) {
            Ok(outcome) => Call::begin(outcome),
            Err(error) => fail(error),
        }
    }

    /// Begins the call that was accepted with the given outcome.
    pub fn begin(outcome: Outcome) -> (next: (Call, Action))
        ensures
            (next.0@, next.1@) == begun(outcome@),
    {
        match outcome {
            Outcome::Done => (Call::Finished, Action::Reply),
            Outcome::Enqueue(command) => (Call::Sending, Action::Enqueue(command)),
            Outcome::Info => {
                let (query, state_reply) = state_query();
                (Call::AskingState, Action::AskState { query, state_reply })
            },
            Outcome::Display(steps) => take_next_step(steps),
            Outcome::Reboot(command) => (
                Call::Finished,
                Action::ReplyAndDetach { command, delay_ms: REBOOT_DELAY_MS },
            ),
        }
    }

    /// Goes on with the call after the report of its last action.
    pub fn resume(self, report: Report) -> (next: (Call, Action))
        ensures
            (next.0@, next.1@) == resumed(self@, report),
    {
        match (self, report) {
            (Call::Sending, Report::Enqueued { sent }) => {
                if sent {
                    (Call::Finished, Action::Reply)
                } else {
                    fail(Error::bare(ErrorKind::Internal))
                }
            },
            (Call::AskingState, Report::State(reply)) => {
                match query_result(reply) {
                    Ok(state) => {
                        let (query, location_reply) = location_query();
                        (
                            Call::AskingLocation { state },
                            Action::AskLocation { query, location_reply },
                        )
                    },
                    Err(error) => fail(error),
                }
            },
            (Call::AskingLocation { state }, Report::Location(reply)) => {
                match query_result(reply) {
                    Ok(location) => (Call::Finished, Action::ReplySnapshot { state, location }),
                    Err(error) => fail(error),
                }
            },
            (Call::Running { exit_ok, rest }, Report::Process(outcome)) => {
                match system_cmd_x(&outcome, exit_ok.as_slice()) {
                    Ok(()) => take_next_step(rest),
                    Err(error) => fail(error),
                }
            },
            (Call::Pausing { rest }, Report::Paused) => take_next_step(rest),
            _ => fail(Error::bare(ErrorKind::Internal)),
        }
    }
}

/// Every call gives its reply: the action that a call gives ends the call
/// exactly where the call is finished, and each report leaves fewer reports
/// to take than there were.
pub proof fn lemma_call_makes_progress(call: CallView, report: Report)
    ensures
        resumed(call, report).1.is_final() <==> resumed(call, report).0 is Finished,
        !(call is Finished) ==> resumed(call, report).0.reports_left() < call.reports_left(),
{
}

/// A call starts with an action that ends it exactly where there is nothing
/// to wait for; a call that was refused starts with its error and nothing
/// else.
pub proof fn lemma_call_starts(answer: Result<OutcomeView, ErrorView>)
    ensures
        started(answer).1.is_final() <==> started(answer).0 is Finished,
        answer matches Err(error) ==> started(answer) == (
            CallView::Finished,
            ActionView::Fail(error),
        ),
{
}

/// A finished call takes no report: whatever is reported to it, it fails
/// and stays finished.
pub proof fn lemma_finished_call_stays_finished(report: Report)
    ensures
        resumed(CallView::Finished, report) == (
            CallView::Finished,
            ActionView::Fail(out_of_turn()),
        ),
{
}

/// A query that got no reply within its bound ends the call with a timeout
/// at once, and no further action is taken.
pub proof fn lemma_query_timeout_ends_call(state: State)
    ensures
        resumed(CallView::AskingState, Report::State(QueryReply::TimedOut)) == (
            CallView::Finished,
            ActionView::Fail(ErrorView { kind: ErrorKind::Timeout, message: Seq::empty() }),
        ),
        resumed(CallView::AskingLocation { state }, Report::Location(QueryReply::TimedOut)) == (
            CallView::Finished,
            ActionView::Fail(ErrorView { kind: ErrorKind::Timeout, message: Seq::empty() }),
        ),
{
}

/// An info call whose two queries are answered replies with the snapshot of
/// the state and the location that the executor wrote.
pub proof fn lemma_info_replies_what_was_written(state: State, location: Option<String>)
    ensures
        begun(OutcomeView::Info) == (CallView::AskingState, ActionView::AskState),
        resumed(CallView::AskingState, Report::State(QueryReply::Value(state))) == (
            CallView::AskingLocation { state },
            ActionView::AskLocation,
        ),
        resumed(
            CallView::AskingLocation { state },
            Report::Location(QueryReply::Value(location)),
        ) == (
            CallView::Finished,
            ActionView::ReplySnapshot { state, location: opt_string(location) },
        ),
{
}

/// An external command that fails ends the call with its error, whatever
/// steps were still to come.
pub proof fn lemma_failed_command_ends_call(
    exit_ok: Seq<i32>,
    rest: Seq<DisplayStepView>,
    outcome: ProcessOutcome,
)
    requires
        run_result(outcome, exit_ok) is Err,
    ensures
        resumed(CallView::Running { exit_ok, rest }, Report::Process(outcome)) == (
            CallView::Finished,
            ActionView::Fail(run_result(outcome, exit_ok)->Err_0),
        ),
{
}

} // verus!
