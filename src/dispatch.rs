use vstd::prelude::*;

use crate::message::InboundMessage;
use crate::policy::{accepts, build_policy, policy_of, AcceptanceModel, NumberAcceptance};

verus! {

/// The two classes of answer that a request gets.
#[derive(Clone, Copy, PartialEq, Eq, Structural, Debug)]
pub enum Status {
    /// The request was handled.
    Success,
    /// Configuration, sender check or handler failed.
    ServerError,
}

/// The answer to one request: a status and a fixed body text.
pub struct Response {
    pub status: Status,
    pub body: String,
}

pub struct ResponseModel {
    pub status: Status,
    pub body: Seq<char>,
}

impl View for Response {
    type V = ResponseModel;

    open spec fn view(&self) -> ResponseModel {
        ResponseModel { status: self.status, body: self.body@ }
    }
}

/// The severity of a log line.
#[derive(Clone, Copy, PartialEq, Eq, Structural, Debug)]
pub enum LogLevel {
    Log,
    Error,
}

/// One line to be written to the log.
pub struct LogEntry {
    pub level: LogLevel,
    pub message: String,
}

pub struct EntryModel {
    pub level: LogLevel,
    pub message: Seq<char>,
}

impl View for LogEntry {
    type V = EntryModel;

    open spec fn view(&self) -> EntryModel {
        EntryModel { level: self.level, message: self.message@ }
    }
}

/// Where the handling of one request stands.
#[derive(Clone, Copy, PartialEq, Eq, Structural, Debug)]
pub enum DispatchState {
    /// The request has come in; nothing was done yet.
    Received,
    /// Waiting for the acceptance configuration to be read.
    AwaitingConfig,
    /// The sender passed; waiting for the handler's verdict.
    AwaitingHandler,
    /// A response was given.
    Finished,
}

/// What the surrounding runtime reports back to the dispatcher.
pub enum DispatchEvent {
    /// Begin handling the request.
    Start,
    /// The acceptance configuration text, or `None` where it could not be read.
    ConfigResolved(Option<String>),
    /// The message handler finished, successfully or not.
    HandlerReturned(bool),
}

pub enum EventModel {
    Start,
    ConfigResolved(Option<Seq<char>>),
    HandlerReturned(bool),
}

impl View for DispatchEvent {
    type V = EventModel;

    open spec fn view(&self) -> EventModel {
        match self {
            DispatchEvent::Start => EventModel::Start,
            DispatchEvent::ConfigResolved(None) => EventModel::ConfigResolved(None),
            DispatchEvent::ConfigResolved(Some(c)) => EventModel::ConfigResolved(Some(c@)),
            DispatchEvent::HandlerReturned(b) => EventModel::HandlerReturned(*b),
        }
    }
}

/// What the surrounding runtime is asked to do next.
pub enum DispatchAction {
    /// Read the acceptance configuration and report it.
    ResolveConfig,
    /// Run the message handler on the message and report its verdict.
    InvokeHandler,
    /// Answer the request; handling is over.
    Respond(Response),
    /// The event does not fit the current state: nothing to do.
    Ignore,
}

pub enum ActionModel {
    ResolveConfig,
    InvokeHandler,
    Respond(ResponseModel),
    Ignore,
}

impl View for DispatchAction {
    type V = ActionModel;

    open spec fn view(&self) -> ActionModel {
        match self {
            DispatchAction::ResolveConfig => ActionModel::ResolveConfig,
            DispatchAction::InvokeHandler => ActionModel::InvokeHandler,
            DispatchAction::Respond(r) => ActionModel::Respond(r@),
            DispatchAction::Ignore => ActionModel::Ignore,
        }
    }
}

/// The outcome of one transition: the next state, the lines to log, in
/// order, and the action to perform.
pub struct Step {
    pub state: DispatchState,
    pub logs: Vec<LogEntry>,
    pub action: DispatchAction,
}

pub struct StepModel {
    pub state: DispatchState,
    pub logs: Seq<EntryModel>,
    pub action: ActionModel,
}

impl View for Step {
    type V = StepModel;

    open spec fn view(&self) -> StepModel {
        StepModel {
            state: self.state,
            logs: lines_of(self.logs@),
            action: self.action@,
        }
    }
}

/// The views of a sequence of log entries.
pub open spec fn lines_of(v: Seq<LogEntry>) -> Seq<EntryModel> {
    v.map_values(|e: LogEntry| e@)
}

pub open spec fn note(level: LogLevel, message: Seq<char>) -> EntryModel {
    EntryModel { level, message }
}

pub open spec fn respond(status: Status, body: Seq<char>) -> ActionModel {
    ActionModel::Respond(ResponseModel { status, body })
}

/// The log line that names the kind of policy in force.
pub open spec fn policy_note(p: AcceptanceModel) -> EntryModel {
    match p {
        AcceptanceModel::All => note(LogLevel::Log, "Accepting all numbers"@),
        AcceptanceModel::Specific(_) => note(LogLevel::Log, "Accepting specific numbers"@),
        AcceptanceModel::Single(_) => note(LogLevel::Log, "Accepting single number"@),
    }
}

/// The dispatcher's transition on `event` in `state`, for a message sent
/// by `from`.
pub open spec fn step_spec(state: DispatchState, event: EventModel, from: Seq<char>) -> StepModel {
    match (state, event) {
        (DispatchState::Received, EventModel::Start) => StepModel {
            state: DispatchState::AwaitingConfig,
            logs: seq![note(LogLevel::Log, "Received request"@)],
            action: ActionModel::ResolveConfig,
        },
        (DispatchState::AwaitingConfig, EventModel::ConfigResolved(None)) => StepModel {
            state: DispatchState::Finished,
            logs: seq![note(LogLevel::Error, "Failed to retrieve accepted numbers"@)],
            action: respond(Status::ServerError, "Failed to retrieve accepted numbers from environment"@),
        },
        (DispatchState::AwaitingConfig, EventModel::ConfigResolved(Some(c))) => {
            let p = policy_of(c);
            if accepts(p, from) {
                StepModel {
                    state: DispatchState::AwaitingHandler,
                    logs: seq![policy_note(p)],
                    action: ActionModel::InvokeHandler,
                }
            } else {
                StepModel {
                    state: DispatchState::Finished,
                    logs: seq![
                        policy_note(p),
                        note(LogLevel::Error, "From number failed check against accepted numbers"@),
                    ],
                    action: respond(Status::ServerError, "Invalid \"from\" number"@),
                }
            }
        },
        (DispatchState::AwaitingHandler, EventModel::HandlerReturned(true)) => StepModel {
            state: DispatchState::Finished,
            logs: seq![note(LogLevel::Log, "Handler succeeded"@)],
            action: respond(Status::Success, "Message handler succeeded"@),
        },
        (DispatchState::AwaitingHandler, EventModel::HandlerReturned(false)) => StepModel {
            state: DispatchState::Finished,
            logs: seq![note(LogLevel::Error, "Handler failed"@)],
            action: respond(Status::ServerError, "Message handler failed"@),
        },
        _ => StepModel { state, logs: Seq::empty(), action: ActionModel::Ignore },
    }
}

fn entry(level: LogLevel, message: &str) -> (r: LogEntry)
    ensures
        r@ == note(level, message@),
{
    LogEntry { level, message: message.to_owned() }
}

fn respond_with(status: Status, body: &str) -> (r: DispatchAction)
    ensures
        r@ == respond(status, body@),
{
    DispatchAction::Respond(Response { status, body: body.to_owned() })
}

fn one_line(e: LogEntry) -> (r: Vec<LogEntry>)
    ensures
        lines_of(r@) == seq![e@],
{
    let mut v: Vec<LogEntry> = Vec::new();
    v.push(e);
    assert(lines_of(v@) =~= seq![e@]);
    v
}

fn policy_entry(p: &NumberAcceptance) -> (r: LogEntry)
    ensures
        r@ == policy_note(p@),
{
    match p {
        NumberAcceptance::All => entry(LogLevel::Log, "Accepting all numbers"),
        NumberAcceptance::Specific(_) => entry(LogLevel::Log, "Accepting specific numbers"),
        NumberAcceptance::Single(_) => entry(LogLevel::Log, "Accepting single number"),
    }
}

/// Advances the handling of `msg` by one event: decides the next state,
/// the lines to log and what the runtime must do next.
pub fn step(state: DispatchState, event: DispatchEvent, msg: &InboundMessage) -> (r: Step)
    ensures
        r@ == step_spec(state, event@, msg@.from),
{
    let ghost ev = event@;
    match (state, event) {
        (DispatchState::Received, DispatchEvent::Start) => {
            let r = Step {
                state: DispatchState::AwaitingConfig,
                logs: one_line(entry(LogLevel::Log, "Received request")),
                action: DispatchAction::ResolveConfig,
            };
            assert(r@.logs == step_spec(state, ev, msg@.from).logs);
            assert(r@.action == step_spec(state, ev, msg@.from).action);
            r
        },
        (DispatchState::AwaitingConfig, DispatchEvent::ConfigResolved(None)) => {
            let r = Step {
                state: DispatchState::Finished,
                logs: one_line(entry(LogLevel::Error, "Failed to retrieve accepted numbers")),
                action: respond_with(
                    Status::ServerError,
                    "Failed to retrieve accepted numbers from environment",
                ),
            };
            assert(r@.logs == step_spec(state, ev, msg@.from).logs);
            assert(r@.action == step_spec(state, ev, msg@.from).action);
            r
        },
        (DispatchState::AwaitingConfig, DispatchEvent::ConfigResolved(Some(c))) => {
            let policy = build_policy(c.as_str());
            let mut logs = one_line(policy_entry(&policy));
            assert(ev == EventModel::ConfigResolved(Some(c@)));
            if policy.evaluate(&msg.get_from()) {
                let r = Step { state: DispatchState::AwaitingHandler, logs, action: DispatchAction::InvokeHandler };
                assert(r@.logs == step_spec(state, ev, msg@.from).logs);
                assert(r@.action == step_spec(state, ev, msg@.from).action);
                r
            } else {
                let ghost first = lines_of(logs@);
                let failed = entry(LogLevel::Error, "From number failed check against accepted numbers");
                logs.push(failed);
                assert(lines_of(logs@) =~= first.push(failed@));
                let r = Step {
                    state: DispatchState::Finished,
                    logs,
                    action: respond_with(Status::ServerError, "Invalid \"from\" number"),
                };
                assert(r@.logs == step_spec(state, ev, msg@.from).logs);
                assert(r@.action == step_spec(state, ev, msg@.from).action);
                r
            }
        },
        (DispatchState::AwaitingHandler, DispatchEvent::HandlerReturned(true)) => {
            let r = Step {
                state: DispatchState::Finished,
                logs: one_line(entry(LogLevel::Log, "Handler succeeded")),
                action: respond_with(Status::Success, "Message handler succeeded"),
            };
            assert(r@.logs == step_spec(state, ev, msg@.from).logs);
            assert(r@.action == step_spec(state, ev, msg@.from).action);
            r
        },
        (DispatchState::AwaitingHandler, DispatchEvent::HandlerReturned(false)) => {
            let r = Step {
                state: DispatchState::Finished,
                logs: one_line(entry(LogLevel::Error, "Handler failed")),
                action: respond_with(Status::ServerError, "Message handler failed"),
            };
            assert(r@.logs == step_spec(state, ev, msg@.from).logs);
            assert(r@.action == step_spec(state, ev, msg@.from).action);
            r
        },
        (s, _) => {
            let logs: Vec<LogEntry> = Vec::new();
            assert(lines_of(logs@) =~= Seq::<EntryModel>::empty());
            let r = Step { state: s, logs, action: DispatchAction::Ignore };
            assert(r@.logs == step_spec(state, ev, msg@.from).logs);
            assert(r@.action == step_spec(state, ev, msg@.from).action);
            r
        },
    }
}

/// The state and action once the configuration `config` has been reported
/// for a message from `from`.
pub open spec fn after_config(config: Option<Seq<char>>, from: Seq<char>) -> StepModel {
    let started = step_spec(DispatchState::Received, EventModel::Start, from);
    step_spec(started.state, EventModel::ConfigResolved(config), from)
}

/// The final action of a whole run: the configuration `config` is reported
/// and, if the dispatcher asks for it, the handler runs and returns `handler_ok`.
pub open spec fn run_action(config: Option<Seq<char>>, from: Seq<char>, handler_ok: bool) -> ActionModel {
    let decided = after_config(config, from);
    match decided.action {
        ActionModel::InvokeHandler => step_spec(
            decided.state,
            EventModel::HandlerReturned(handler_ok),
            from,
        ).action,
        other => other,
    }
}

/// A run ends in the success response exactly when the configuration was
/// read, its policy accepts the sender and the handler reports success;
/// every run ends in a response.
pub proof fn lemma_success_iff_accepted_and_handled(
    config: Option<Seq<char>>,
    from: Seq<char>,
    handler_ok: bool,
)
    ensures
        run_action(config, from, handler_ok) is Respond,
        (run_action(config, from, handler_ok) == respond(Status::Success, "Message handler succeeded"@))
            <==> (config is Some && accepts(policy_of(config->0), from) && handler_ok),
{
}

/// A sender that the policy refuses gets the invalid-sender response, and
/// the handler is never asked to run, whatever it would have returned.
pub proof fn lemma_rejected_sender(config: Seq<char>, from: Seq<char>, handler_ok: bool)
    requires
        !accepts(policy_of(config), from),
    ensures
        !(after_config(Some(config), from).action is InvokeHandler),
        after_config(Some(config), from).state == DispatchState::Finished,
        run_action(Some(config), from, handler_ok) == respond(Status::ServerError, "Invalid \"from\" number"@),
{
}

/// An accepted sender whose handler fails gets the handler-failure response.
pub proof fn lemma_handler_failure(config: Seq<char>, from: Seq<char>)
    requires
        accepts(policy_of(config), from),
    ensures
        after_config(Some(config), from).action is InvokeHandler,
        run_action(Some(config), from, false) == respond(Status::ServerError, "Message handler failed"@),
{
}

} // verus!
