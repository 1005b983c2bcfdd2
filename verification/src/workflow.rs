//! The run as a state machine: the caller does the outside work that an
//! action asks for and reports back what happened as an event.

use crate::log::{DeliveryOutcome, DeliveryOutcomeView, LogRecord, LogRecordView};
use crate::message::{
    compose, composed, ComposedMessage, ComposedMessageView, ComposeErrorView,
};
use crate::report::{ReportContent, ReportContentView};
use crate::request::{duplicate_optional, Login, LoginView, SendRequest, SendRequestView};
use crate::stamp::{stamp_text, Timestamp, TimestampView};
use vstd::prelude::*;
use vstd::string::*;

verus! {

/// The stages of a run, in the order in which they are passed.
#[derive(Clone, Copy, Debug, PartialEq, Eq, Structural)]
pub enum Stage {
    ParsingArgs,
    LoadingReport,
    Composing,
    Sending,
    Logging,
    Done,
}

impl Stage {
    /// The place of a stage in the run.
    pub open spec fn rank(self) -> int {
        match self {
            Stage::ParsingArgs => 0,
            Stage::LoadingReport => 1,
            Stage::Composing => 2,
            Stage::Sending => 3,
            Stage::Logging => 4,
            Stage::Done => 5,
        }
    }
}

/// Mathematical model of a [`Workflow`].
pub enum WorkflowView {
    ParsingArgs,
    LoadingReport { request: SendRequestView },
    Composing { request: SendRequestView, content: ReportContentView },
    Sending { request: SendRequestView, stamp: TimestampView },
    Logging,
    Done { failed: bool },
}

/// Where a run stands, with what it has gathered so far.
#[derive(Debug)]
pub enum Workflow {
    /// Waiting for the command line to be resolved.
    ParsingArgs,
    /// Waiting for the bytes of the report file.
    LoadingReport { request: SendRequest },
    /// Waiting for the moment that stamps the subject.
    Composing { request: SendRequest, content: ReportContent },
    /// Waiting for the transport to return.
    Sending { request: SendRequest, stamp: Timestamp },
    /// Waiting for the log line to be written.
    Logging,
    /// Nothing is left to do.
    Done { failed: bool },
}

impl View for Workflow {
    type V = WorkflowView;

    open spec fn view(&self) -> WorkflowView {
        match *self {
            Workflow::ParsingArgs => WorkflowView::ParsingArgs,
            Workflow::LoadingReport { request } => WorkflowView::LoadingReport {
                request: request@,
            },
            Workflow::Composing { request, content } => WorkflowView::Composing {
                request: request@,
                content: content@,
            },
            Workflow::Sending { request, stamp } => WorkflowView::Sending {
                request: request@,
                stamp: stamp@,
            },
            Workflow::Logging => WorkflowView::Logging,
            Workflow::Done { failed } => WorkflowView::Done { failed },
        }
    }
}

/// Mathematical model of an [`Event`].
pub enum EventView {
    ArgsParsed { request: SendRequestView },
    ArgsRejected { usage: Seq<char> },
    ReportRead { bytes: Option<Seq<u8>> },
    ClockRead { now: Option<TimestampView> },
    MessageRefused { cause: Seq<char> },
    TransportRefused { cause: Seq<char> },
    SendReturned { outcome: DeliveryOutcomeView },
    LogWritten,
    LogFailed { cause: Seq<char> },
}

/// What the caller reports back after doing the outside work.
#[derive(Debug)]
pub enum Event {
    /// The command line named everything that is required.
    ArgsParsed { request: SendRequest },
    /// The command line was rejected; `usage` is the message for the user.
    ArgsRejected { usage: String },
    /// The report file was read, or could not be read.
    ReportRead { bytes: Option<Vec<u8>> },
    /// The local clock was read, or gave no usable moment.
    ClockRead { now: Option<Timestamp> },
    /// The mail library refused to build the message.
    MessageRefused { cause: String },
    /// The transport to the server could not be set up.
    TransportRefused { cause: String },
    /// The one attempt to send returned.
    SendReturned { outcome: DeliveryOutcome },
    /// The log line was appended.
    LogWritten,
    /// The log could not be written.
    LogFailed { cause: String },
}

impl View for Event {
    type V = EventView;

    open spec fn view(&self) -> EventView {
        match *self {
            Event::ArgsParsed { request } => EventView::ArgsParsed { request: request@ },
            Event::ArgsRejected { usage } => EventView::ArgsRejected { usage: usage@ },
            Event::ReportRead { bytes } => EventView::ReportRead {
                bytes: match bytes {
                    Some(b) => Some(b@),
                    None => None,
                },
            },
            Event::ClockRead { now } => EventView::ClockRead {
                now: match now {
                    Some(t) => Some(t@),
                    None => None,
                },
            },
            Event::MessageRefused { cause } => EventView::MessageRefused { cause: cause@ },
            Event::TransportRefused { cause } => EventView::TransportRefused { cause: cause@ },
            Event::SendReturned { outcome } => EventView::SendReturned { outcome: outcome@ },
            Event::LogWritten => EventView::LogWritten,
            Event::LogFailed { cause } => EventView::LogFailed { cause: cause@ },
        }
    }
}

/// Mathematical model of an [`Action`].
pub enum ActionView {
    ReadReport { path: Seq<char> },
    ReadClock,
    Send { message: ComposedMessageView, host: Seq<char>, login: LoginView },
    Record { record: LogRecordView },
    Abort { diagnostic: Seq<char> },
    Finish,
}

/// The outside work that the caller is asked to do next.
#[derive(Debug)]
pub enum Action {
    /// Read the file at `path`.
    ReadReport { path: String },
    /// Read the local clock.
    ReadClock,
    /// Send `message` through `host`, over TLS, authenticated with `login`.
    Send { message: ComposedMessage, host: String, login: Login },
    /// Append the record's line to the log and show its console line.
    Record { record: LogRecord },
    /// Show `diagnostic` and end the process with an error.
    Abort { diagnostic: String },
    /// End the process.
    Finish,
}

impl View for Action {
    type V = ActionView;

    open spec fn view(&self) -> ActionView {
        match *self {
            Action::ReadReport { path } => ActionView::ReadReport { path: path@ },
            Action::ReadClock => ActionView::ReadClock,
            Action::Send { message, host, login } => ActionView::Send {
                message: message@,
                host: host@,
                login: login@,
            },
            Action::Record { record } => ActionView::Record { record: record@ },
            Action::Abort { diagnostic } => ActionView::Abort { diagnostic: diagnostic@ },
            Action::Finish => ActionView::Finish,
        }
    }
}

impl WorkflowView {
    /// The stage of a run.
    pub open spec fn stage(self) -> Stage {
        match self {
            WorkflowView::ParsingArgs => Stage::ParsingArgs,
            WorkflowView::LoadingReport { .. } => Stage::LoadingReport,
            WorkflowView::Composing { .. } => Stage::Composing,
            WorkflowView::Sending { .. } => Stage::Sending,
            WorkflowView::Logging => Stage::Logging,
            WorkflowView::Done { .. } => Stage::Done,
        }
    }
}

/// The end of a run that cannot go on.
pub open spec fn fatal(diagnostic: Seq<char>) -> (WorkflowView, ActionView) {
    (WorkflowView::Done { failed: true }, ActionView::Abort { diagnostic })
}

/// The diagnostic for an event that the stage was not waiting for.
pub open spec fn out_of_order() -> Seq<char> {
    "event out of order"@
}

/// The diagnostic for a clock that gave no usable moment.
pub open spec fn clock_unusable() -> Seq<char> {
    "local clock out of range"@
}

/// The diagnostic for a message that the mail library refused to build.
pub open spec fn message_refused(cause: Seq<char>) -> Seq<char> {
    "构造邮件消息体失败:"@ + ": "@ + cause
}

/// The diagnostic for a transport that could not be set up.
pub open spec fn transport_refused(cause: Seq<char>) -> Seq<char> {
    "解析SMTP服务器失败:"@ + ": "@ + cause
}

/// What a composed request asks the transport to do, or how it ends the
/// run when an address is rejected.
pub open spec fn dispatch(request: SendRequestView, content: ReportContentView, stamp: TimestampView) -> (
    WorkflowView,
    ActionView,
) {
    match composed(request, content, stamp) {
        Ok(message) => (
            WorkflowView::Sending { request, stamp },
            ActionView::Send { message, host: request.server_host, login: request.login() },
        ),
        Err(error) => fatal(error.diagnostic()),
    }
}

/// The record of a send that returned.
pub open spec fn record_of(
    request: SendRequestView,
    stamp: TimestampView,
    outcome: DeliveryOutcomeView,
) -> LogRecordView {
    LogRecordView {
        stamp: stamp_text(stamp),
        outcome,
        recipient: request.recipient,
        cc: request.cc,
    }
}

/// The transition of the run: from a stage and the event reported to it,
/// to the next stage and the action to take. Each stage waits for its own
/// events; any other event ends the run.
pub open spec fn step_spec(state: WorkflowView, event: EventView) -> (WorkflowView, ActionView) {
    match (state, event) {
        (WorkflowView::ParsingArgs, EventView::ArgsParsed { request }) => (
            WorkflowView::LoadingReport { request },
            ActionView::ReadReport { path: request.report_path },
        ),
        (WorkflowView::ParsingArgs, EventView::ArgsRejected { usage }) => fatal(usage),
        (WorkflowView::LoadingReport { request }, EventView::ReportRead { bytes }) => (
            WorkflowView::Composing { request, content: ReportContentView::of_read(bytes) },
            ActionView::ReadClock,
        ),
        (WorkflowView::Composing { request, content }, EventView::ClockRead { now }) => match now {
            Some(stamp) => dispatch(request, content, stamp),
            None => fatal(clock_unusable()),
        },
        (WorkflowView::Sending { .. }, EventView::MessageRefused { cause }) => fatal(
            message_refused(cause),
        ),
        (WorkflowView::Sending { .. }, EventView::TransportRefused { cause }) => fatal(
            transport_refused(cause),
        ),
        (WorkflowView::Sending { request, stamp }, EventView::SendReturned { outcome }) => (
            WorkflowView::Logging,
            ActionView::Record { record: record_of(request, stamp, outcome) },
        ),
        (WorkflowView::Logging, EventView::LogWritten) => (
            WorkflowView::Done { failed: false },
            ActionView::Finish,
        ),
        (WorkflowView::Logging, EventView::LogFailed { cause }) => fatal(cause),
        _ => fatal(out_of_order()),
    }
}

/// A run never goes back: every step leaves the stage for a later one,
/// and a run that is done stays done.
pub proof fn step_moves_forward(state: WorkflowView, event: EventView)
    ensures
        state.stage() != Stage::Done ==> step_spec(state, event).0.stage().rank()
            > state.stage().rank(),
        state.stage() == Stage::Done ==> step_spec(state, event).0.stage() == Stage::Done,
{
}

/// A run that cannot go on is done and has failed, and only such a step
/// asks to abort.
pub proof fn abort_is_final(state: WorkflowView, event: EventView)
    ensures
        step_spec(state, event).1 is Abort <==> step_spec(state, event).0 == (
            WorkflowView::Done { failed: true }),
{
}

/// Sending is asked for on leaving the composing stage and nowhere else,
/// so once in a run at most; what is sent is the composed message, to the
/// request's server, with the request's login.
pub proof fn send_follows_compose(state: WorkflowView, event: EventView)
    ensures
        step_spec(state, event).1 matches ActionView::Send { message, host, login } ==> {
            &&& state matches WorkflowView::Composing { request, content }
            &&& event matches EventView::ClockRead { now: Some(stamp) }
            &&& composed(request, content, stamp) == Ok::<
                ComposedMessageView,
                ComposeErrorView,
            >(message)
            &&& host == request.server_host
            &&& login == request.login()
            &&& step_spec(state, event).0 == (WorkflowView::Sending { request, stamp })
        },
{
}

/// The log gets a line only for an attempt to send that returned: no
/// failure before the sending stage is recorded.
pub proof fn record_follows_send(state: WorkflowView, event: EventView)
    ensures
        step_spec(state, event).1 matches ActionView::Record { record } ==> {
            &&& state matches WorkflowView::Sending { request, stamp }
            &&& event matches EventView::SendReturned { outcome }
            &&& record == record_of(request, stamp, outcome)
            &&& step_spec(state, event).0 == WorkflowView::Logging
        },
{
}

/// A report that could not be read does not end the run: composing goes
/// on with empty content.
pub proof fn unread_report_goes_on(request: SendRequestView)
    ensures
        step_spec(
            WorkflowView::LoadingReport { request },
            EventView::ReportRead { bytes: None },
        ) == (
            WorkflowView::Composing {
                request,
                content: ReportContentView::of_bytes(Seq::empty()),
            },
            ActionView::ReadClock,
        ),
{
}

/// The bytes read from the report file are the bytes of the attachment
/// that is sent.
pub proof fn attachment_is_report(request: SendRequestView, bytes: Seq<u8>, stamp: TimestampView)
    ensures
        ({
            let loaded = step_spec(
                WorkflowView::LoadingReport { request },
                EventView::ReportRead { bytes: Some(bytes) },
            );
            let stamped = step_spec(loaded.0, EventView::ClockRead { now: Some(stamp) });
            stamped.1 matches ActionView::Send { message, .. } ==> message.attachment.content
                == bytes
        }),
{
}

/// Ends the run with a diagnostic.
fn abort(diagnostic: String) -> (next: (Workflow, Action))
    ensures
        (next.0@, next.1@) == fatal(diagnostic@),
{
    (Workflow::Done { failed: true }, Action::Abort { diagnostic })
}

/// Ends the run because the event does not belong to the stage.
fn reject() -> (next: (Workflow, Action))
    ensures
        (next.0@, next.1@) == fatal(out_of_order()),
{
    abort(String::from_str("event out of order"))
}

impl Workflow {
    /// A run before anything has happened.
    pub fn start() -> (state: Workflow)
        ensures
            state@ == WorkflowView::ParsingArgs,
    {
        Workflow::ParsingArgs
    }

    /// The stage of the run.
    pub fn stage(&self) -> (stage: Stage)
        ensures
            stage == self@.stage(),
    {
        match self {
            Workflow::ParsingArgs => Stage::ParsingArgs,
            Workflow::LoadingReport { .. } => Stage::LoadingReport,
            Workflow::Composing { .. } => Stage::Composing,
            Workflow::Sending { .. } => Stage::Sending,
            Workflow::Logging => Stage::Logging,
            Workflow::Done { .. } => Stage::Done,
        }
    }

    /// Takes the run one step further: consumes the event that the caller
    /// reports and says what to do next.
    pub fn step(self, event: Event) -> (next: (Workflow, Action))
        ensures
            (next.0@, next.1@) == step_spec(self@, event@),
    {
        match self {
            Workflow::ParsingArgs => match event {
                Event::ArgsParsed { request } => {
                    let path = request.report_path.clone();
                    (Workflow::LoadingReport { request }, Action::ReadReport { path })
                },
                Event::ArgsRejected { usage } => abort(usage),
                _ => reject(),
            },
            Workflow::LoadingReport { request } => match event {
                Event::ReportRead { bytes } => {
                    let content = ReportContent::from_read(bytes);
                    (Workflow::Composing { request, content }, Action::ReadClock)
                },
                _ => reject(),
            },
            Workflow::Composing { request, content } => match event {
                Event::ClockRead { now } => match now {
                    Some(stamp) => match compose(&request, &content, &stamp) {
                        Ok(message) => {
                            let host = request.server_host.clone();
                            let login = request.login();
                            (
                                Workflow::Sending { request, stamp },
                                Action::Send { message, host, login },
                            )
                        },
                        Err(error) => abort(error.diagnostic()),
                    },
                    None => abort(String::from_str("local clock out of range")),
                },
                _ => reject(),
            },
            Workflow::Sending { request, stamp } => match event {
                Event::MessageRefused { cause } => {
                    let mut diagnostic = String::from_str("构造邮件消息体失败:");
                    diagnostic.append(": ");
                    diagnostic.append(cause.as_str());
                    abort(diagnostic)
                },
                Event::TransportRefused { cause } => {
                    let mut diagnostic = String::from_str("解析SMTP服务器失败:");
                    diagnostic.append(": ");
                    diagnostic.append(cause.as_str());
                    abort(diagnostic)
                },
                Event::SendReturned { outcome } => {
                    let record = LogRecord {
                        stamp: stamp.text(),
                        outcome,
                        recipient: request.recipient.clone(),
                        cc: duplicate_optional(&request.cc),
                    };
                    (Workflow::Logging, Action::Record { record })
                },
                _ => reject(),
            },
            Workflow::Logging => match event {
                Event::LogWritten => (Workflow::Done { failed: false }, Action::Finish),
                Event::LogFailed { cause } => abort(cause),
                _ => reject(),
            },
            Workflow::Done { .. } => reject(),
        }
    }
}

} // verus!
