use vstd::prelude::*;
use vstd::string::StringExecFns;
use crate::error::LspError;
use crate::logging::Verbosity;
use crate::lsp::client::{parse_response, response_of};
use crate::task::BroadcastMessage;

verus! {

/// How the client reaches a language server.
#[derive(Debug, Clone, PartialEq, Eq)]
pub enum CommunicationProtocol {
    /// A child process that speaks over its standard streams.
    Stdio {
        /// Path to the server's binary.
        cmd: String,
        /// Arguments for the binary.
        args: Vec<String>,
    },
}

/// What a message of the server is.
#[derive(Debug, Clone, Copy, PartialEq, Eq, Structural)]
pub enum MessageKind {
    /// It answers a request: it has an id and a result or an error.
    Response,
    /// The server sent it unasked.
    Notification,
    /// It is neither. Such a message is dropped.
    Malformed,
}

/// Whether the message body `body` is a JSON-RPC notification.
pub uninterp spec fn is_notification(body: Seq<u8>) -> bool;

/// Whether `serde_json::from_slice` into a `jsonrpsee_types::Notification`
/// with a `serde_json::Value` as its parameters succeeds.
#[verifier::external_body]
fn parses_as_notification(body: &[u8]) -> (r: bool)
    ensures
        r == is_notification(body@),
{
    serde_json::from_slice::<jsonrpsee_types::Notification<serde_json::Value>>(body).is_ok()
}

/// What a message is, given whether it reads as a response and whether it
/// reads as a notification. It is tried as a response first.
pub open spec fn kind_by(response: bool, notification: bool) -> MessageKind {
    if response {
        MessageKind::Response
    } else if notification {
        MessageKind::Notification
    } else {
        MessageKind::Malformed
    }
}

/// Sorts a message by the two ways in which it was read.
pub fn classify_by(response: bool, notification: bool) -> (r: MessageKind)
    ensures
        r == kind_by(response, notification),
{
    if response {
        MessageKind::Response
    } else if notification {
        MessageKind::Notification
    } else {
        MessageKind::Malformed
    }
}

/// What the message body `body` is.
pub open spec fn kind_of(body: Seq<u8>) -> MessageKind {
    kind_by(response_of(body) is Some, is_notification(body))
}

/// Sorts a message of the server.
pub fn classify(body: &[u8]) -> (r: MessageKind)
    ensures
        r == kind_of(body@),
{
    if parse_response(body).is_some() {
        MessageKind::Response
    } else {
        classify_by(false, parses_as_notification(body))
    }
}

/// The four loops that serve one server process.
#[derive(Debug, Clone, Copy, PartialEq, Eq, Structural)]
pub enum SessionLoop {
    /// Writes the payloads of the client to the input of the process.
    StdinWriter,
    /// Reads the messages of the server from the output of the process.
    StdoutReader,
    /// Passes what the process writes to its error stream on to the log.
    StderrForwarder,
    /// Ends the process. No other loop may.
    ProcessSupervisor,
}

/// What a loop finds on the channel over which the session is cancelled.
#[derive(Debug, Clone, Copy, PartialEq, Eq, Structural)]
pub enum Signal {
    Received(BroadcastMessage),
    /// The channel itself failed.
    Lost,
}

/// What a loop does for the outside world before it goes on or ends.
#[derive(Debug, Clone, PartialEq, Eq)]
pub enum LoopAction {
    /// Write the payload to the input of the process, all of it.
    Write(String),
    /// Hand the body to everyone who waits for a response.
    PublishResponse(Vec<u8>),
    /// Hand the body to everyone who listens for notifications.
    PublishNotification(Vec<u8>),
    /// Log a line.
    Log(Verbosity, String),
    /// Log a line that ends with the text of a message body.
    LogBody(Verbosity, String, Vec<u8>),
    /// Kill the process, and wait until it is gone.
    Kill,
}

/// How a loop goes on. Only `Stop` is a clean end: an `Abort` is an error
/// of the session, and it ends the other loops too.
#[derive(Debug, Clone, PartialEq, Eq)]
pub enum Control {
    Continue,
    Stop,
    Abort(LspError),
}

/// One turn of a loop: what to do, in this order, and how to go on after.
/// An action that fails ends the loop with that failure.
#[derive(Debug, Clone, PartialEq, Eq)]
pub struct LoopStep {
    pub actions: Vec<LoopAction>,
    pub control: Control,
}

/// What a loop does on a signal: whether it kills the process, and how it
/// goes on. Every loop ends cleanly when the session is cancelled, and only
/// the supervisor kills; a lost signal is a failure of the session.
pub open spec fn reaction(which: SessionLoop, signal: Signal) -> (bool, Control) {
    match signal {
        Signal::Received(BroadcastMessage::KillLsp) => (
            which == SessionLoop::ProcessSupervisor,
            Control::Stop,
        ),
        Signal::Lost => (false, Control::Abort(LspError::ChannelClosed)),
    }
}

/// The turn of a loop that was woken by the cancellation channel. Nothing
/// is written, read or published in it.
pub fn on_signal(which: SessionLoop, signal: Signal) -> (r: LoopStep)
    ensures
        r.control == reaction(which, signal).1,
        r.actions@ == if reaction(which, signal).0 {
            seq![LoopAction::Kill]
        } else {
            Seq::<LoopAction>::empty()
        },
{
    let mut actions: Vec<LoopAction> = Vec::new();
    match signal {
        Signal::Received(BroadcastMessage::KillLsp) => {
            match which {
                SessionLoop::ProcessSupervisor => {
                    actions.push(LoopAction::Kill);
                    assert(actions@ =~= seq![LoopAction::Kill]);
                },
                _ => {},
            }
            LoopStep { actions, control: Control::Stop }
        },
        Signal::Lost => LoopStep { actions, control: Control::Abort(LspError::ChannelClosed) },
    }
}

/// The number of processes that `which` kills on `signal`.
pub open spec fn kills(which: SessionLoop, signal: Signal) -> nat {
    if reaction(which, signal).0 {
        1
    } else {
        0
    }
}

/// When the session is cancelled, each of the four loops ends, and cleanly;
/// and between them they kill the process exactly once.
pub proof fn lemma_cancellation_ends_every_loop()
    ensures
        forall|which: SessionLoop|
            (#[trigger] reaction(which, Signal::Received(BroadcastMessage::KillLsp))).1
                == Control::Stop,
        kills(SessionLoop::StdinWriter, Signal::Received(BroadcastMessage::KillLsp)) + kills(
            SessionLoop::StdoutReader,
            Signal::Received(BroadcastMessage::KillLsp),
        ) + kills(SessionLoop::StderrForwarder, Signal::Received(BroadcastMessage::KillLsp))
            + kills(SessionLoop::ProcessSupervisor, Signal::Received(BroadcastMessage::KillLsp))
            == 1,
{
}

/// The turn of the stdin writer when the channel of payloads yields
/// `input`: the payload is logged and written as it is. A closed channel
/// (`None`) is a failure of the session.
pub fn stdin_writer_step(input: Option<String>) -> (r: LoopStep)
    ensures
        match input {
            Some(payload) => r.control == Control::Continue && r.actions@.len() == 2
                && r.actions@[1] == LoopAction::Write(payload) && (r.actions@[0] matches LoopAction::Log(
                level,
                line,
            ) && level == Verbosity::Debug && line@ == "server stdin: "@ + payload@),
            None => r.control == Control::Abort(LspError::ChannelClosed) && r.actions@.len() == 0,
        },
{
    let mut actions: Vec<LoopAction> = Vec::new();
    match input {
        Some(payload) => {
            let mut line = String::from_str("server stdin: ");
            line.append(payload.as_str());
            actions.push(LoopAction::Log(Verbosity::Debug, line));
            actions.push(LoopAction::Write(payload));
            LoopStep { actions, control: Control::Continue }
        },
        None => LoopStep { actions, control: Control::Abort(LspError::ChannelClosed) },
    }
}

/// The turn of the stdout reader when framing yields `frame`: a body is
/// logged and then published by its kind, or, if it is malformed, logged
/// as an error and dropped, and the loop goes on either way. A failure of
/// framing ends the loop with that failure.
pub fn stdout_reader_step(frame: Result<Vec<u8>, LspError>) -> (r: LoopStep)
    ensures
        match frame {
            Ok(body) => {
                &&& r.control == Control::Continue
                &&& r.actions@.len() == 2
                &&& r.actions@[0] matches LoopAction::LogBody(level, prefix, logged) && level
                    == Verbosity::Debug && prefix@ == "server stdout: "@ && logged@ == body@
                &&& match kind_of(body@) {
                    MessageKind::Response => r.actions@[1] == LoopAction::PublishResponse(body),
                    MessageKind::Notification => r.actions@[1] == LoopAction::PublishNotification(
                        body,
                    ),
                    MessageKind::Malformed => r.actions@[1] matches LoopAction::LogBody(
                        level,
                        prefix,
                        logged,
                    ) && level == Verbosity::Error && prefix@
                        == "failed to deserialize server message: "@ && logged == body,
                }
            },
            Err(e) => r.control == Control::Abort(e) && r.actions@.len() == 0,
        },
{
    let mut actions: Vec<LoopAction> = Vec::new();
    match frame {
        Ok(body) => {
            let kind = classify(body.as_slice());
            actions.push(
                LoopAction::LogBody(Verbosity::Debug, String::from_str("server stdout: "), body.clone()),
            );
            match kind {
                MessageKind::Response => actions.push(LoopAction::PublishResponse(body)),
                MessageKind::Notification => actions.push(LoopAction::PublishNotification(body)),
                MessageKind::Malformed => actions.push(
                    LoopAction::LogBody(
                        Verbosity::Error,
                        String::from_str("failed to deserialize server message: "),
                        body,
                    ),
                ),
            }
            LoopStep { actions, control: Control::Continue }
        },
        Err(e) => LoopStep { actions, control: Control::Abort(e) },
    }
}

/// The turn of the stderr forwarder when the error stream yields `line`:
/// a line is logged, the end of the stream (`Ok(None)`) ends the loop
/// cleanly, and a failure ends it with that failure.
pub fn stderr_forwarder_step(line: Result<Option<String>, LspError>) -> (r: LoopStep)
    ensures
        match line {
            Ok(Some(text)) => r.control == Control::Continue && r.actions@.len() == 1
                && (r.actions@[0] matches LoopAction::Log(level, logged) && level
                == Verbosity::Debug && logged@ == "server stderr: "@ + text@),
            Ok(None) => r.control == Control::Stop && r.actions@.len() == 0,
            Err(e) => r.control == Control::Abort(e) && r.actions@.len() == 0,
        },
{
    let mut actions: Vec<LoopAction> = Vec::new();
    match line {
        Ok(Some(text)) => {
            let mut logged = String::from_str("server stderr: ");
            logged.append(text.as_str());
            actions.push(LoopAction::Log(Verbosity::Debug, logged));
            LoopStep { actions, control: Control::Continue }
        },
        Ok(None) => LoopStep { actions, control: Control::Stop },
        Err(e) => LoopStep { actions, control: Control::Abort(e) },
    }
}

} // verus!
