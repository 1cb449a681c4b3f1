//! The session coordinator.
//!
//! A session is a state machine. It is told what happened on the socket and
//! what the clock reads, and answers with the one thing to do next. The driver
//! that owns the socket performs that action and reports what came of it. The
//! session ends as soon as either direction of the socket fails or closes.

use vstd::prelude::*;
use crate::address::{connect_target, parsed_url, inspect_address, InvalidAddress};
use crate::event::{classify, classified, outcome, ClassifyError, ClassifyErrorModel, DebugEvent,
    DebugEventModel};
use crate::keep_alive::{KeepAlive, Poll};
use crate::protocol::{ControlMessage, Method, ENABLE_ID};
use crate::render::{render, rendering_of, Rendering, RenderingModel};

verus! {

/// Why a session ended other than by the remote end closing the connection.
#[derive(Debug)]
pub enum SessionError {
    /// The session token gave no address to connect to.
    InvalidAddress,
    /// The connection could not be established.
    Connect(String),
    /// A control message could not be sent.
    Send(String),
    /// The socket failed while it was read.
    Receive(String),
    /// Every probe identifier has been used.
    KeepAliveExhausted,
}

pub enum SessionErrorModel {
    InvalidAddress,
    Connect(Seq<char>),
    Send(Seq<char>),
    Receive(Seq<char>),
    KeepAliveExhausted,
}

impl View for SessionError {
    type V = SessionErrorModel;

    open spec fn view(&self) -> SessionErrorModel {
        match self {
            SessionError::InvalidAddress => SessionErrorModel::InvalidAddress,
            SessionError::Connect(reason) => SessionErrorModel::Connect(reason@),
            SessionError::Send(reason) => SessionErrorModel::Send(reason@),
            SessionError::Receive(reason) => SessionErrorModel::Receive(reason@),
            SessionError::KeepAliveExhausted => SessionErrorModel::KeepAliveExhausted,
        }
    }
}

/// The message a session's failure is reported with.
pub open spec fn error_message(error: SessionErrorModel) -> Seq<char> {
    match error {
        SessionErrorModel::InvalidAddress => "the session token gives no address to connect to"@,
        SessionErrorModel::Connect(reason) => "could not connect to the inspector: "@ + reason,
        SessionErrorModel::Send(reason) => "could not send to the inspector: "@ + reason,
        SessionErrorModel::Receive(reason) => "could not read from the inspector: "@ + reason,
        SessionErrorModel::KeepAliveExhausted => "no identifier is left for another probe"@,
    }
}

impl SessionError {
    /// Writes the message to report this failure with.
    pub fn message(&self) -> (text: String)
        ensures
            text@ == error_message(self@),
    {
        match self {
            SessionError::InvalidAddress => String::from_str(
                "the session token gives no address to connect to",
            ),
            SessionError::Connect(reason) => {
                let mut text = String::from_str("could not connect to the inspector: ");
                text.append(reason.as_str());
                text
            },
            SessionError::Send(reason) => {
                let mut text = String::from_str("could not send to the inspector: ");
                text.append(reason.as_str());
                text
            },
            SessionError::Receive(reason) => {
                let mut text = String::from_str("could not read from the inspector: ");
                text.append(reason.as_str());
                text
            },
            SessionError::KeepAliveExhausted => String::from_str(
                "no identifier is left for another probe",
            ),
        }
    }
}

/// What the driver reports to the session.
#[derive(Debug)]
pub enum Input {
    /// The handshake with the remote end succeeded.
    Connected,
    /// The handshake failed.
    ConnectFailed(String),
    /// The message last handed to the driver is on the wire.
    SendCompleted,
    /// A message could not be written.
    SendFailed(String),
    /// Time has passed: the driver woke up to let the session look at the clock.
    Tick,
    /// A text frame arrived.
    MessageReceived(String),
    /// The socket failed while it was read.
    ReceiveFailed(String),
    /// The remote end closed the connection.
    RemoteClosed,
}

pub enum InputModel {
    Connected,
    ConnectFailed(Seq<char>),
    SendCompleted,
    SendFailed(Seq<char>),
    Tick,
    MessageReceived(Seq<char>),
    ReceiveFailed(Seq<char>),
    RemoteClosed,
}

impl View for Input {
    type V = InputModel;

    open spec fn view(&self) -> InputModel {
        match self {
            Input::Connected => InputModel::Connected,
            Input::ConnectFailed(reason) => InputModel::ConnectFailed(reason@),
            Input::SendCompleted => InputModel::SendCompleted,
            Input::SendFailed(reason) => InputModel::SendFailed(reason@),
            Input::Tick => InputModel::Tick,
            Input::MessageReceived(raw) => InputModel::MessageReceived(raw@),
            Input::ReceiveFailed(reason) => InputModel::ReceiveFailed(reason@),
            Input::RemoteClosed => InputModel::RemoteClosed,
        }
    }
}

/// What the session asks the driver to do.
#[derive(Debug)]
pub enum Action {
    /// Open the socket to this address.
    Connect(String),
    /// Write this control message to the socket.
    Send(ControlMessage),
    /// Start reading the socket, and start waking the session up for probes.
    StartStreaming,
    /// Write this line to the terminal.
    Write(Rendering),
    /// Record this entry in the log, at low severity.
    Log(String),
    /// Stop every activity, close the socket and return this result.
    Close(Result<(), SessionError>),
    /// Nothing to do but to wait for what happens next.
    Wait,
}

pub enum ActionModel {
    Connect(Seq<char>),
    Send(ControlMessage),
    StartStreaming,
    Write(RenderingModel),
    Log(Seq<char>),
    Close(Result<(), SessionErrorModel>),
    Wait,
}

impl View for Action {
    type V = ActionModel;

    open spec fn view(&self) -> ActionModel {
        match self {
            Action::Connect(address) => ActionModel::Connect(address@),
            Action::Send(message) => ActionModel::Send(*message),
            Action::StartStreaming => ActionModel::StartStreaming,
            Action::Write(rendering) => ActionModel::Write(rendering@),
            Action::Log(entry) => ActionModel::Log(entry@),
            Action::Close(Ok(_)) => ActionModel::Close(Ok(())),
            Action::Close(Err(error)) => ActionModel::Close(Err(error@)),
            Action::Wait => ActionModel::Wait,
        }
    }
}

/// The states of a session.
#[derive(Clone, Copy, Debug, PartialEq, Eq, Structural)]
pub enum Session {
    /// The connection is being set up. `opened` tells whether the handshake
    /// is done and the message that enables instrumentation is on its way.
    Connecting { opened: bool },
    /// Events are read and shown, and the connection is probed.
    ActiveStreaming(KeepAlive),
    /// The session is over.
    Terminated,
}

/// The log entry for a frame that was not recognised.
pub open spec fn log_entry(error: ClassifyErrorModel) -> Seq<char> {
    match error {
        ClassifyErrorModel::Malformed { reason } => "this event was not parsed as a DevtoolsEvent:\n"@
            + reason,
        ClassifyErrorModel::Unsupported => "this event is of a kind that is not shown"@,
    }
}

/// What a classified frame leads to: a recognised event is written, any other
/// frame is logged.
pub open spec fn shown(classified: Result<DebugEventModel, ClassifyErrorModel>) -> ActionModel {
    match classified {
        Ok(event) => ActionModel::Write(rendering_of(event)),
        Err(error) => ActionModel::Log(log_entry(error)),
    }
}

/// The first step of a session: connect to the parsed address, or give up
/// where there is none.
pub open spec fn opening(parsed: Option<Seq<char>>) -> (Session, ActionModel) {
    match parsed {
        Some(address) => (Session::Connecting { opened: false }, ActionModel::Connect(address)),
        None => (Session::Terminated, ActionModel::Close(Err(SessionErrorModel::InvalidAddress))),
    }
}

/// The transition function: the state a session moves to when `input` is
/// reported at clock reading `now`, and the action it answers with.
///
/// A terminated session does nothing. In a live session every failure, and
/// the remote end's closing, is final. The handshake's success sends the
/// enabling message; that message's completion starts streaming. While
/// streaming, a tick sends a probe if one is due, and a frame is written or
/// logged. An input that the state does not expect is passed over.
pub open spec fn next(session: Session, input: InputModel, now: u64) -> (Session, ActionModel) {
    match session {
        Session::Terminated => (session, ActionModel::Wait),
        _ => match input {
            InputModel::ConnectFailed(reason) => (
                Session::Terminated,
                ActionModel::Close(Err(SessionErrorModel::Connect(reason))),
            ),
            InputModel::SendFailed(reason) => (
                Session::Terminated,
                ActionModel::Close(Err(SessionErrorModel::Send(reason))),
            ),
            InputModel::ReceiveFailed(reason) => (
                Session::Terminated,
                ActionModel::Close(Err(SessionErrorModel::Receive(reason))),
            ),
            InputModel::RemoteClosed => (Session::Terminated, ActionModel::Close(Ok(()))),
            InputModel::Connected => match session {
                Session::Connecting { opened: false } => (
                    Session::Connecting { opened: true },
                    ActionModel::Send(ControlMessage { id: ENABLE_ID, method: Method::Enable }),
                ),
                _ => (session, ActionModel::Wait),
            },
            InputModel::SendCompleted => match session {
                Session::Connecting { opened: true } => (
                    Session::ActiveStreaming(KeepAlive::started_at(now)),
                    ActionModel::StartStreaming,
                ),
                _ => (session, ActionModel::Wait),
            },
            InputModel::Tick => match session {
                Session::ActiveStreaming(keep_alive) => match keep_alive.polled(now).1 {
                    Poll::NotDue => (session, ActionModel::Wait),
                    Poll::Probe(message) => (
                        Session::ActiveStreaming(keep_alive.polled(now).0),
                        ActionModel::Send(message),
                    ),
                    Poll::Exhausted => (
                        Session::Terminated,
                        ActionModel::Close(Err(SessionErrorModel::KeepAliveExhausted)),
                    ),
                },
                _ => (session, ActionModel::Wait),
            },
            InputModel::MessageReceived(raw) => match session {
                Session::ActiveStreaming(_) => (session, shown(classified(raw))),
                _ => (session, ActionModel::Wait),
            },
        },
    }
}

/// Decides what to do about a classified frame.
pub fn show(classified: Result<DebugEvent, ClassifyError>) -> (action: Action)
    ensures
        action@ == shown(outcome(classified)),
{
    match classified {
        Ok(event) => Action::Write(render(event)),
        Err(ClassifyError::Malformed { reason }) => {
            let mut entry = String::from_str("this event was not parsed as a DevtoolsEvent:\n");
            entry.append(reason.as_str());
            Action::Log(entry)
        },
        Err(ClassifyError::Unsupported) => Action::Log(
            String::from_str("this event is of a kind that is not shown"),
        ),
    }
}

impl Session {
    /// Starts a session from the address that a token gave.
    pub fn begin(target: Result<String, InvalidAddress>) -> (first: (Session, Action))
        ensures
            (first.0, first.1@) == opening(
                match target {
                    Ok(address) => Some(address@),
                    Err(_) => None,
                },
            ),
    {
        match target {
            Ok(address) => (Session::Connecting { opened: false }, Action::Connect(address)),
            Err(_) => (Session::Terminated, Action::Close(Err(SessionError::InvalidAddress))),
        }
    }

    /// Starts the session for the instance that `token` names.
    pub fn open(token: &str) -> (first: (Session, Action))
        ensures
            (first.0, first.1@) == opening(parsed_url(inspect_address(token@))),
    {
        Session::begin(connect_target(token))
    }

    /// Takes one input at clock reading `now` (in seconds, from a monotonic
    /// clock) and answers with the action to perform.
    pub fn step(&mut self, input: Input, now: u64) -> (action: Action)
        ensures
            (*final(self), action@) == next(*old(self), input@, now),
    {
        let session: Session = *self;
        if let Session::Terminated = session {
            return Action::Wait;
        }
        match input {
            Input::ConnectFailed(reason) => {
                *self = Session::Terminated;
                Action::Close(Err(SessionError::Connect(reason)))
            },
            Input::SendFailed(reason) => {
                *self = Session::Terminated;
                Action::Close(Err(SessionError::Send(reason)))
            },
            Input::ReceiveFailed(reason) => {
                *self = Session::Terminated;
                Action::Close(Err(SessionError::Receive(reason)))
            },
            Input::RemoteClosed => {
                *self = Session::Terminated;
                Action::Close(Ok(()))
            },
            Input::Connected => match session {
                Session::Connecting { opened: false } => {
                    *self = Session::Connecting { opened: true };
                    Action::Send(ControlMessage::enable())
                },
                _ => Action::Wait,
            },
            Input::SendCompleted => match session {
                Session::Connecting { opened: true } => {
                    *self = Session::ActiveStreaming(KeepAlive::start(now));
                    Action::StartStreaming
                },
                _ => Action::Wait,
            },
            Input::Tick => match session {
                Session::ActiveStreaming(keep_alive) => {
                    let mut generator: KeepAlive = keep_alive;
                    match generator.poll(now) {
                        Poll::NotDue => Action::Wait,
                        Poll::Probe(message) => {
                            *self = Session::ActiveStreaming(generator);
                            Action::Send(message)
                        },
                        Poll::Exhausted => {
                            *self = Session::Terminated;
                            Action::Close(Err(SessionError::KeepAliveExhausted))
                        },
                    }
                },
                _ => Action::Wait,
            },
            Input::MessageReceived(raw) => match session {
                Session::ActiveStreaming(_) => show(classify(raw.as_str())),
                _ => Action::Wait,
            },
        }
    }

    pub fn is_terminated(&self) -> (over: bool)
        ensures
            over == (*self == Session::Terminated),
    {
        match self {
            Session::Terminated => true,
            _ => false,
        }
    }

    /// How many seconds the driver may sleep at `now` before it owes the
    /// session a tick; `None` while no probes are sent.
    pub fn wake_after(&self, now: u64) -> (seconds: Option<u64>)
        ensures
            match *self {
                Session::ActiveStreaming(keep_alive) => seconds == Some(
                    keep_alive.remaining(now) as u64,
                ),
                _ => seconds is None,
            },
    {
        match self {
            Session::ActiveStreaming(keep_alive) => Some(keep_alive.wait(now)),
            _ => None,
        }
    }
}

} // verus!
