//! The decisions of the client of the audio server.
//!
//! The client itself sits on the server's blocking event loop and does
//! nothing but input and output. What it has to decide between two calls is
//! decided here: when a connection is ready or lost, which notifications are
//! passed on, and when an enumeration is complete.

use vstd::prelude::*;
use vstd::string::StringExecFns;
use vstd::std_specs::convert::FromSpecImpl;
use crate::selector::Operation;
use crate::sink_input::SinkInput;

verus! {

/// Why the client could not do what it was asked.
#[derive(Debug)]
pub enum PulseClientError {
    /// The audio server refused the connection.
    ConnectionFailed,
    /// The audio server answered an enumeration with an error.
    ListError,
    /// The client cannot work at all.
    Fatal(String),
}

/// Why the program could not start.
#[derive(Debug)]
pub enum AppError {
    PulseClient(PulseClientError),
}

/// What the client passes on to the rest of the program.
#[derive(Debug)]
pub enum PulseClientEvent {
    /// Something happened to the sink input `index`.
    SinkInput { index: u32, operation: Operation },
    /// A chunk of captured audio.
    Audio(Vec<u8>),
}

/// What a notification of the audio server is about.
#[derive(Debug, Clone, Copy, PartialEq, Eq, Structural)]
pub enum Facility {
    SinkInput,
    Other,
}

/// How one turn of the server's event loop ended.
#[derive(Debug, Clone, Copy, PartialEq, Eq, Structural)]
pub enum IterateResult {
    Success,
    Quit,
    Failed,
}

/// The state that the audio server reports of the connection.
#[derive(Debug, Clone, Copy, PartialEq, Eq, Structural)]
pub enum ContextState {
    Unconnected,
    Connecting,
    Authorizing,
    SettingName,
    Ready,
    Failed,
    Terminated,
}

/// What to do after one turn of the event loop while connecting.
#[derive(Debug, Clone, Copy, PartialEq, Eq, Structural)]
pub enum ConnectStep {
    /// Turn the loop once more.
    Wait,
    /// The connection stands.
    Ready,
    /// The event loop quit or failed: the attempt is over.
    LoopFailed,
    /// The server failed or terminated the connection: the attempt is over.
    ConnectionLost,
}

/// One answer of the audio server to an enumeration.
#[derive(Debug)]
pub enum ListReply {
    Item(SinkInput),
    End,
    Error,
}

/// What to do after one answer to an enumeration.
#[derive(Debug, Clone, Copy, PartialEq, Eq, Structural)]
pub enum ListStep {
    /// More answers are to come.
    More,
    /// The enumeration is complete.
    Done,
    /// The enumeration failed, and what was collected is void.
    Failed,
}

/// The step after a turn of the event loop: a loop that quit or failed ends
/// the attempt, whatever the connection is in; after a good turn a ready
/// connection stands, a failed or terminated one ends the attempt, and any
/// other state asks for another turn.
pub open spec fn next_connect_step(iterated: IterateResult, state: ContextState) -> ConnectStep {
    if iterated != IterateResult::Success {
        ConnectStep::LoopFailed
    } else if state == ContextState::Ready {
        ConnectStep::Ready
    } else if state == ContextState::Failed || state == ContextState::Terminated {
        ConnectStep::ConnectionLost
    } else {
        ConnectStep::Wait
    }
}

/// Decides how connecting goes on after one turn of the event loop, of which
/// `iterated` tells how it ended and `state` what the server then reported.
pub fn connect_step(iterated: IterateResult, state: ContextState) -> (step: ConnectStep)
    ensures
        step == next_connect_step(iterated, state),
{
    match iterated {
        IterateResult::Success => {},
        _ => {
            return ConnectStep::LoopFailed;
        },
    }
    match state {
        ContextState::Ready => ConnectStep::Ready,
        ContextState::Failed | ContextState::Terminated => ConnectStep::ConnectionLost,
        _ => ConnectStep::Wait,
    }
}

impl ConnectStep {
    /// What the error of a step that ends the attempt says.
    pub open spec fn failure(self) -> Option<Seq<char>> {
        match self {
            ConnectStep::LoopFailed => Some("Failed mainloop iterate state"@),
            ConnectStep::ConnectionLost => Some("Context state failed/terminated"@),
            _ => None,
        }
    }

    /// The error that ends the attempt, where the step ends it.
    pub fn error(&self) -> (error: Option<PulseClientError>)
        ensures
            match self.failure() {
                Some(text) => error matches Some(PulseClientError::Fatal(t)) && t@ == text,
                None => error is None,
            },
    {
        match self {
            ConnectStep::LoopFailed => Some(
                PulseClientError::Fatal(String::from_str("Failed mainloop iterate state")),
            ),
            ConnectStep::ConnectionLost => Some(
                PulseClientError::Fatal(String::from_str("Context state failed/terminated")),
            ),
            _ => None,
        }
    }
}

/// Turns a notification of the audio server into an event. Only what
/// concerns a sink input and names an operation is passed on.
pub fn subscription_event(facility: Option<Facility>, operation: Option<Operation>, index: u32) -> (event: Option<PulseClientEvent>)
    ensures
        event == match (facility, operation) {
            (Some(Facility::SinkInput), Some(op)) => Some(
                PulseClientEvent::SinkInput { index, operation: op },
            ),
            _ => None,
        },
{
    match facility {
        Some(Facility::SinkInput) => match operation {
            Some(op) => Some(PulseClientEvent::SinkInput { index, operation: op }),
            None => None,
        },
        _ => None,
    }
}

/// Takes one answer to an enumeration: an item joins those collected, the
/// end completes them, an error voids them.
pub fn collect_reply(collected: &mut Vec<SinkInput>, reply: ListReply) -> (step: ListStep)
    ensures
        match reply {
            ListReply::Item(item) => step == ListStep::More && final(collected)@ == old(
                collected,
            )@.push(item),
            ListReply::End => step == ListStep::Done && final(collected)@ == old(collected)@,
            ListReply::Error => step == ListStep::Failed && final(collected)@ == Seq::<
                SinkInput,
            >::empty(),
        },
{
    match reply {
        ListReply::Item(item) => {
            collected.push(item);
            ListStep::More
        },
        ListReply::End => ListStep::Done,
        ListReply::Error => {
            collected.clear();
            ListStep::Failed
        },
    }
}

impl PulseClientError {
    /// What the error says: the text of a fatal error, or a fixed sentence.
    pub open spec fn message(self) -> Seq<char> {
        match self {
            PulseClientError::ConnectionFailed => "Failed to connect to the audio server"@,
            PulseClientError::ListError => "Failed to list the sink inputs"@,
            PulseClientError::Fatal(text) => text@,
        }
    }

    /// The error as text.
    pub fn to_string(&self) -> (text: String)
        ensures
            text@ == self.message(),
    {
        match self {
            PulseClientError::ConnectionFailed => String::from_str(
                "Failed to connect to the audio server",
            ),
            PulseClientError::ListError => String::from_str("Failed to list the sink inputs"),
            PulseClientError::Fatal(text) => text.clone(),
        }
    }
}

impl AppError {
    /// The error as text: that of the error it wraps.
    pub fn to_string(&self) -> (text: String)
        ensures
            self matches AppError::PulseClient(inner) && text@ == inner.message(),
    {
        match self {
            AppError::PulseClient(inner) => inner.to_string(),
        }
    }
}

impl From<PulseClientError> for AppError {
    fn from(value: PulseClientError) -> (error: AppError) {
        AppError::PulseClient(value)
    }
}

impl FromSpecImpl<PulseClientError> for AppError {
    open spec fn obeys_from_spec() -> bool {
        true
    }

    open spec fn from_spec(value: PulseClientError) -> AppError {
        AppError::PulseClient(value)
    }
}

} // verus!
