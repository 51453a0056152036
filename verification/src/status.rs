//! The life of one capture connection, as its status shows it.
//!
//! A recording stream starts idle, connects, and is then connected or
//! suspended for as long as the device plays along. Once it is terminated or
//! has failed it stays so: a new stream has to be made.

use vstd::prelude::*;

verus! {

/// Why the audio server gave a stream up.
#[derive(Debug)]
pub enum StreamFailure {
    /// The server did not answer in time.
    Timeout,
    /// Any other error, with the server's words for it.
    Other(String),
}

/// The state that the audio server reports of a stream.
#[derive(Debug)]
pub enum StreamState {
    Unconnected,
    Creating,
    Ready,
    Failed(StreamFailure),
    Terminated,
}

/// What is shown of a recording stream.
#[derive(Debug)]
pub enum SinkInputStreamStatus {
    Idle,
    TimedOut,
    Connected,
    Suspended,
    Terminated,
    Connecting,
    Failed(String),
}

/// The status that a reported state stands for.
pub open spec fn status_of(state: StreamState) -> SinkInputStreamStatus {
    match state {
        StreamState::Ready => SinkInputStreamStatus::Connected,
        StreamState::Unconnected => SinkInputStreamStatus::Connecting,
        StreamState::Creating => SinkInputStreamStatus::Connecting,
        StreamState::Terminated => SinkInputStreamStatus::Terminated,
        StreamState::Failed(StreamFailure::Timeout) => SinkInputStreamStatus::TimedOut,
        StreamState::Failed(StreamFailure::Other(reason)) => SinkInputStreamStatus::Failed(reason),
    }
}

impl SinkInputStreamStatus {
    /// A stream that is terminated, has failed or has timed out does not
    /// come back.
    pub open spec fn is_terminal(self) -> bool {
        self is Terminated || self is Failed || self is TimedOut
    }

    /// The status after the audio server reported `state`.
    pub open spec fn after_state(self, state: StreamState) -> SinkInputStreamStatus {
        if self.is_terminal() {
            self
        } else {
            status_of(state)
        }
    }

    /// The status after the audio server reported the device as suspended
    /// or as running again.
    pub open spec fn after_suspension(self, suspended: bool) -> SinkInputStreamStatus {
        if self.is_terminal() {
            self
        } else if suspended {
            SinkInputStreamStatus::Suspended
        } else {
            SinkInputStreamStatus::Connected
        }
    }

    /// Tells whether the stream is beyond recovery.
    pub fn terminal(&self) -> (terminal: bool)
        ensures
            terminal == self.is_terminal(),
    {
        match self {
            SinkInputStreamStatus::Terminated => true,
            SinkInputStreamStatus::Failed(_) => true,
            SinkInputStreamStatus::TimedOut => true,
            _ => false,
        }
    }

    /// Takes a state report of the audio server into the status.
    pub fn on_state(self, state: StreamState) -> (next: SinkInputStreamStatus)
        ensures
            next == self.after_state(state),
    {
        if self.terminal() {
            return self;
        }
        match state {
            StreamState::Ready => SinkInputStreamStatus::Connected,
            StreamState::Unconnected => SinkInputStreamStatus::Connecting,
            StreamState::Creating => SinkInputStreamStatus::Connecting,
            StreamState::Terminated => SinkInputStreamStatus::Terminated,
            StreamState::Failed(failure) => match failure {
                StreamFailure::Timeout => SinkInputStreamStatus::TimedOut,
                StreamFailure::Other(reason) => SinkInputStreamStatus::Failed(reason),
            },
        }
    }

    /// Takes a report that the device was suspended, or resumed, into the
    /// status.
    pub fn on_suspended(self, suspended: bool) -> (next: SinkInputStreamStatus)
        ensures
            next == self.after_suspension(suspended),
    {
        if self.terminal() {
            self
        } else if suspended {
            SinkInputStreamStatus::Suspended
        } else {
            SinkInputStreamStatus::Connected
        }
    }
}

impl Default for SinkInputStreamStatus {
    fn default() -> (status: Self)
        ensures
            status == SinkInputStreamStatus::Idle,
    {
        SinkInputStreamStatus::Idle
    }
}

impl Clone for SinkInputStreamStatus {
    fn clone(&self) -> (copy: Self)
        ensures
            copy == *self,
    {
        match self {
            SinkInputStreamStatus::Idle => SinkInputStreamStatus::Idle,
            SinkInputStreamStatus::TimedOut => SinkInputStreamStatus::TimedOut,
            SinkInputStreamStatus::Connected => SinkInputStreamStatus::Connected,
            SinkInputStreamStatus::Suspended => SinkInputStreamStatus::Suspended,
            SinkInputStreamStatus::Terminated => SinkInputStreamStatus::Terminated,
            SinkInputStreamStatus::Connecting => SinkInputStreamStatus::Connecting,
            SinkInputStreamStatus::Failed(reason) => SinkInputStreamStatus::Failed(reason.clone()),
        }
    }
}

/// Once a stream is beyond recovery, no report changes its status.
pub proof fn lemma_terminal_status_stays(
    status: SinkInputStreamStatus,
    state: StreamState,
    suspended: bool,
)
    requires
        status.is_terminal(),
    ensures
        status.after_state(state) == status,
        status.after_suspension(suspended) == status,
{
}

/// A stream reaches the end only by a report of termination or failure: a
/// suspension never ends it, and the two running states lead into each other.
pub proof fn lemma_suspension_is_reversible(status: SinkInputStreamStatus)
    requires
        !status.is_terminal(),
    ensures
        !status.after_suspension(true).is_terminal(),
        status.after_suspension(true).after_suspension(false) == SinkInputStreamStatus::Connected,
        status.after_suspension(false).after_suspension(true) == SinkInputStreamStatus::Suspended,
{
}

} // verus!
