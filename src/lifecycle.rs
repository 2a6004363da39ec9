//! The lifecycle of one connection attempt, from the first transport connect
//! to its terminal state. Any phase may fail; `Disconnected` and `Failed` are
//! terminal, and only an established connection carries substreams.

use vstd::prelude::*;

use crate::error::ConnectionManagerError;

verus! {

#[derive(Debug, Clone, PartialEq, Eq)]
pub enum ConnectionState {
    Connecting,
    Authenticating,
    Validating,
    Multiplexing,
    Negotiating,
    Established,
    Disconnected,
    Failed(ConnectionManagerError),
}

/// What the connection's supervising task observes.
#[derive(Debug)]
pub enum LifecycleEvent {
    /// The current phase finished successfully.
    PhaseCompleted,
    /// The current phase failed with this error.
    PhaseFailed(ConnectionManagerError),
    /// The connection was closed.
    Closed,
}

pub open spec fn is_terminal(s: ConnectionState) -> bool {
    s is Disconnected || s is Failed
}

/// The state after `event` in state `s`.
pub open spec fn lifecycle_step(s: ConnectionState, event: LifecycleEvent) -> ConnectionState {
    if is_terminal(s) {
        s
    } else {
        match event {
            LifecycleEvent::PhaseCompleted => match s {
                ConnectionState::Connecting => ConnectionState::Authenticating,
                ConnectionState::Authenticating => ConnectionState::Validating,
                ConnectionState::Validating => ConnectionState::Multiplexing,
                ConnectionState::Multiplexing => ConnectionState::Negotiating,
                _ => ConnectionState::Established,
            },
            LifecycleEvent::PhaseFailed(e) => ConnectionState::Failed(e),
            LifecycleEvent::Closed => ConnectionState::Disconnected,
        }
    }
}

impl ConnectionState {
    /// Applies `event`: a completed phase moves on to the next one, a failure
    /// in any phase ends in `Failed` with its error, and a close ends in
    /// `Disconnected`. A terminal state is kept whatever happens.
    pub fn step(self, event: LifecycleEvent) -> (r: ConnectionState)
        ensures
            r == lifecycle_step(self, event),
    {
        match self {
            ConnectionState::Disconnected => return self,
            ConnectionState::Failed(_) => return self,
            _ => {},
        }
        match event {
            LifecycleEvent::PhaseCompleted => match self {
                ConnectionState::Connecting => ConnectionState::Authenticating,
                ConnectionState::Authenticating => ConnectionState::Validating,
                ConnectionState::Validating => ConnectionState::Multiplexing,
                ConnectionState::Multiplexing => ConnectionState::Negotiating,
                _ => ConnectionState::Established,
            },
            LifecycleEvent::PhaseFailed(e) => ConnectionState::Failed(e),
            LifecycleEvent::Closed => ConnectionState::Disconnected,
        }
    }

    /// Whether substreams may be opened: only on an established connection.
    pub fn allows_substreams(&self) -> (r: bool)
        ensures
            r == (*self is Established),
    {
        match self {
            ConnectionState::Established => true,
            _ => false,
        }
    }

    /// Whether no event can move this state any more.
    pub fn is_terminal(&self) -> (r: bool)
        ensures
            r == is_terminal(*self),
    {
        match self {
            ConnectionState::Disconnected => true,
            ConnectionState::Failed(_) => true,
            _ => false,
        }
    }
}

/// No event leaves a terminal state, and an established connection stays
/// established until it is closed or fails.
pub proof fn lemma_terminal_states_are_final(s: ConnectionState, event: LifecycleEvent)
    ensures
        is_terminal(s) ==> lifecycle_step(s, event) == s,
        s is Established && event is PhaseCompleted ==> lifecycle_step(s, event) == s,
{
}

} // verus!
