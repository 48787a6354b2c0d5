//! The life of the loop as a managed background service: what the host is
//! told, and what its control requests lead to.

use crate::schedule::{LifecycleSignal, Phase, StopReason};
use vstd::prelude::*;

verus! {

/// What the host knows of the service.
#[derive(Clone, Copy, Debug, PartialEq, Eq, Structural)]
pub enum ServiceState {
    /// The service has been launched and has not reported yet.
    Starting,
    /// The loop runs.
    Running,
    /// A stop was asked for and the loop has ended.
    StopPending,
    /// The service has ended.
    Stopped,
}

/// A request of the host.
#[derive(Clone, Copy, Debug, PartialEq, Eq, Structural)]
pub enum ControlEvent {
    /// The host asks for the current state.
    Interrogate,
    /// The host asks the service to stop.
    Stop,
    /// Any other request.
    Other,
}

/// The answer to a request of the host.
#[derive(Clone, Copy, Debug, PartialEq, Eq, Structural)]
pub enum ControlReply {
    /// The request was taken.
    NoError,
    /// The service does not know such a request.
    NotImplemented,
}

/// What a request of the host leads to.
#[derive(Clone, Copy, Debug, PartialEq, Eq, Structural)]
pub struct ControlOutcome {
    /// The answer for the host.
    pub reply: ControlReply,
    /// The signal to raise for the sleeping loop.
    pub signal: LifecycleSignal,
}

/// What a request of the host leads to: a stop is acknowledged and raises
/// the stop signal, an interrogation is acknowledged and changes nothing,
/// and nothing else is known.
pub open spec fn control_outcome(event: ControlEvent) -> ControlOutcome {
    match event {
        ControlEvent::Interrogate => ControlOutcome {
            reply: ControlReply::NoError,
            signal: LifecycleSignal::Nothing,
        },
        ControlEvent::Stop => ControlOutcome {
            reply: ControlReply::NoError,
            signal: LifecycleSignal::StopRequested,
        },
        ControlEvent::Other => ControlOutcome {
            reply: ControlReply::NotImplemented,
            signal: LifecycleSignal::Nothing,
        },
    }
}

/// Answers a request of the host.
pub fn handle_control(event: ControlEvent) -> (r: ControlOutcome)
    ensures
        r == control_outcome(event),
{
    match event {
        ControlEvent::Interrogate => ControlOutcome {
            reply: ControlReply::NoError,
            signal: LifecycleSignal::Nothing,
        },
        ControlEvent::Stop => ControlOutcome {
            reply: ControlReply::NoError,
            signal: LifecycleSignal::StopRequested,
        },
        ControlEvent::Other => ControlOutcome {
            reply: ControlReply::NotImplemented,
            signal: LifecycleSignal::Nothing,
        },
    }
}

impl ServiceState {
    /// The place of a state in the order in which states are reported.
    pub open spec fn rank(self) -> int {
        match self {
            ServiceState::Starting => 0,
            ServiceState::Running => 1,
            ServiceState::StopPending => 2,
            ServiceState::Stopped => 3,
        }
    }

    /// The state that follows `self` when the loop stands at `phase`: a
    /// started service runs while the loop does; a loop that a stop signal
    /// ended leaves a running service pending, and then stopped; a loop that
    /// a failure ended, or that ended before the service ran, leaves it
    /// stopped at once.
    pub open spec fn following(self, phase: Phase) -> ServiceState {
        match self {
            ServiceState::Starting => if phase is Stopped {
                ServiceState::Stopped
            } else {
                ServiceState::Running
            },
            ServiceState::Running => match phase {
                Phase::Stopped(StopReason::Failed(_)) => ServiceState::Stopped,
                Phase::Stopped(_) => ServiceState::StopPending,
                _ => ServiceState::Running,
            },
            ServiceState::StopPending => ServiceState::Stopped,
            ServiceState::Stopped => ServiceState::Stopped,
        }
    }

    /// The state to hold after a look at the loop. The host is owed a report
    /// where the result differs from `self`.
    pub fn advance(self, phase: &Phase) -> (r: ServiceState)
        ensures
            r == self.following(*phase),
    {
        match self {
            ServiceState::Starting => match phase {
                Phase::Stopped(_) => ServiceState::Stopped,
                _ => ServiceState::Running,
            },
            ServiceState::Running => match phase {
                Phase::Stopped(StopReason::Failed(_)) => ServiceState::Stopped,
                Phase::Stopped(_) => ServiceState::StopPending,
                _ => ServiceState::Running,
            },
            ServiceState::StopPending => ServiceState::Stopped,
            ServiceState::Stopped => ServiceState::Stopped,
        }
    }

    /// Whether the service has ended.
    pub fn is_terminal(self) -> (r: bool)
        ensures
            r == (self == ServiceState::Stopped),
    {
        match self {
            ServiceState::Stopped => true,
            _ => false,
        }
    }
}

/// States are reported in order and none twice: a look at the loop leaves
/// the state or moves it forward, and `Stopped` is never left.
pub proof fn lemma_states_move_forward(state: ServiceState, phase: Phase)
    ensures
        state.following(phase) == state || state.following(phase).rank() > state.rank(),
        state == ServiceState::Stopped ==> state.following(phase) == ServiceState::Stopped,
{
}

/// Once the loop has ended, on a stop signal or on a failure, two looks at
/// it bring any state to `Stopped`.
pub proof fn lemma_ended_loop_is_reported_stopped(state: ServiceState, phase: Phase)
    requires
        phase is Stopped,
    ensures
        state.following(phase).following(phase) == ServiceState::Stopped,
{
}

} // verus!
