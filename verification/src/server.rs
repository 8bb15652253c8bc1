//! The diagnostic `server` session as a small state machine.
//!
//! The listener itself is concurrent I/O and lives outside the library;
//! here stand the session's phases and the decisions between them, so
//! the runner only performs the action the current phase names.

use vstd::prelude::*;

verus! {

/// The phases of the diagnostic session.
#[derive(Clone, Copy, Debug, PartialEq, Eq, Structural)]
pub enum ServerPhase {
    /// The listener has been started.
    Listening,
    /// The synthetic self-test notification has been sent; the session
    /// blocks on a line of operator input.
    AwaitingInput,
    /// The session is over.
    Terminated,
}

/// What the session observes.
#[derive(Clone, Copy, Debug, PartialEq, Eq, Structural)]
pub enum ServerEvent {
    /// The self-test notification was dispatched.
    SelfTestSent,
    /// The operator pressed enter.
    OperatorInput,
}

/// What the runner is to do next.
#[derive(Clone, Copy, Debug, PartialEq, Eq, Structural)]
pub enum ServerAction {
    /// Send the synthetic self-test notification.
    SendSelfTest,
    /// Block until the operator provides a line of input.
    WaitForInput,
    /// Stop: the session is over.
    Finish,
}

/// The transition relation of the session.
pub open spec fn spec_step(phase: ServerPhase, event: ServerEvent) -> ServerPhase {
    match (phase, event) {
        (ServerPhase::Listening, ServerEvent::SelfTestSent) => ServerPhase::AwaitingInput,
        (ServerPhase::AwaitingInput, ServerEvent::OperatorInput) => ServerPhase::Terminated,
        (ServerPhase::Terminated, _) => ServerPhase::Terminated,
        (p, _) => p,
    }
}

impl ServerPhase {
    /// Advances the session by one observed event.
    pub fn step(self, event: ServerEvent) -> (r: ServerPhase)
        ensures
            r == spec_step(self, event),
    {
        match (self, event) {
            (ServerPhase::Listening, ServerEvent::SelfTestSent) => ServerPhase::AwaitingInput,
            (ServerPhase::AwaitingInput, ServerEvent::OperatorInput) => ServerPhase::Terminated,
            (p, _) => p,
        }
    }

    /// The action owed in this phase.
    pub fn next_action(self) -> (r: ServerAction)
        ensures
            self is Listening ==> r is SendSelfTest,
            self is AwaitingInput ==> r is WaitForInput,
            self is Terminated ==> r is Finish,
    {
        match self {
            ServerPhase::Listening => ServerAction::SendSelfTest,
            ServerPhase::AwaitingInput => ServerAction::WaitForInput,
            ServerPhase::Terminated => ServerAction::Finish,
        }
    }
}

/// Law: the session that starts listening, sends its self-test and then
/// sees operator input terminates, and nothing leaves termination.
pub proof fn lemma_server_session_terminates()
    ensures
        spec_step(
            spec_step(ServerPhase::Listening, ServerEvent::SelfTestSent),
            ServerEvent::OperatorInput,
        ) == ServerPhase::Terminated,
        forall|e: ServerEvent| spec_step(ServerPhase::Terminated, e) == ServerPhase::Terminated,
{
}

} // verus!
