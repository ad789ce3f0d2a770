use vstd::prelude::*;

verus! {

/// Where a session stands in its life.
#[derive(Clone, Copy, Debug, PartialEq, Eq, Structural)]
pub enum Phase {
    Uninitialized,
    Connecting,
    Active,
    Terminating,
    Terminated,
}

/// What the supervisor learns from the outside world.
#[derive(Clone, Copy, Debug, PartialEq, Eq, Structural)]
pub enum SupervisorEvent {
    /// The caller asks for the session to start.
    Start,
    /// The connection info and both channel connections are established.
    Connected,
    /// Establishing the connection info or a channel connection failed.
    ConnectFailed,
    /// Both relays have started.
    RelaysStarted,
    /// A relay stopped; the reason says why.
    RelayStopped(StopReason),
    /// The caller asks for the session to end.
    ShutdownRequested,
    /// Both relay tasks have exited.
    RelaysJoined,
    /// The shutdown grace period ran out before the relays exited.
    GraceExpired,
}

/// Why a relay stopped.
#[derive(Clone, Copy, Debug, PartialEq, Eq, Structural)]
pub enum StopReason {
    /// The connection's peer or resource is gone.
    ChannelClosed,
    /// The connection delivered data that did not decode.
    ProtocolError,
    /// The consumer's event loop has shut down.
    ConsumerGone,
}

/// What the supervisor asks its caller to do after a transition.
#[derive(Clone, Copy, Debug, PartialEq, Eq, Structural)]
pub enum SupervisorAction {
    /// Establish the connection info and both channel connections.
    Connect,
    /// Spawn the inbound and the outbound relay.
    SpawnRelays,
    /// Report that the session failed to start.
    ReportStartupError,
    /// Close both channel connections and wait, for at most the grace
    /// period, for both relays to exit.
    CloseConnections,
    /// Leave relays that did not exit in time behind.
    AbandonRelays,
    /// The session is over.
    Finish,
    /// Nothing to do.
    Nothing,
}

/// The phase that follows `p` on event `e`.
pub open spec fn next_phase(p: Phase, e: SupervisorEvent) -> Phase {
    match (p, e) {
        (Phase::Uninitialized, SupervisorEvent::Start) => Phase::Connecting,
        (Phase::Connecting, SupervisorEvent::Connected) => Phase::Connecting,
        (Phase::Connecting, SupervisorEvent::RelaysStarted) => Phase::Active,
        (Phase::Connecting, SupervisorEvent::ConnectFailed) => Phase::Terminated,
        (Phase::Connecting, SupervisorEvent::RelayStopped(_)) => Phase::Terminating,
        (Phase::Connecting, SupervisorEvent::ShutdownRequested) => Phase::Terminating,
        (Phase::Active, SupervisorEvent::RelayStopped(_)) => Phase::Terminating,
        (Phase::Active, SupervisorEvent::ShutdownRequested) => Phase::Terminating,
        (Phase::Terminating, SupervisorEvent::RelaysJoined) => Phase::Terminated,
        (Phase::Terminating, SupervisorEvent::GraceExpired) => Phase::Terminated,
        _ => p,
    }
}

/// The action that goes with the transition from `p` on event `e`.
pub open spec fn action_for(p: Phase, e: SupervisorEvent) -> SupervisorAction {
    match (p, e) {
        (Phase::Uninitialized, SupervisorEvent::Start) => SupervisorAction::Connect,
        (Phase::Connecting, SupervisorEvent::Connected) => SupervisorAction::SpawnRelays,
        (Phase::Connecting, SupervisorEvent::ConnectFailed) => SupervisorAction::ReportStartupError,
        (Phase::Connecting, SupervisorEvent::RelayStopped(_)) => SupervisorAction::CloseConnections,
        (Phase::Connecting, SupervisorEvent::ShutdownRequested) => SupervisorAction::CloseConnections,
        (Phase::Active, SupervisorEvent::RelayStopped(_)) => SupervisorAction::CloseConnections,
        (Phase::Active, SupervisorEvent::ShutdownRequested) => SupervisorAction::CloseConnections,
        (Phase::Terminating, SupervisorEvent::RelaysJoined) => SupervisorAction::Finish,
        (Phase::Terminating, SupervisorEvent::GraceExpired) => SupervisorAction::AbandonRelays,
        _ => SupervisorAction::Nothing,
    }
}

/// The supervisor's transition: the next phase and what to do about it.
pub fn transition(p: Phase, e: SupervisorEvent) -> (r: (Phase, SupervisorAction))
    ensures
        r.0 == next_phase(p, e),
        r.1 == action_for(p, e),
{
    match (p, e) {
        (Phase::Uninitialized, SupervisorEvent::Start) => (Phase::Connecting, SupervisorAction::Connect),
        (Phase::Connecting, SupervisorEvent::Connected) => (Phase::Connecting, SupervisorAction::SpawnRelays),
        (Phase::Connecting, SupervisorEvent::RelaysStarted) => (Phase::Active, SupervisorAction::Nothing),
        (Phase::Connecting, SupervisorEvent::ConnectFailed) => (Phase::Terminated, SupervisorAction::ReportStartupError),
        (Phase::Connecting, SupervisorEvent::RelayStopped(_)) => (Phase::Terminating, SupervisorAction::CloseConnections),
        (Phase::Connecting, SupervisorEvent::ShutdownRequested) => (Phase::Terminating, SupervisorAction::CloseConnections),
        (Phase::Active, SupervisorEvent::RelayStopped(_)) => (Phase::Terminating, SupervisorAction::CloseConnections),
        (Phase::Active, SupervisorEvent::ShutdownRequested) => (Phase::Terminating, SupervisorAction::CloseConnections),
        (Phase::Terminating, SupervisorEvent::RelaysJoined) => (Phase::Terminated, SupervisorAction::Finish),
        (Phase::Terminating, SupervisorEvent::GraceExpired) => (Phase::Terminated, SupervisorAction::AbandonRelays),
        _ => (p, SupervisorAction::Nothing),
    }
}

/// The terminated phase is never left.
pub proof fn lemma_terminated_absorbing(e: SupervisorEvent)
    ensures
        next_phase(Phase::Terminated, e) == Phase::Terminated,
        action_for(Phase::Terminated, e) == SupervisorAction::Nothing,
{
}

/// A failure while connecting ends the session at once, with no relay left
/// running.
pub proof fn lemma_startup_failure_terminates()
    ensures
        next_phase(Phase::Connecting, SupervisorEvent::ConnectFailed) == Phase::Terminated,
        action_for(Phase::Connecting, SupervisorEvent::ConnectFailed)
            == SupervisorAction::ReportStartupError,
{
}

} // verus!
