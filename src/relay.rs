use crate::supervisor::StopReason;
use vstd::prelude::*;

verus! {

/// What a read from a channel connection gave.
pub enum ReadOutcome<T> {
    /// A complete message.
    Message(T),
    /// The connection's peer or resource is gone.
    Closed,
    /// The data did not decode; the connection must be discarded.
    Malformed,
}

/// What a relay does next.
pub enum RelayStep<T> {
    /// Hand the message on.
    Forward(T),
    /// Stop, and report why to the supervisor.
    Stop(StopReason),
}

/// What a write to a channel connection gave.
#[derive(Clone, Copy, Debug, PartialEq, Eq, Structural)]
pub enum WriteOutcome {
    /// The message was fully flushed.
    Flushed,
    /// The peer is gone.
    Closed,
}

/// The inbound relay's reaction to a read: a message goes on to the
/// consumer, a closed connection ends the session cleanly, and a decode
/// failure ends it with a failure, since the rest of the stream cannot be
/// trusted.
pub fn inbound_step<T>(r: ReadOutcome<T>) -> (s: RelayStep<T>)
    ensures
        match r {
            ReadOutcome::Message(m) => s == RelayStep::Forward(m),
            ReadOutcome::Closed => s == RelayStep::<T>::Stop(StopReason::ChannelClosed),
            ReadOutcome::Malformed => s == RelayStep::<T>::Stop(StopReason::ProtocolError),
        },
{
    match r {
        ReadOutcome::Message(m) => RelayStep::Forward(m),
        ReadOutcome::Closed => RelayStep::Stop(StopReason::ChannelClosed),
        ReadOutcome::Malformed => RelayStep::Stop(StopReason::ProtocolError),
    }
}

/// The outbound relay's reaction to a write: it goes on after a flush, and
/// stops, dequeuing nothing more, once the peer is gone.
pub fn outbound_step(w: WriteOutcome) -> (s: Option<StopReason>)
    ensures
        w == WriteOutcome::Flushed ==> s is None,
        w == WriteOutcome::Closed ==> s == Some(StopReason::ChannelClosed),
{
    match w {
        WriteOutcome::Flushed => None,
        WriteOutcome::Closed => Some(StopReason::ChannelClosed),
    }
}

/// The script that hands a message, serialized as `json`, to the
/// presentation surface's global event handler.
pub fn event_script(json: &str) -> (r: String)
    ensures
        r@ == "globalThis.onMessage("@ + json@ + ")"@,
{
    let mut s = String::from_str("globalThis.onMessage(");
    s.append(json);
    s.append(")");
    s
}

} // verus!
