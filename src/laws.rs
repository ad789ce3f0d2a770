use crate::bridge::{
    events_after_inject, is_open, response_of, sends_after_submit, state_after_request,
    submit_result, BridgeState, SubmitError,
};
use crate::routes::{message_path, route_of, server_error_text, ContentType, Method, Route};
use crate::supervisor::{action_for, next_phase, Phase, StopReason, SupervisorAction, SupervisorEvent};
use vstd::prelude::*;

verus! {

/// What the consumer has received once the inbound relay has offered every
/// message of `msgs` in turn, starting from state `s` with `delivered`
/// already consumed. The relay offers a message with `inject`; where the
/// queue is full it waits, and the consumer drains the whole queue.
pub open spec fn relay_run<T>(s: BridgeState<T>, delivered: Seq<T>, msgs: Seq<T>) -> Seq<T>
    decreases 2 * msgs.len() + (if s.events.len() >= s.cap && s.events.len() > 0 {
        1nat
    } else {
        0nat
    }),
{
    if msgs.len() == 0 {
        delivered + s.events
    } else if s.events.len() >= s.cap && s.events.len() > 0 {
        relay_run(BridgeState { events: Seq::empty(), ..s }, delivered + s.events, msgs)
    } else {
        relay_run(
            BridgeState { events: events_after_inject(s, msgs[0]), ..s },
            delivered,
            msgs.drop_first(),
        )
    }
}

/// Ordering: every message read from the broadcast channel reaches the
/// consumer, in the order it was read, for any number of messages and any
/// capacity, while the session runs.
pub proof fn lemma_inbound_order<T>(s: BridgeState<T>, delivered: Seq<T>, msgs: Seq<T>)
    requires
        is_open(s.phase),
        s.events.len() <= s.cap,
        0 < s.cap,
    ensures
        relay_run(s, delivered, msgs) == delivered + s.events + msgs,
    decreases 2 * msgs.len() + (if s.events.len() >= s.cap && s.events.len() > 0 {
        1nat
    } else {
        0nat
    }),
{
    if msgs.len() == 0 {
        assert(delivered + s.events + msgs =~= delivered + s.events);
    } else if s.events.len() >= s.cap && s.events.len() > 0 {
        let t = BridgeState { events: Seq::<T>::empty(), ..s };
        lemma_inbound_order(t, delivered + s.events, msgs);
        assert(delivered + s.events + t.events =~= delivered + s.events);
    } else {
        let t = BridgeState { events: events_after_inject(s, msgs[0]), ..s };
        assert(t.events == s.events.push(msgs[0]));
        lemma_inbound_order(t, delivered, msgs.drop_first());
        assert(delivered + t.events + msgs.drop_first() =~= delivered + s.events + msgs);
    }
}

/// Backpressure: once the outbound queue is full, submitting a message fails
/// at once with `QueueFull`, the request gets a server error, and the queue
/// stays as it was.
pub proof fn lemma_backpressure<T>(s: BridgeState<T>, m: T)
    requires
        is_open(s.phase),
        s.sends.len() >= s.cap,
    ensures
        submit_result(s, true) == Err::<(), SubmitError>(SubmitError::QueueFull),
        sends_after_submit(s, Some(m)) == s.sends,
        response_of(s, Method::Post, message_path(), true).0 == 500,
        state_after_request(s, Method::Post, message_path(), Some(m)) == s,
{
}

/// No coupling between the directions: the answer to a request, and what it
/// does to the outbound queue, do not depend on the inbound events waiting
/// for the consumer, and a request leaves those events as they are.
pub proof fn lemma_directions_independent<T>(
    s: BridgeState<T>,
    inbound: Seq<T>,
    m: Method,
    path: Seq<u8>,
    body: Option<T>,
)
    ensures
        response_of(BridgeState { events: inbound, ..s }, m, path, body is Some) == response_of(
            s,
            m,
            path,
            body is Some,
        ),
        state_after_request(BridgeState { events: inbound, ..s }, m, path, body) == (BridgeState {
            events: inbound,
            ..state_after_request(s, m, path, body)
        }),
        state_after_request(s, m, path, body).events == s.events,
{
}

/// Clean shutdown: a closed broadcast connection takes an active session to
/// `Terminating`, which closes the connections; the relays' exit or the end
/// of the grace period then takes it to `Terminated`, which is never left;
/// and from the close on no message reaches the consumer's queue.
pub proof fn lemma_clean_shutdown<T>(s: BridgeState<T>, last: SupervisorEvent, later: SupervisorEvent, m: T)
    requires
        s.phase == Phase::Active,
        last == SupervisorEvent::RelaysJoined || last == SupervisorEvent::GraceExpired,
    ensures
        next_phase(
            Phase::Active,
            SupervisorEvent::RelayStopped(StopReason::ChannelClosed),
        ) == Phase::Terminating,
        action_for(Phase::Active, SupervisorEvent::RelayStopped(StopReason::ChannelClosed))
            == SupervisorAction::CloseConnections,
        next_phase(Phase::Terminating, last) == Phase::Terminated,
        next_phase(Phase::Terminated, later) == Phase::Terminated,
        events_after_inject(BridgeState { phase: Phase::Terminating, ..s }, m) == s.events,
        events_after_inject(BridgeState { phase: Phase::Terminated, ..s }, m) == s.events,
{
}

/// Static routes are idempotent: a GET changes nothing, so the same GET
/// again gets a byte-identical response.
pub proof fn lemma_static_routes_idempotent<T>(
    s: BridgeState<T>,
    path: Seq<u8>,
    b1: Option<T>,
    b2: Option<T>,
)
    ensures
        state_after_request(s, Method::Get, path, b1) == s,
        response_of(state_after_request(s, Method::Get, path, b1), Method::Get, path, b2 is Some)
            == response_of(s, Method::Get, path, b1 is Some),
{
}

/// Malformed input is rejected: a POST to `/message` whose body did not
/// decode gets a server error and leaves the outbound queue unchanged.
pub proof fn lemma_malformed_rejected<T>(s: BridgeState<T>)
    ensures
        response_of(s, Method::Post, message_path(), false) == (
            500u16,
            ContentType::Unspecified,
            server_error_text(),
        ),
        state_after_request(s, Method::Post, message_path(), None) == s,
{
}

} // verus!
