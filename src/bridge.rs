use crate::queue::BoundedQueue;
use crate::routes::{
    copy_bytes, not_found_text, route_of, server_error_text, ContentType, Method, Response, Route,
    StaticAssets,
};
use crate::supervisor::{action_for, next_phase, transition, Phase, SupervisorAction, SupervisorEvent};
use vstd::prelude::*;
use vstd::utf8::encode_utf8;

verus! {

/// Why a message could not be delivered to the consumer's event queue.
pub enum InjectError<T> {
    /// The event queue is full for now; the message comes back so that the
    /// relay can offer it again.
    Full(T),
    /// The session no longer runs, so nobody will consume the message.
    ConsumerGone(T),
}

/// Why a submitted message was not queued for sending.
#[derive(Clone, Copy, Debug, PartialEq, Eq, Structural)]
pub enum SubmitError {
    /// The request body did not decode into a message.
    Serialization,
    /// The outbound queue is full.
    QueueFull,
    /// The session no longer runs.
    Closed,
}

/// A session's state as plain values.
pub struct BridgeState<T> {
    pub phase: Phase,
    /// Messages waiting for the consumer, oldest first.
    pub events: Seq<T>,
    /// Messages waiting to be written to the kernel, oldest first.
    pub sends: Seq<T>,
    /// The capacity of each queue.
    pub cap: nat,
    pub index: Seq<u8>,
    pub script_path: Seq<u8>,
    pub script: Seq<u8>,
}

/// Whether messages still flow in phase `p`.
pub open spec fn is_open(p: Phase) -> bool {
    p == Phase::Connecting || p == Phase::Active
}

/// Whether messages still flow in phase `p`.
pub fn is_running(p: Phase) -> (b: bool)
    ensures
        b == is_open(p),
{
    p == Phase::Connecting || p == Phase::Active
}

/// The events after `m` is offered to the consumer's queue.
pub open spec fn events_after_inject<T>(s: BridgeState<T>, m: T) -> Seq<T> {
    if is_open(s.phase) && s.events.len() < s.cap {
        s.events.push(m)
    } else {
        s.events
    }
}

/// The outcome of submitting a request body; `decoded` tells whether it
/// decoded into a message.
pub open spec fn submit_result<T>(s: BridgeState<T>, decoded: bool) -> Result<(), SubmitError> {
    if !decoded {
        Err(SubmitError::Serialization)
    } else if !is_open(s.phase) {
        Err(SubmitError::Closed)
    } else if s.sends.len() >= s.cap {
        Err(SubmitError::QueueFull)
    } else {
        Ok(())
    }
}

/// The outbound queue after submitting `body`.
pub open spec fn sends_after_submit<T>(s: BridgeState<T>, body: Option<T>) -> Seq<T> {
    match body {
        Some(m) => if submit_result(s, true) is Ok {
            s.sends.push(m)
        } else {
            s.sends
        },
        None => s.sends,
    }
}

/// The response to a request with method `m` and path bytes `path`;
/// `decoded` tells whether its body decoded into a message.
pub open spec fn response_of<T>(s: BridgeState<T>, m: Method, path: Seq<u8>, decoded: bool) -> (
    u16,
    ContentType,
    Seq<u8>,
) {
    match route_of(s.script_path, m, path) {
        Route::Index => (200u16, ContentType::Html, s.index),
        Route::Script => (200u16, ContentType::JavaScript, s.script),
        Route::SubmitMessage => if submit_result(s, decoded) is Ok {
            (200u16, ContentType::Unspecified, Seq::empty())
        } else {
            (500u16, ContentType::Unspecified, server_error_text())
        },
        Route::NotFound => (404u16, ContentType::PlainText, not_found_text()),
    }
}

/// The state after a request with method `m`, path bytes `path` and a body
/// that decoded to `body`.
pub open spec fn state_after_request<T>(
    s: BridgeState<T>,
    m: Method,
    path: Seq<u8>,
    body: Option<T>,
) -> BridgeState<T> {
    if route_of(s.script_path, m, path) == Route::SubmitMessage {
        BridgeState { sends: sends_after_submit(s, body), ..s }
    } else {
        s
    }
}

/// One session of the bridge: its supervisor's phase, the consumer's event
/// queue fed by the inbound relay, the outbound queue drained by the outbound
/// relay, and the static content of the local interface.
pub struct Bridge<T> {
    phase: Phase,
    inbound: BoundedQueue<T>,
    outbound: BoundedQueue<T>,
    assets: StaticAssets,
}

impl<T> Bridge<T> {
    pub closed spec fn view(&self) -> BridgeState<T> {
        BridgeState {
            phase: self.phase,
            events: self.inbound.contents(),
            sends: self.outbound.contents(),
            cap: self.inbound.cap(),
            index: self.assets.index@,
            script_path: encode_utf8(self.assets.script_path@),
            script: self.assets.script@,
        }
    }

    pub closed spec fn wf(&self) -> bool {
        &&& self.inbound.wf()
        &&& self.outbound.wf()
        &&& self.inbound.cap() == self.outbound.cap()
    }

    /// A session that has not started, whose two queues hold at most
    /// `capacity` messages each.
    pub fn new(capacity: usize, assets: StaticAssets) -> (b: Self)
        requires
            0 < capacity,
        ensures
            b.wf(),
            b.view() == (BridgeState {
                phase: Phase::Uninitialized,
                events: Seq::<T>::empty(),
                sends: Seq::<T>::empty(),
                cap: capacity as nat,
                index: assets.index@,
                script_path: encode_utf8(assets.script_path@),
                script: assets.script@,
            }),
    {
        Bridge {
            phase: Phase::Uninitialized,
            inbound: BoundedQueue::new(capacity),
            outbound: BoundedQueue::new(capacity),
            assets,
        }
    }

    pub fn phase(&self) -> (p: Phase)
        ensures
            p == self.view().phase,
    {
        self.phase
    }

    /// How many messages wait for the consumer.
    pub fn pending_events(&self) -> (n: usize)
        ensures
            n == self.view().events.len(),
    {
        self.inbound.len()
    }

    /// How many messages wait to be written to the kernel.
    pub fn pending_sends(&self) -> (n: usize)
        ensures
            n == self.view().sends.len(),
    {
        self.outbound.len()
    }

    /// Feeds an event to the supervisor and returns what the caller must do.
    pub fn step(&mut self, e: SupervisorEvent) -> (a: SupervisorAction)
        requires
            old(self).wf(),
        ensures
            final(self).wf(),
            a == action_for(old(self).view().phase, e),
            final(self).view() == (BridgeState {
                phase: next_phase(old(self).view().phase, e),
                ..old(self).view()
            }),
    {
        let (p, a) = transition(self.phase, e);
        self.phase = p;
        a
    }

    /// Offers a message read by the inbound relay to the consumer's event
    /// queue, without blocking.
    pub fn inject(&mut self, m: T) -> (r: Result<(), InjectError<T>>)
        requires
            old(self).wf(),
        ensures
            final(self).wf(),
            final(self).view() == (BridgeState {
                events: events_after_inject(old(self).view(), m),
                ..old(self).view()
            }),
            !is_open(old(self).view().phase) ==> r == Err::<(), InjectError<T>>(
                InjectError::ConsumerGone(m),
            ),
            is_open(old(self).view().phase) && old(self).view().events.len() >= old(
                self,
            ).view().cap ==> r == Err::<(), InjectError<T>>(InjectError::Full(m)),
            is_open(old(self).view().phase) && old(self).view().events.len() < old(
                self,
            ).view().cap ==> r is Ok,
    {
        if !is_running(self.phase) {
            return Err(InjectError::ConsumerGone(m));
        }
        match self.inbound.try_push(m) {
            Ok(()) => Ok(()),
            Err(m) => Err(InjectError::Full(m)),
        }
    }

    /// Hands the consumer every message waiting for it, oldest first.
    pub fn drain_events(&mut self) -> (r: Vec<T>)
        requires
            old(self).wf(),
        ensures
            final(self).wf(),
            r@ == old(self).view().events,
            final(self).view() == (BridgeState { events: Seq::<T>::empty(), ..old(self).view() }),
    {
        self.inbound.drain()
    }

    /// Queues a message for the kernel, failing at once rather than waiting
    /// when it cannot; `None` stands for a body that did not decode.
    pub fn submit(&mut self, body: Option<T>) -> (r: Result<(), SubmitError>)
        requires
            old(self).wf(),
        ensures
            final(self).wf(),
            r == submit_result(old(self).view(), body is Some),
            final(self).view() == (BridgeState {
                sends: sends_after_submit(old(self).view(), body),
                ..old(self).view()
            }),
    {
        match body {
            None => Err(SubmitError::Serialization),
            Some(m) => {
                if !is_running(self.phase) {
                    return Err(SubmitError::Closed);
                }
                match self.outbound.try_push(m) {
                    Ok(()) => Ok(()),
                    Err(_) => Err(SubmitError::QueueFull),
                }
            },
        }
    }

    /// The next message for the outbound relay to write, while the session
    /// runs.
    pub fn next_outbound(&mut self) -> (r: Option<T>)
        requires
            old(self).wf(),
        ensures
            final(self).wf(),
            is_open(old(self).view().phase) && old(self).view().sends.len() > 0 ==> r == Some(
                old(self).view().sends[0],
            ) && final(self).view() == (BridgeState {
                sends: old(self).view().sends.drop_first(),
                ..old(self).view()
            }),
            !(is_open(old(self).view().phase) && old(self).view().sends.len() > 0) ==> r is None
                && final(self).view() == old(self).view(),
    {
        if !is_running(self.phase) {
            return None;
        }
        self.outbound.pop()
    }

    /// The route of a request with method `m` to `path`.
    pub fn route(&self, m: Method, path: &str) -> (r: Route)
        ensures
            r == route_of(self.view().script_path, m, encode_utf8(path@)),
    {
        self.assets.route(m, path)
    }

    /// Answers a request of the local interface. `body` is the request body
    /// decoded into a message, or `None` where it did not decode.
    pub fn handle_request(&mut self, m: Method, path: &str, body: Option<T>) -> (r: Response)
        requires
            old(self).wf(),
        ensures
            final(self).wf(),
            r.view_parts() == response_of(old(self).view(), m, encode_utf8(path@), body is Some),
            final(self).view() == state_after_request(old(self).view(), m, encode_utf8(path@), body),
    {
        let route = self.assets.route(m, path);
        match route {
            Route::SubmitMessage => {
                match self.submit(body) {
                    Ok(()) => Response::ok_empty(),
                    Err(_) => Response::server_error(),
                }
            },
            Route::Index => Response {
                status: 200,
                content_type: ContentType::Html,
                body: copy_bytes(&self.assets.index),
            },
            Route::Script => Response {
                status: 200,
                content_type: ContentType::JavaScript,
                body: copy_bytes(&self.assets.script),
            },
            Route::NotFound => Response::not_found(),
        }
    }
}

} // verus!
