use sidecar::{
    event_script, inbound_step, new_session_name, outbound_step, session_name_for, transition,
    BoundedQueue, Bridge, ContentType, InjectError, Method, Phase, ReadOutcome, RelayStep, Route,
    StaticAssets, StopReason, SubmitError, SupervisorAction, SupervisorEvent, WriteOutcome,
};

fn assets() -> StaticAssets {
    StaticAssets {
        index: b"<html>page</html>".to_vec(),
        script_path: "/main.js".to_string(),
        script: b"console.log(1)".to_vec(),
    }
}

fn active_bridge(capacity: usize) -> Bridge<u64> {
    let mut b: Bridge<u64> = Bridge::new(capacity, assets());
    assert_eq!(b.step(SupervisorEvent::Start), SupervisorAction::Connect);
    assert_eq!(b.step(SupervisorEvent::Connected), SupervisorAction::SpawnRelays);
    assert_eq!(b.step(SupervisorEvent::RelaysStarted), SupervisorAction::Nothing);
    assert_eq!(b.phase(), Phase::Active);
    b
}

#[test]
fn queue_is_fifo_and_bounded() {
    let mut q: BoundedQueue<u64> = BoundedQueue::new(2);
    assert!(q.is_empty());
    assert_eq!(q.try_push(1), Ok(()));
    assert_eq!(q.try_push(2), Ok(()));
    assert!(q.is_full());
    assert_eq!(q.try_push(3), Err(3));
    assert_eq!(q.len(), 2);
    assert_eq!(q.pop(), Some(1));
    assert_eq!(q.try_push(4), Ok(()));
    assert_eq!(q.drain(), vec![2, 4]);
    assert_eq!(q.pop(), None);
    assert_eq!(q.capacity(), 2);
}

#[test]
fn routes_match_method_and_path() {
    let a = assets();
    assert_eq!(a.route(Method::Get, "/"), Route::Index);
    assert_eq!(a.route(Method::Get, "/main.js"), Route::Script);
    assert_eq!(a.route(Method::Post, "/message"), Route::SubmitMessage);
    assert_eq!(a.route(Method::Get, "/message"), Route::NotFound);
    assert_eq!(a.route(Method::Post, "/"), Route::NotFound);
    assert_eq!(a.route(Method::Get, "/other"), Route::NotFound);
    assert_eq!(a.route(Method::Other, "/"), Route::NotFound);
}

#[test]
fn get_index_and_script() {
    let mut b = active_bridge(4);
    let r = b.handle_request(Method::Get, "/", None);
    assert_eq!(r.status, 200);
    assert_eq!(r.content_type, ContentType::Html);
    assert_eq!(r.content_type.as_str(), "text/html");
    assert_eq!(r.body, b"<html>page</html>".to_vec());
    let r = b.handle_request(Method::Get, "/main.js", None);
    assert_eq!(r.status, 200);
    assert_eq!(r.content_type.as_str(), "application/javascript");
    assert_eq!(r.body, b"console.log(1)".to_vec());
}

#[test]
fn unknown_route_is_not_found() {
    let mut b = active_bridge(4);
    let r = b.handle_request(Method::Get, "/nothing", None);
    assert_eq!(r.status, 404);
    assert_eq!(r.content_type.as_str(), "text/plain");
    assert_eq!(r.body, b"Not Found".to_vec());
}

#[test]
fn static_routes_are_idempotent() {
    let mut b = active_bridge(4);
    let first = b.handle_request(Method::Get, "/", None);
    let second = b.handle_request(Method::Get, "/", None);
    assert_eq!(first.status, second.status);
    assert_eq!(first.content_type, second.content_type);
    assert_eq!(first.body, second.body);
    let first = b.handle_request(Method::Get, "/main.js", None);
    let second = b.handle_request(Method::Get, "/main.js", None);
    assert_eq!(first.body, second.body);
}

#[test]
fn malformed_post_is_rejected() {
    let mut b = active_bridge(4);
    assert_eq!(b.submit(Some(7)), Ok(()));
    let r = b.handle_request(Method::Post, "/message", None);
    assert_eq!(r.status, 500);
    assert_eq!(r.body, b"Internal Server Error".to_vec());
    assert_eq!(b.pending_sends(), 1);
    assert_eq!(b.submit(None), Err(SubmitError::Serialization));
}

#[test]
fn post_queues_message_in_order() {
    let mut b = active_bridge(4);
    let r = b.handle_request(Method::Post, "/message", Some(10));
    assert_eq!(r.status, 200);
    assert!(r.body.is_empty());
    assert_eq!(r.content_type.as_str(), "");
    b.handle_request(Method::Post, "/message", Some(11));
    assert_eq!(b.pending_sends(), 2);
    assert_eq!(b.next_outbound(), Some(10));
    assert_eq!(b.next_outbound(), Some(11));
    assert_eq!(b.next_outbound(), None);
}

#[test]
fn full_outbound_queue_fails_fast() {
    let mut b = active_bridge(2);
    assert_eq!(b.submit(Some(1)), Ok(()));
    assert_eq!(b.submit(Some(2)), Ok(()));
    assert_eq!(b.submit(Some(3)), Err(SubmitError::QueueFull));
    let r = b.handle_request(Method::Post, "/message", Some(4));
    assert_eq!(r.status, 500);
    assert_eq!(b.pending_sends(), 2);
}

#[test]
fn inbound_messages_arrive_in_order() {
    let mut b = active_bridge(3);
    let msgs: Vec<u64> = (0..10).collect();
    let mut delivered: Vec<u64> = Vec::new();
    for m in msgs.iter() {
        let mut offered = *m;
        loop {
            match b.inject(offered) {
                Ok(()) => break,
                Err(InjectError::Full(back)) => {
                    offered = back;
                    delivered.extend(b.drain_events());
                }
                Err(InjectError::ConsumerGone(_)) => panic!("session ended"),
            }
        }
    }
    delivered.extend(b.drain_events());
    assert_eq!(delivered, msgs);
    assert_eq!(b.pending_events(), 0);
}

#[test]
fn no_messages_gives_no_events() {
    let mut b = active_bridge(3);
    assert!(b.drain_events().is_empty());
}

#[test]
fn full_inbound_queue_does_not_block_posts() {
    let mut b = active_bridge(2);
    assert!(b.inject(1).is_ok());
    assert!(b.inject(2).is_ok());
    assert!(matches!(b.inject(3), Err(InjectError::Full(3))));
    let r = b.handle_request(Method::Post, "/message", Some(9));
    assert_eq!(r.status, 200);
    assert_eq!(b.pending_events(), 2);
    assert_eq!(b.next_outbound(), Some(9));
}

#[test]
fn closing_broadcast_connection_shuts_down() {
    let mut b = active_bridge(2);
    let step = inbound_step::<u64>(ReadOutcome::Closed);
    let reason = match step {
        RelayStep::Stop(r) => r,
        RelayStep::Forward(_) => panic!("expected a stop"),
    };
    assert_eq!(reason, StopReason::ChannelClosed);
    assert_eq!(b.step(SupervisorEvent::RelayStopped(reason)), SupervisorAction::CloseConnections);
    assert_eq!(b.phase(), Phase::Terminating);
    assert!(matches!(b.inject(5), Err(InjectError::ConsumerGone(5))));
    assert_eq!(b.step(SupervisorEvent::GraceExpired), SupervisorAction::AbandonRelays);
    assert_eq!(b.phase(), Phase::Terminated);
    assert!(matches!(b.inject(6), Err(InjectError::ConsumerGone(6))));
    assert_eq!(b.pending_events(), 0);
    assert_eq!(b.step(SupervisorEvent::Start), SupervisorAction::Nothing);
    assert_eq!(b.phase(), Phase::Terminated);
}

#[test]
fn relays_joined_finishes_session() {
    let mut b = active_bridge(2);
    assert_eq!(b.step(SupervisorEvent::ShutdownRequested), SupervisorAction::CloseConnections);
    assert_eq!(b.submit(Some(1)), Err(SubmitError::Closed));
    assert_eq!(b.step(SupervisorEvent::RelaysJoined), SupervisorAction::Finish);
    assert_eq!(b.phase(), Phase::Terminated);
}

#[test]
fn startup_failure_terminates() {
    assert_eq!(
        transition(Phase::Uninitialized, SupervisorEvent::Start),
        (Phase::Connecting, SupervisorAction::Connect)
    );
    assert_eq!(
        transition(Phase::Connecting, SupervisorEvent::ConnectFailed),
        (Phase::Terminated, SupervisorAction::ReportStartupError)
    );
    assert_eq!(
        transition(Phase::Uninitialized, SupervisorEvent::RelaysJoined),
        (Phase::Uninitialized, SupervisorAction::Nothing)
    );
}

#[test]
fn relay_steps() {
    assert!(matches!(inbound_step(ReadOutcome::Message(3u64)), RelayStep::Forward(3)));
    assert!(matches!(
        inbound_step::<u64>(ReadOutcome::Malformed),
        RelayStep::Stop(StopReason::ProtocolError)
    ));
    assert_eq!(outbound_step(WriteOutcome::Flushed), None);
    assert_eq!(outbound_step(WriteOutcome::Closed), Some(StopReason::ChannelClosed));
}

#[test]
fn event_script_wraps_json() {
    assert_eq!(event_script("{\"a\":1}"), "globalThis.onMessage({\"a\":1})");
    assert_eq!(event_script(""), "globalThis.onMessage()");
}

#[test]
fn session_names() {
    assert_eq!(session_name_for("abc"), "sidecar-abc");
    let a = new_session_name();
    let b = new_session_name();
    assert_eq!(a.chars().count(), 44);
    assert!(a.starts_with("sidecar-"));
    assert_eq!(a.matches('-').count(), 5);
    assert!(is_uuid_layout(&a["sidecar-".len()..]));
    assert_ne!(a, b);
}

fn is_uuid_layout(s: &str) -> bool {
    s.len() == 36
        && s.chars().enumerate().all(|(i, c)| {
            if i == 8 || i == 13 || i == 18 || i == 23 {
                c == '-'
            } else {
                c.is_ascii_digit() || ('a'..='f').contains(&c)
            }
        })
}
