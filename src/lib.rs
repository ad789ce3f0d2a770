//! A bridge between an interactive kernel's message channels and a
//! single-threaded presentation surface.
//!
//! The library holds the decisions of the bridge: the bounded queues of each
//! direction, the supervisor's state machine, the relays' reactions to what
//! their connections report, and the local request interface. The I/O that
//! surrounds them (sockets, the event loop, the web view) is performed by the
//! caller, which hands the outcomes in as plain values.

mod bridge;
mod laws;
mod message;
mod queue;
mod relay;
mod routes;
mod session;
mod supervisor;

pub use bridge::{
    events_after_inject, is_open, is_running, response_of, sends_after_submit, state_after_request,
    submit_result, Bridge, BridgeState, InjectError, SubmitError,
};
pub use laws::{
    lemma_backpressure, lemma_clean_shutdown, lemma_directions_independent, lemma_inbound_order,
    lemma_malformed_rejected, lemma_static_routes_idempotent, relay_run,
};
pub use message::{
    decodes_as_message, encodes_as_json, handle_raw_request, message_id_of, message_script,
};
pub use queue::BoundedQueue;
pub use relay::{event_script, inbound_step, outbound_step, ReadOutcome, RelayStep, WriteOutcome};
pub use routes::{
    bytes_equal, copy_bytes, index_path, message_path, not_found_text, route_of, server_error_text,
    ContentType, Method, Response, Route, StaticAssets,
};
pub use session::{is_hyphenated_uuid, is_lower_hex, new_session_name, session_name_for};
pub use supervisor::{
    action_for, lemma_startup_failure_terminates, lemma_terminated_absorbing, next_phase,
    transition, Phase, StopReason, SupervisorAction, SupervisorEvent,
};
