use crate::bridge::{response_of, state_after_request, Bridge};
use crate::relay::event_script;
use crate::routes::{route_of, Method, Response, Route};
use crate::session::{is_hyphenated_uuid, random_uuid};
use runtimelib::JupyterMessage;
use vstd::prelude::*;
use vstd::utf8::encode_utf8;

verus! {

/// A kernel protocol message: header, parent header, metadata and content.
#[verifier::external_type_specification]
#[verifier::external_body]
pub struct ExJupyterMessage(JupyterMessage);

/// An error of JSON encoding or decoding.
#[verifier::external_type_specification]
#[verifier::external_body]
pub struct ExJsonError(serde_json::Error);

/// Whether the bytes `b` decode from JSON into a kernel message.
pub uninterp spec fn decodes_as_message(b: Seq<u8>) -> bool;

/// Relies on serde_json::from_slice with the `Deserialize` impl of
/// `JupyterMessage`: whether it succeeds depends on the bytes alone.
#[verifier::external_body]
fn decode_message(body: &[u8]) -> (r: Result<JupyterMessage, serde_json::Error>)
    ensures
        r is Ok == decodes_as_message(body@),
{
    serde_json::from_slice(body)
}

/// Whether the message `m` encodes to JSON.
pub uninterp spec fn encodes_as_json(m: JupyterMessage) -> bool;

/// The id in the header of the message `m`.
pub uninterp spec fn message_id_of(m: JupyterMessage) -> Seq<char>;

/// Relies on serde_json::to_string with the derived `Serialize` impl of
/// `JupyterMessage`: whether it succeeds depends on the message alone.
#[verifier::external_body]
fn encode_message(m: &JupyterMessage) -> (r: Result<String, serde_json::Error>)
    ensures
        r is Ok == encodes_as_json(*m),
{
    serde_json::to_string(m)
}

/// Relies on the public field `header.msg_id` of `JupyterMessage`: the
/// message's id becomes `id`.
#[verifier::external_body]
fn set_message_id(m: &mut JupyterMessage, id: String)
    ensures
        message_id_of(*final(m)) == id@,
{
    m.header.msg_id = id;
}

/// The script that delivers `m` to the presentation surface's global event
/// handler; `None` exactly where `m` does not encode to JSON.
pub fn message_script(m: &JupyterMessage) -> (r: Option<String>)
    ensures
        r is Some == encodes_as_json(*m),
        r matches Some(s) ==> exists|json: Seq<char>| s@ == "globalThis.onMessage("@ + json + ")"@,
{
    match encode_message(m) {
        Ok(json) => {
            let s = event_script(json.as_str());
            assert(s@ == "globalThis.onMessage("@ + json@ + ")"@);
            Some(s)
        },
        Err(_) => None,
    }
}

/// Answers a request of the local interface from its raw body: the body is
/// decoded only for a submission, and one that does not decode gets a server
/// error and leaves the session as it was. A decoded message gets a fresh
/// random id, in the hyphenated layout of a UUID, before it is queued.
pub fn handle_raw_request(bridge: &mut Bridge<JupyterMessage>, m: Method, path: &str, body: &[u8]) -> (r: Response)
    requires
        old(bridge).wf(),
    ensures
        final(bridge).wf(),
        route_of(old(bridge).view().script_path, m, encode_utf8(path@)) == Route::SubmitMessage
            ==> r.view_parts() == response_of(
            old(bridge).view(),
            m,
            encode_utf8(path@),
            decodes_as_message(body@),
        ),
        route_of(old(bridge).view().script_path, m, encode_utf8(path@)) != Route::SubmitMessage
            ==> r.view_parts() == response_of(old(bridge).view(), m, encode_utf8(path@), false),
        !(route_of(old(bridge).view().script_path, m, encode_utf8(path@)) == Route::SubmitMessage
            && decodes_as_message(body@)) ==> final(bridge).view() == old(bridge).view(),
        route_of(old(bridge).view().script_path, m, encode_utf8(path@)) == Route::SubmitMessage
            && decodes_as_message(body@) ==> exists|x: JupyterMessage|
            is_hyphenated_uuid(message_id_of(x)) && final(bridge).view() == state_after_request(
                old(bridge).view(),
                m,
                encode_utf8(path@),
                Some(x),
            ),
{
    let decoded: Option<JupyterMessage> = if bridge.route(m, path) == Route::SubmitMessage {
        match decode_message(body) {
            Ok(msg) => {
                let mut msg = msg;
                let id = random_uuid();
                set_message_id(&mut msg, id);
                Some(msg)
            },
            Err(_) => None,
        }
    } else {
        None
    };
    let ghost d = decoded;
    let r = bridge.handle_request(m, path, decoded);
    proof {
        if d is Some {
            let x = d->Some_0;
            assert(is_hyphenated_uuid(message_id_of(x)));
            assert(final(bridge).view() == state_after_request(old(bridge).view(), m, encode_utf8(path@), Some(x)));
        }
    }
    r
}

} // verus!
