//! The wire: newline-delimited JSON-RPC envelopes.

use crate::codec::{json_text, parse_json, parsed_json, plain, serialized_json};
use crate::json::{empty_object, Json, JsonView};
use crate::text::{decimal, decimal_text, joined, same_text};
use crate::views::viewed;
use vstd::prelude::*;
use vstd::string::StringExecFns;

verus! {

/// The envelope version every Droid JSON-RPC message carries. Required by the
/// CLI parser; a missing or different value rejects the whole message.
pub const FACTORY_API_VERSION: &'static str = "1.0.0";

/// The identifier of the request with the given number.
pub open spec fn request_id(sequence: u64) -> Seq<char> {
    "waku-"@ + decimal(sequence as nat)
}

/// The number after `sequence`, which starts over at zero after `u64::MAX`.
pub open spec fn following(sequence: u64) -> u64 {
    if sequence == u64::MAX {
        0
    } else {
        (sequence + 1) as u64
    }
}

/// The identifier for the next request. `sequence` counts the requests made so far.
pub fn next_request_id(sequence: &mut u64) -> (id: String)
    ensures
        id@ == request_id(*old(sequence)),
        *final(sequence) == following(*old(sequence)),
{
    let number: u64 = *sequence;
    *sequence = number.wrapping_add(1);
    joined("waku-", &decimal_text(number))
}

/// The fields that every envelope begins with.
pub open spec fn envelope(kind: Seq<char>, id: Seq<char>) -> JsonView {
    empty_object().with("jsonrpc"@, JsonView::Str("2.0"@)).with(
        "factoryApiVersion"@,
        JsonView::Str(FACTORY_API_VERSION@),
    ).with("type"@, JsonView::Str(kind)).with("id"@, JsonView::Str(id))
}

/// The envelope of a request.
pub open spec fn request_envelope(id: Seq<char>, method: Seq<char>, params: JsonView) -> JsonView {
    envelope("request"@, id).with("method"@, JsonView::Str(method)).with("params"@, params)
}

/// The envelope of the response to the request `id`.
pub open spec fn response_envelope(id: Seq<char>, result: JsonView) -> JsonView {
    envelope("response"@, id).with("result"@, result)
}

/// The fields that every envelope begins with.
fn open_envelope(kind: &str, id: &str) -> (json: Json)
    ensures
        json@ == envelope(kind@, id@),
{
    Json::object().with("jsonrpc", Json::text("2.0")).with(
        "factoryApiVersion",
        Json::text(FACTORY_API_VERSION),
    ).with("type", Json::text(kind)).with("id", Json::text(id))
}

/// The request `method` with `params`, under the next identifier.
pub fn request(method: &str, params: Json, sequence: &mut u64) -> (json: Json)
    ensures
        json@ == request_envelope(request_id(*old(sequence)), method@, params@),
        *final(sequence) == following(*old(sequence)),
{
    identified_request(method, params, sequence).0
}

/// The request `method` with `params`, under the next identifier, and that identifier.
pub(crate) fn identified_request(method: &str, params: Json, sequence: &mut u64) -> (sent: (
    Json,
    String,
))
    ensures
        sent.0@ == request_envelope(request_id(*old(sequence)), method@, params@),
        sent.1@ == request_id(*old(sequence)),
        *final(sequence) == following(*old(sequence)),
{
    let id = next_request_id(sequence);
    let message = open_envelope("request", &id).with("method", Json::text(method)).with(
        "params",
        params,
    );
    (message, id)
}

/// The response to the request `rpc_id`.
pub fn respond(rpc_id: &str, result: Json) -> (json: Json)
    ensures
        json@ == response_envelope(rpc_id@, result@),
{
    open_envelope("response", rpc_id).with("result", result)
}

/// The line that carries a message to the process: its compact text, then a line break,
/// and no other line break. Read back without that line break it gives the same value,
/// and so the same message, where the value is [`plain`].
pub fn write_envelope(value: &Json) -> (line: String)
    ensures
        line@ == serialized_json(value@).push('\n'),
        !serialized_json(value@).contains('\n'),
        plain(value@) ==> parsed_json(serialized_json(value@)) == Some(value@),
        plain(value@) ==> message_in(serialized_json(value@)) == classified(value@),
{
    let mut line = json_text(value);
    line.append("\n");
    proof {
        reveal_strlit("\n");
        assert(line@ =~= serialized_json(value@).push('\n'));
    }
    line
}

/// One parsed line from the process stdout, classified by envelope `type`.
#[derive(Debug, PartialEq, Eq)]
pub enum WireMessage {
    Response { id: String, result: Option<Json>, error: Option<String> },
    Request { id: String, method: String, params: Json },
    Notification { method: String, params: Json },
    Exited,
}

/// What a [`WireMessage`] means.
pub enum WireMessageView {
    Response { id: Seq<char>, result: Option<JsonView>, error: Option<Seq<char>> },
    Request { id: Seq<char>, method: Seq<char>, params: JsonView },
    Notification { method: Seq<char>, params: JsonView },
    Exited,
}

impl View for WireMessage {
    type V = WireMessageView;

    open spec fn view(&self) -> WireMessageView {
        match self {
            WireMessage::Response { id, result, error } => WireMessageView::Response {
                id: id@,
                result: viewed(*result),
                error: viewed(*error),
            },
            WireMessage::Request { id, method, params } => WireMessageView::Request {
                id: id@,
                method: method@,
                params: params@,
            },
            WireMessage::Notification { method, params } => WireMessageView::Notification {
                method: method@,
                params: params@,
            },
            WireMessage::Exited => WireMessageView::Exited,
        }
    }
}

/// The message of the error that a response carries.
pub open spec fn error_message(value: JsonView) -> Option<Seq<char>> {
    match value.get("error"@) {
        Some(error) => error.get_str("message"@),
        None => None,
    }
}

/// The parameters of a message: `null` where it has none.
pub open spec fn message_params(value: JsonView) -> JsonView {
    match value.get("params"@) {
        Some(params) => params,
        None => JsonView::Null,
    }
}

/// The message in an envelope: none where the type is unknown or where a field that the
/// type needs is not a string.
pub open spec fn classified(value: JsonView) -> Option<WireMessageView> {
    match value.get_str("type"@) {
        Some(kind) => if kind == "response"@ {
            match value.get_str("id"@) {
                Some(id) => Some(
                    WireMessageView::Response {
                        id,
                        result: value.get("result"@),
                        error: error_message(value),
                    },
                ),
                None => None,
            }
        } else if kind == "request"@ {
            match (value.get_str("id"@), value.get_str("method"@)) {
                (Some(id), Some(method)) => Some(
                    WireMessageView::Request { id, method, params: message_params(value) },
                ),
                _ => None,
            }
        } else if kind == "notification"@ {
            match value.get_str("method"@) {
                Some(method) => Some(
                    WireMessageView::Notification { method, params: message_params(value) },
                ),
                None => None,
            }
        } else {
            None
        },
        None => None,
    }
}

/// Reads the message in an envelope.
pub fn classify(value: &Json) -> (message: Option<WireMessage>)
    ensures
        viewed(message) == classified(value@),
{
    let kind = match value.get_str("type") {
        Some(kind) => kind,
        None => {
            return None;
        },
    };
    if same_text(kind, "response") {
        let id = match value.get_string("id") {
            Some(id) => id,
            None => {
                return None;
            },
        };
        let error = match value.get("error") {
            Some(error) => error.get_string("message"),
            None => None,
        };
        Some(WireMessage::Response { id, result: value.get_copy("result"), error })
    } else if same_text(kind, "request") {
        match (value.get_string("id"), value.get_string("method")) {
            (Some(id), Some(method)) => Some(
                WireMessage::Request { id, method, params: params_of(value) },
            ),
            _ => None,
        }
    } else if same_text(kind, "notification") {
        match value.get_string("method") {
            Some(method) => Some(
                WireMessage::Notification { method, params: params_of(value) },
            ),
            None => None,
        }
    } else {
        None
    }
}

/// A copy of the parameters of a message.
fn params_of(value: &Json) -> (params: Json)
    ensures
        params@ == message_params(value@),
{
    match value.get_copy("params") {
        Some(params) => params,
        None => Json::Null,
    }
}

/// The message in a line from the process.
pub open spec fn message_in(line: Seq<char>) -> Option<WireMessageView> {
    match parsed_json(line) {
        Some(value) => classified(value),
        None => None,
    }
}

/// Reads the message in a line from the process. A line that is not JSON, or not an
/// envelope, holds none.
pub fn read_line(line: &str) -> (message: Option<WireMessage>)
    ensures
        viewed(message) == message_in(line@),
{
    match parse_json(line) {
        Some(value) => classify(&value),
        None => None,
    }
}

} // verus!
