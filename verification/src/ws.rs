//! The WebSocket message envelope.
//!
//! Three message kinds travel over a connection: requests (`kind = "req"`),
//! responses (`kind = "resp"`) and events (`kind = "event"`). [`WsRequest`]
//! and [`WsResponse`] are the strict forms with required fields; [`WsMessage`]
//! is the lenient form used for best-effort parsing, where every field is
//! optional and unrecognized top-level fields are kept in `extra`.

pub mod intg;

use crate::json::json_map_clone;
use crate::json::json_map_insert;
use crate::json::json_map_model;
use crate::json::json_map_new;
use crate::json::json_map_remove;
use crate::json::json_obj_of;
use crate::json::json_str_of;
use crate::json::json_u64_of;
use crate::json::json_value_as_string;
use crate::json::json_value_as_u64;
use crate::json::json_value_clone;
use crate::json::json_value_into_object;
use crate::json::json_value_object;
use crate::json::json_value_string;
use crate::json::json_value_u64;
use crate::json::JsonObjectModel;
use vstd::prelude::*;

verus! {

/// WebSocket authentication type.
#[derive(Debug, Clone, Copy, PartialEq, Eq, Structural)]
pub enum WsAuthentication {
    /// Authenticate with header token.
    Header,
    /// Authenticate with authentication message.
    Message,
}

impl WsAuthentication {
    /// The wire name of the variant, in `SCREAMING_SNAKE_CASE`.
    pub open spec fn wire_str(self) -> Seq<char> {
        match self {
            WsAuthentication::Header => "HEADER"@,
            WsAuthentication::Message => "MESSAGE"@,
        }
    }

    /// The variant a wire name denotes, if any.
    pub open spec fn spec_from_wire(s: Seq<char>) -> Option<WsAuthentication> {
        if s == "HEADER"@ {
            Some(WsAuthentication::Header)
        } else if s == "MESSAGE"@ {
            Some(WsAuthentication::Message)
        } else {
            None
        }
    }

    /// The wire name of the variant.
    pub fn as_str(&self) -> (r: &'static str)
        ensures
            r@ == self.wire_str(),
    {
        match self {
            WsAuthentication::Header => "HEADER",
            WsAuthentication::Message => "MESSAGE",
        }
    }

    /// Parse a wire name.
    pub fn from_str(s: &str) -> (r: Option<WsAuthentication>)
        ensures
            r == WsAuthentication::spec_from_wire(s@),
    {
        let o = s.to_owned();
        if o == String::from_str("HEADER") {
            Some(WsAuthentication::Header)
        } else if o == String::from_str("MESSAGE") {
            Some(WsAuthentication::Message)
        } else {
            None
        }
    }
}

/// Event message categories, serialized in `SCREAMING_SNAKE_CASE`.
#[derive(Debug, Clone, Copy, PartialEq, Eq, Structural)]
pub enum EventCategory {
    /// Device specific events like integration driver status changes.
    Device,
    /// Entity change events.
    Entity,
    /// Remote specific events like configuration changes.
    Remote,
    /// UI change events.
    Ui,
}

impl EventCategory {
    /// The wire name of the variant, in `SCREAMING_SNAKE_CASE`.
    pub open spec fn wire_str(self) -> Seq<char> {
        match self {
            EventCategory::Device => "DEVICE"@,
            EventCategory::Entity => "ENTITY"@,
            EventCategory::Remote => "REMOTE"@,
            EventCategory::Ui => "UI"@,
        }
    }

    /// The variant a wire name denotes, if any.
    pub open spec fn spec_from_wire(s: Seq<char>) -> Option<EventCategory> {
        if s == "DEVICE"@ {
            Some(EventCategory::Device)
        } else if s == "ENTITY"@ {
            Some(EventCategory::Entity)
        } else if s == "REMOTE"@ {
            Some(EventCategory::Remote)
        } else if s == "UI"@ {
            Some(EventCategory::Ui)
        } else {
            None
        }
    }

    /// The wire name of the variant.
    pub fn as_str(&self) -> (r: &'static str)
        ensures
            r@ == self.wire_str(),
    {
        match self {
            EventCategory::Device => "DEVICE",
            EventCategory::Entity => "ENTITY",
            EventCategory::Remote => "REMOTE",
            EventCategory::Ui => "UI",
        }
    }

    /// Parse a wire name.
    pub fn from_str(s: &str) -> (r: Option<EventCategory>)
        ensures
            r == EventCategory::spec_from_wire(s@),
    {
        let o = s.to_owned();
        if o == String::from_str("DEVICE") {
            Some(EventCategory::Device)
        } else if o == String::from_str("ENTITY") {
            Some(EventCategory::Entity)
        } else if o == String::from_str("REMOTE") {
            Some(EventCategory::Remote)
        } else if o == String::from_str("UI") {
            Some(EventCategory::Ui)
        } else {
            None
        }
    }
}

/// Parsing the wire name of an event category yields the category again.
pub proof fn lemma_event_category_wire_round_trip(c: EventCategory)
    ensures
        EventCategory::spec_from_wire(c.wire_str()) == Some(c),
{
    reveal_strlit("DEVICE");
    reveal_strlit("ENTITY");
    reveal_strlit("REMOTE");
    reveal_strlit("UI");
    assert("DEVICE"@[0] == 'D' && "ENTITY"@[0] == 'E' && "REMOTE"@[0] == 'R');
}

/// Default payload data of a `result` response message.
#[derive(Debug, Clone)]
pub struct WsResultMsgData {
    pub code: String,
    pub message: String,
}

impl WsResultMsgData {
    pub fn new(code: &str, message: &str) -> (r: WsResultMsgData)
        ensures
            r.code@ == code@,
            r.message@ == message@,
    {
        WsResultMsgData { code: code.to_owned(), message: message.to_owned() }
    }
}

/// The mathematical content of a lenient [`WsMessage`]: each optional field,
/// with strings as character sequences and the extra fields as a map.
#[verifier::ext_equal]
pub ghost struct WsMessageV {
    pub kind: Option<Seq<char>>,
    pub id: Option<u32>,
    pub req_id: Option<u32>,
    pub msg: Option<Seq<char>>,
    pub code: Option<u16>,
    pub cat: Option<EventCategory>,
    pub ts: Option<Seq<char>>,
    pub msg_data: Option<serde_json::Value>,
    pub extra: Map<Seq<char>, serde_json::Value>,
}

/// Generic message for requests, responses and events.
///
/// This lenient structure is for best-effort parsing. See [`WsRequest`] and
/// [`WsResponse`] for the strict message forms.
#[derive(Debug)]
pub struct WsMessage {
    /// Message kind: `req`, `resp` or `event`.
    pub kind: Option<String>,
    /// Request only: ID which must be increased for every new request. It is
    /// echoed back in the response message.
    pub id: Option<u32>,
    /// Response only: the ID of the request being answered.
    pub req_id: Option<u32>,
    /// One of the defined API message types.
    pub msg: Option<String>,
    /// Response only: status code of the operation, following HTTP status
    /// code conventions.
    pub code: Option<u16>,
    /// Event only: category of the event.
    pub cat: Option<EventCategory>,
    /// Event only: timestamp of event generation, in its wire form.
    pub ts: Option<String>,
    /// Message payload.
    pub msg_data: Option<serde_json::Value>,
    /// Top-level fields not recognized by the schema, kept for forward
    /// compatibility.
    pub extra: Option<serde_json::Map<String, serde_json::Value>>,
}

impl View for WsMessage {
    type V = WsMessageV;

    open spec fn view(&self) -> WsMessageV {
        WsMessageV {
            kind: self.kind.deep_view(),
            id: self.id,
            req_id: self.req_id,
            msg: self.msg.deep_view(),
            code: self.code,
            cat: self.cat,
            ts: self.ts.deep_view(),
            msg_data: self.msg_data,
            extra: match self.extra {
                Some(m) => json_map_model(m),
                None => Map::empty(),
            },
        }
    }
}

/// The view of a message with every field absent.
pub open spec fn empty_message_view() -> WsMessageV {
    WsMessageV {
        kind: None,
        id: None,
        req_id: None,
        msg: None,
        code: None,
        cat: None,
        ts: None,
        msg_data: None,
        extra: Map::empty(),
    }
}

impl Default for WsMessage {
    /// A message with every field absent.
    fn default() -> (r: WsMessage)
        ensures
            r@ == empty_message_view(),
    {
        WsMessage {
            kind: None,
            id: None,
            req_id: None,
            msg: None,
            code: None,
            cat: None,
            ts: None,
            msg_data: None,
            extra: None,
        }
    }
}

/// A JSON value of the shape `{ "code": <code>, "message": <message> }`,
/// the canonical payload of `result` response messages.
pub open spec fn is_result_obj(v: serde_json::Value, code: Seq<char>, message: Seq<char>) -> bool {
    &&& json_obj_of(v) is Some
    &&& json_obj_of(v)->Some_0.dom() == set!["code"@, "message"@]
    &&& json_str_of(json_obj_of(v)->Some_0["code"@]) == Some(code)
    &&& json_str_of(json_obj_of(v)->Some_0["message"@]) == Some(message)
}

/// Build the `{ code, message }` JSON object of a result payload.
pub fn result_data_value(d: &WsResultMsgData) -> (v: serde_json::Value)
    ensures
        is_result_obj(v, d.code@, d.message@),
{
    let mut m = json_map_new();
    json_map_insert(&mut m, "code", json_value_string(d.code.as_str()));
    json_map_insert(&mut m, "message", json_value_string(d.message.as_str()));
    let v = json_value_object(m);
    proof {
        reveal_strlit("code");
        reveal_strlit("message");
        assert("code"@.len() == 4 && "message"@.len() == 7);
        assert(json_obj_of(v)->Some_0.dom() =~= set!["code"@, "message"@]);
    }
    v
}

impl WsMessage {
    /// Create a request message without payload.
    pub fn simple_request(id: u32, msg: &str) -> (r: WsMessage)
        ensures
            r@ == (WsMessageV {
                kind: Some("req"@),
                id: Some(id),
                msg: Some(msg@),
                ..empty_message_view()
            }),
    {
        WsMessage {
            kind: Some(String::from_str("req")),
            id: Some(id),
            req_id: None,
            msg: Some(msg.to_owned()),
            code: None,
            cat: None,
            ts: None,
            msg_data: None,
            extra: None,
        }
    }

    /// Create a request message with a payload.
    ///
    /// The caller hands in the outcome of converting its payload to a JSON
    /// value; a conversion failure is passed back unchanged, so that a request
    /// never silently changes its own meaning.
    pub fn request(id: u32, msg: &str, msg_data: Result<serde_json::Value, serde_json::Error>) -> (r:
        Result<WsMessage, serde_json::Error>)
        ensures
            msg_data matches Ok(v) ==> (r matches Ok(m) && m@ == (WsMessageV {
                kind: Some("req"@),
                id: Some(id),
                msg: Some(msg@),
                msg_data: Some(v),
                ..empty_message_view()
            })),
            msg_data matches Err(e) ==> (r matches Err(e2) && e2 == e),
    {
        match msg_data {
            Ok(v) => Ok(
                WsMessage {
                    kind: Some(String::from_str("req")),
                    id: Some(id),
                    req_id: None,
                    msg: Some(msg.to_owned()),
                    code: None,
                    cat: None,
                    ts: None,
                    msg_data: Some(v),
                    extra: None,
                },
            ),
            Err(e) => Err(e),
        }
    }

    /// Create a successful response message (`code = 200`) from a JSON value.
    pub fn response_json(req_id: u32, msg: &str, msg_data: serde_json::Value) -> (r: WsMessage)
        ensures
            r@ == (WsMessageV {
                kind: Some("resp"@),
                req_id: Some(req_id),
                msg: Some(msg@),
                code: Some(200u16),
                msg_data: Some(msg_data),
                ..empty_message_view()
            }),
    {
        WsMessage {
            kind: Some(String::from_str("resp")),
            id: None,
            req_id: Some(req_id),
            msg: Some(msg.to_owned()),
            code: Some(200),
            cat: None,
            ts: None,
            msg_data: Some(msg_data),
            extra: None,
        }
    }

    /// Create a successful response message (`code = 200`).
    ///
    /// The caller hands in the outcome of converting its payload to a JSON
    /// value. A response must always be produced, even where a second failure
    /// could not be handled, so a conversion failure is masked: the message
    /// becomes `result` with `code = 500` and a fixed internal-error payload.
    pub fn response(req_id: u32, msg: &str, msg_data: Result<serde_json::Value, serde_json::Error>) -> (r:
        WsMessage)
        ensures
            msg_data matches Ok(v) ==> r@ == (WsMessageV {
                kind: Some("resp"@),
                req_id: Some(req_id),
                msg: Some(msg@),
                code: Some(200u16),
                msg_data: Some(v),
                ..empty_message_view()
            }),
            msg_data is Err ==> ({
                &&& r@ == (WsMessageV {
                    kind: Some("resp"@),
                    req_id: Some(req_id),
                    msg: Some("result"@),
                    code: Some(500u16),
                    msg_data: r@.msg_data,
                    ..empty_message_view()
                })
                &&& (r@.msg_data matches Some(v) && is_result_obj(
                    v,
                    "INTERNAL_ERROR"@,
                    "Error serializing result"@,
                ))
            }),
    {
        match msg_data {
            Ok(v) => WsMessage {
                kind: Some(String::from_str("resp")),
                id: None,
                req_id: Some(req_id),
                msg: Some(msg.to_owned()),
                code: Some(200),
                cat: None,
                ts: None,
                msg_data: Some(v),
                extra: None,
            },
            Err(_) => {
                let body = WsResultMsgData::new("INTERNAL_ERROR", "Error serializing result");
                WsMessage {
                    kind: Some(String::from_str("resp")),
                    id: None,
                    req_id: Some(req_id),
                    msg: Some(String::from_str("result")),
                    code: Some(500),
                    cat: None,
                    ts: None,
                    msg_data: Some(result_data_value(&body)),
                    extra: None,
                }
            },
        }
    }

    /// Create an error response message (`msg = "result"`) with the given
    /// status code and `{ code, message }` payload.
    pub fn error(req_id: u32, code: u16, msg_data: WsResultMsgData) -> (r: WsMessage)
        ensures
            r@ == (WsMessageV {
                kind: Some("resp"@),
                req_id: Some(req_id),
                msg: Some("result"@),
                code: Some(code),
                msg_data: r@.msg_data,
                ..empty_message_view()
            }),
            (r@.msg_data matches Some(v) && is_result_obj(v, msg_data.code@, msg_data.message@)),
    {
        let body = result_data_value(&msg_data);
        WsMessage {
            kind: Some(String::from_str("resp")),
            id: None,
            req_id: Some(req_id),
            msg: Some(String::from_str("result")),
            code: Some(code),
            cat: None,
            ts: None,
            msg_data: Some(body),
            extra: None,
        }
    }

    /// Create an event message with an explicit generation timestamp, given
    /// in its wire form.
    pub fn event_with_ts(
        msg: &str,
        cat: Option<EventCategory>,
        ts: String,
        msg_data: serde_json::Value,
    ) -> (r: WsMessage)
        ensures
            r@ == (WsMessageV {
                kind: Some("event"@),
                msg: Some(msg@),
                cat: cat,
                ts: Some(ts@),
                msg_data: Some(msg_data),
                ..empty_message_view()
            }),
    {
        WsMessage {
            kind: Some(String::from_str("event")),
            id: None,
            req_id: None,
            msg: Some(msg.to_owned()),
            code: None,
            cat: cat,
            ts: Some(ts),
            msg_data: Some(msg_data),
            extra: None,
        }
    }

    /// Create an event message. The timestamp is the current time at the
    /// moment of the call, not the moment of transport.
    pub fn event(msg: &str, cat: Option<EventCategory>, msg_data: serde_json::Value) -> (r:
        WsMessage)
        ensures
            r@ == (WsMessageV {
                kind: Some("event"@),
                msg: Some(msg@),
                cat: cat,
                ts: r@.ts,
                msg_data: Some(msg_data),
                ..empty_message_view()
            }),
            r@.ts is Some,
    {
        let ts = now_rfc3339();
        WsMessage::event_with_ts(msg, cat, ts, msg_data)
    }
}

/// Common request message: the strict form, with every field required.
#[derive(Debug)]
pub struct WsRequest {
    /// Request message kind: `req`.
    pub kind: String,
    /// Request ID which must be increased for every new request. It is echoed
    /// back in the response message.
    pub id: u32,
    /// One of the defined API request message types.
    pub msg: String,
    /// Message specific payload.
    pub msg_data: Option<serde_json::Value>,
}

impl WsRequest {
    /// Create a request message from the outcome of converting a payload to a
    /// JSON value; a conversion failure is passed back unchanged.
    pub fn new(id: u32, msg: &str, msg_data: Result<serde_json::Value, serde_json::Error>) -> (r:
        Result<WsRequest, serde_json::Error>)
        ensures
            msg_data matches Ok(v) ==> (r matches Ok(q) && q.kind@ == "req"@ && q.id == id
                && q.msg@ == msg@ && q.msg_data == Some(v)),
            msg_data matches Err(e) ==> (r matches Err(e2) && e2 == e),
    {
        match msg_data {
            Ok(v) => Ok(
                WsRequest {
                    kind: String::from_str("req"),
                    id,
                    msg: msg.to_owned(),
                    msg_data: Some(v),
                },
            ),
            Err(e) => Err(e),
        }
    }
}

impl From<WsRequest> for WsMessage {
    /// Widen a strict request into the lenient form: every present field is
    /// copied, absent optional fields stay absent.
    fn from(r: WsRequest) -> (m: WsMessage) {
        WsMessage {
            kind: Some(r.kind),
            id: Some(r.id),
            req_id: None,
            msg: Some(r.msg),
            code: None,
            cat: None,
            ts: None,
            msg_data: r.msg_data,
            extra: None,
        }
    }
}

impl vstd::std_specs::convert::FromSpecImpl<WsRequest> for WsMessage {
    open spec fn obeys_from_spec() -> bool {
        true
    }

    open spec fn from_spec(r: WsRequest) -> WsMessage {
        WsMessage {
            kind: Some(r.kind),
            id: Some(r.id),
            req_id: None,
            msg: Some(r.msg),
            code: None,
            cat: None,
            ts: None,
            msg_data: r.msg_data,
            extra: None,
        }
    }
}

/// Widening a strict request into the lenient form loses nothing: every
/// field of the request is present in the message, and every field the
/// strict form does not have stays absent.
pub proof fn lemma_request_widening_lossless(r: WsRequest)
    ensures
        ({
            let m = <WsMessage as vstd::std_specs::convert::FromSpec<WsRequest>>::from_spec(r);
            &&& m.kind == Some(r.kind)
            &&& m.id == Some(r.id)
            &&& m.msg == Some(r.msg)
            &&& m.msg_data == r.msg_data
            &&& m.req_id is None
            &&& m.code is None
            &&& m.cat is None
            &&& m.ts is None
            &&& m.extra is None
        }),
{
}

/// Common response message: the strict form, with every field required.
#[derive(Debug)]
pub struct WsResponse {
    /// Response message kind: `resp`.
    pub kind: String,
    /// The ID of the request being answered.
    pub req_id: u32,
    /// One of the defined API response message types.
    pub msg: String,
    /// Status code of the operation, following HTTP status code conventions.
    pub code: u16,
    /// Message specific payload.
    pub msg_data: Option<serde_json::Value>,
}

impl WsResponse {
    /// Create a successful response message (`code = 200`) from the outcome
    /// of converting a payload to a JSON value.
    ///
    /// A response must always be produced, even where a second failure could
    /// not be handled, so a conversion failure is masked: the message becomes
    /// `result` with `code = 500` and a fixed internal-error payload.
    pub fn new(req_id: u32, msg: &str, msg_data: Result<serde_json::Value, serde_json::Error>) -> (r:
        WsResponse)
        ensures
            r.kind@ == "resp"@,
            r.req_id == req_id,
            msg_data matches Ok(v) ==> (r.msg@ == msg@ && r.code == 200 && r.msg_data == Some(v)),
            msg_data is Err ==> (r.msg@ == "result"@ && r.code == 500 && (r.msg_data matches Some(
                v,
            ) && is_result_obj(v, "INTERNAL_ERROR"@, "Error serializing result"@))),
    {
        match msg_data {
            Ok(v) => WsResponse {
                kind: String::from_str("resp"),
                req_id,
                msg: msg.to_owned(),
                code: 200,
                msg_data: Some(v),
            },
            Err(_) => {
                let body = WsResultMsgData::new("INTERNAL_ERROR", "Error serializing result");
                WsResponse {
                    kind: String::from_str("resp"),
                    req_id,
                    msg: String::from_str("result"),
                    code: 500,
                    msg_data: Some(result_data_value(&body)),
                }
            },
        }
    }

    /// Create an error response message (`msg = "result"`) with the given
    /// status code and `{ code, message }` payload.
    pub fn error(req_id: u32, code: u16, msg_data: WsResultMsgData) -> (r: WsResponse)
        ensures
            r.kind@ == "resp"@,
            r.req_id == req_id,
            r.msg@ == "result"@,
            r.code == code,
            (r.msg_data matches Some(v) && is_result_obj(v, msg_data.code@, msg_data.message@)),
    {
        let body = result_data_value(&msg_data);
        WsResponse {
            kind: String::from_str("resp"),
            req_id,
            msg: String::from_str("result"),
            code,
            msg_data: Some(body),
        }
    }

    /// Create a 400 "bad request" error response message for a missing field.
    pub fn missing_field(req_id: u32, field: &str) -> (r: WsResponse)
        ensures
            r.kind@ == "resp"@,
            r.req_id == req_id,
            r.msg@ == "result"@,
            r.code == 400,
            (r.msg_data matches Some(v) && is_result_obj(
                v,
                "BAD_REQUEST"@,
                "Missing field: "@ + field@,
            )),
    {
        let message = String::from_str("Missing field: ").concat(field);
        let body = WsResultMsgData { code: String::from_str("BAD_REQUEST"), message };
        WsResponse::error(req_id, 400, body)
    }

    /// Create a 404 "not found" error response message with a custom message.
    pub fn not_found(req_id: u32, message: &str) -> (r: WsResponse)
        ensures
            r.kind@ == "resp"@,
            r.req_id == req_id,
            r.msg@ == "result"@,
            r.code == 404,
            (r.msg_data matches Some(v) && is_result_obj(v, "NOT_FOUND"@, message@)),
    {
        let body = WsResultMsgData { code: String::from_str("NOT_FOUND"), message: message.to_owned() };
        WsResponse::error(req_id, 404, body)
    }

    /// Create a simple response message without payload.
    pub fn result(req_id: u32, code: u16) -> (r: WsResponse)
        ensures
            r.kind@ == "resp"@,
            r.req_id == req_id,
            r.msg@ == "result"@,
            r.code == code,
            r.msg_data is None,
    {
        WsResponse {
            kind: String::from_str("resp"),
            req_id,
            msg: String::from_str("result"),
            code,
            msg_data: None,
        }
    }
}

impl From<WsResponse> for WsMessage {
    /// Widen a strict response into the lenient form: every present field is
    /// copied, absent optional fields stay absent.
    fn from(r: WsResponse) -> (m: WsMessage) {
        WsMessage {
            kind: Some(r.kind),
            id: None,
            req_id: Some(r.req_id),
            msg: Some(r.msg),
            code: Some(r.code),
            cat: None,
            ts: None,
            msg_data: r.msg_data,
            extra: None,
        }
    }
}

impl vstd::std_specs::convert::FromSpecImpl<WsResponse> for WsMessage {
    open spec fn obeys_from_spec() -> bool {
        true
    }

    open spec fn from_spec(r: WsResponse) -> WsMessage {
        WsMessage {
            kind: Some(r.kind),
            id: None,
            req_id: Some(r.req_id),
            msg: Some(r.msg),
            code: Some(r.code),
            cat: None,
            ts: None,
            msg_data: r.msg_data,
            extra: None,
        }
    }
}

/// Widening a strict response into the lenient form loses nothing: every
/// field of the response is present in the message, and every field the
/// strict form does not have stays absent.
pub proof fn lemma_response_widening_lossless(r: WsResponse)
    ensures
        ({
            let m = <WsMessage as vstd::std_specs::convert::FromSpec<WsResponse>>::from_spec(r);
            &&& m.kind == Some(r.kind)
            &&& m.req_id == Some(r.req_id)
            &&& m.msg == Some(r.msg)
            &&& m.code == Some(r.code)
            &&& m.msg_data == r.msg_data
            &&& m.id is None
            &&& m.cat is None
            &&& m.ts is None
            &&& m.extra is None
        }),
{
}

/// The top-level field names the envelope schema knows.
pub open spec fn known_keys() -> Set<Seq<char>> {
    set!["kind"@, "id"@, "req_id"@, "msg"@, "code"@, "cat"@, "ts"@, "msg_data"@]
}

/// The characters of the string at `key`, if present and a string.
pub open spec fn parse_str_field(om: JsonObjectModel, key: Seq<char>) -> Option<Seq<char>> {
    if om.dom().contains(key) {
        json_str_of(om[key])
    } else {
        None
    }
}

/// The integer at `key`, if present and a number in `u64` range.
pub open spec fn parse_u64_field(om: JsonObjectModel, key: Seq<char>) -> Option<u64> {
    if om.dom().contains(key) {
        json_u64_of(om[key])
    } else {
        None
    }
}

/// The integer at `key`, if present and in `u32` range.
pub open spec fn parse_u32_field(om: JsonObjectModel, key: Seq<char>) -> Option<u32> {
    match parse_u64_field(om, key) {
        Some(n) => if n <= u32::MAX {
            Some(n as u32)
        } else {
            None
        },
        None => None,
    }
}

/// The integer at `key`, if present and in `u16` range.
pub open spec fn parse_u16_field(om: JsonObjectModel, key: Seq<char>) -> Option<u16> {
    match parse_u64_field(om, key) {
        Some(n) => if n <= u16::MAX {
            Some(n as u16)
        } else {
            None
        },
        None => None,
    }
}

/// The event category named at `cat`, if present and known.
pub open spec fn parse_cat_field(om: JsonObjectModel) -> Option<EventCategory> {
    match parse_str_field(om, "cat"@) {
        Some(s) => EventCategory::spec_from_wire(s),
        None => None,
    }
}

/// Best-effort reading of an envelope from a JSON object: each known field
/// that is present with a usable value is taken; everything else of the
/// object lands in `extra`.
pub open spec fn spec_parse_obj(om: JsonObjectModel) -> WsMessageV {
    WsMessageV {
        kind: parse_str_field(om, "kind"@),
        id: parse_u32_field(om, "id"@),
        req_id: parse_u32_field(om, "req_id"@),
        msg: parse_str_field(om, "msg"@),
        code: parse_u16_field(om, "code"@),
        cat: parse_cat_field(om),
        ts: parse_str_field(om, "ts"@),
        msg_data: if om.dom().contains("msg_data"@) {
            Some(om["msg_data"@])
        } else {
            None
        },
        extra: om.remove_keys(known_keys()),
    }
}

/// Best-effort reading of an envelope from a JSON value: `None` when the
/// value is not an object.
pub open spec fn spec_parse(v: serde_json::Value) -> Option<WsMessageV> {
    match json_obj_of(v) {
        Some(om) => Some(spec_parse_obj(om)),
        None => None,
    }
}

/// The keys of a serialized envelope: the keys of its extra fields, and the
/// schema key of each field that is present. A field that is absent
/// contributes no key, so it is omitted from the serialized object entirely,
/// never written as `null`.
pub open spec fn serialized_keys(mv: WsMessageV) -> Set<Seq<char>> {
    mv.extra.dom().union(
        (if mv.kind is Some {
            set!["kind"@]
        } else {
            Set::empty()
        }),
    ).union(
        (if mv.id is Some {
            set!["id"@]
        } else {
            Set::empty()
        }),
    ).union(
        (if mv.req_id is Some {
            set!["req_id"@]
        } else {
            Set::empty()
        }),
    ).union(
        (if mv.msg is Some {
            set!["msg"@]
        } else {
            Set::empty()
        }),
    ).union(
        (if mv.code is Some {
            set!["code"@]
        } else {
            Set::empty()
        }),
    ).union(
        (if mv.cat is Some {
            set!["cat"@]
        } else {
            Set::empty()
        }),
    ).union(
        (if mv.ts is Some {
            set!["ts"@]
        } else {
            Set::empty()
        }),
    ).union(
        (if mv.msg_data is Some {
            set!["msg_data"@]
        } else {
            Set::empty()
        }),
    )
}

/// A parsed envelope never holds a schema field name among its extra
/// fields. Together with the contract of [`WsMessage::to_json_value`] this
/// means an envelope that came out of [`WsMessage::from_json_value`] can be
/// serialized again and parses back to the same envelope.
pub proof fn lemma_parsed_extra_avoids_known_keys(om: JsonObjectModel)
    ensures
        spec_parse_obj(om).extra.dom().disjoint(known_keys()),
{
    assert forall|k: Seq<char>|
        spec_parse_obj(om).extra.dom().contains(k) implies !known_keys().contains(k) by {
        assert(om.remove_keys(known_keys()).dom().contains(k));
    }
}

proof fn lemma_known_keys_distinct()
    ensures
        "kind"@ != "id"@ && "kind"@ != "req_id"@ && "kind"@ != "msg"@ && "kind"@ != "code"@
            && "kind"@ != "cat"@ && "kind"@ != "ts"@ && "kind"@ != "msg_data"@,
        "id"@ != "req_id"@ && "id"@ != "msg"@ && "id"@ != "code"@ && "id"@ != "cat"@ && "id"@
            != "ts"@ && "id"@ != "msg_data"@,
        "req_id"@ != "msg"@ && "req_id"@ != "code"@ && "req_id"@ != "cat"@ && "req_id"@ != "ts"@
            && "req_id"@ != "msg_data"@,
        "msg"@ != "code"@ && "msg"@ != "cat"@ && "msg"@ != "ts"@ && "msg"@ != "msg_data"@,
        "code"@ != "cat"@ && "code"@ != "ts"@ && "code"@ != "msg_data"@,
        "cat"@ != "ts"@ && "cat"@ != "msg_data"@,
        "ts"@ != "msg_data"@,
{
    reveal_strlit("kind");
    reveal_strlit("id");
    reveal_strlit("req_id");
    reveal_strlit("msg");
    reveal_strlit("code");
    reveal_strlit("cat");
    reveal_strlit("ts");
    reveal_strlit("msg_data");
    assert("kind"@.len() == 4 && "id"@.len() == 2 && "req_id"@.len() == 6 && "msg"@.len() == 3
        && "code"@.len() == 4 && "cat"@.len() == 3 && "ts"@.len() == 2 && "msg_data"@.len() == 8);
    assert("kind"@[0] == 'k' && "code"@[0] == 'c');
    assert("id"@[0] == 'i' && "ts"@[0] == 't');
    assert("msg"@[0] == 'm' && "cat"@[0] == 'c');
}

/// The string of an optional JSON value, where it holds one.
fn string_of_opt_value(o: &Option<serde_json::Value>) -> (r: Option<String>)
    ensures
        r.deep_view() == (match *o {
            Some(x) => json_str_of(x),
            None => None,
        }),
{
    match o {
        Some(x) => json_value_as_string(x),
        None => None,
    }
}

/// The `u32` of an optional JSON value, where it holds one in range.
fn u32_of_opt_value(o: &Option<serde_json::Value>) -> (r: Option<u32>)
    ensures
        r == (match *o {
            Some(x) => match json_u64_of(x) {
                Some(n) => if n <= u32::MAX {
                    Some(n as u32)
                } else {
                    None
                },
                None => None,
            },
            None => None,
        }),
{
    match o {
        Some(x) => match json_value_as_u64(x) {
            Some(n) => if n <= u32::MAX as u64 {
                Some(n as u32)
            } else {
                None
            },
            None => None,
        },
        None => None,
    }
}

/// The `u16` of an optional JSON value, where it holds one in range.
fn u16_of_opt_value(o: &Option<serde_json::Value>) -> (r: Option<u16>)
    ensures
        r == (match *o {
            Some(x) => match json_u64_of(x) {
                Some(n) => if n <= u16::MAX {
                    Some(n as u16)
                } else {
                    None
                },
                None => None,
            },
            None => None,
        }),
{
    match o {
        Some(x) => match json_value_as_u64(x) {
            Some(n) => if n <= u16::MAX as u64 {
                Some(n as u16)
            } else {
                None
            },
            None => None,
        },
        None => None,
    }
}

impl WsMessage {
    /// Read an envelope from a JSON value, best effort: each known top-level
    /// field that is present with a usable value is taken; all other
    /// top-level fields are kept in `extra`, not discarded. A value that is
    /// not an object is handed back unchanged.
    pub fn from_json_value(v: serde_json::Value) -> (r: Result<WsMessage, serde_json::Value>)
        ensures
            spec_parse(v) matches Some(mv) ==> (r matches Ok(m) && m@ == mv),
            spec_parse(v) is None ==> (r matches Err(w) && w == v),
    {
        let mut m = match json_value_into_object(v) {
            Ok(m) => m,
            Err(w) => {
                return Err(w);
            },
        };
        proof {
            lemma_known_keys_distinct();
        }
        let ghost om = json_map_model(m);
        let kind_v = json_map_remove(&mut m, "kind");
        let kind = string_of_opt_value(&kind_v);
        let id_v = json_map_remove(&mut m, "id");
        let id = u32_of_opt_value(&id_v);
        let req_id_v = json_map_remove(&mut m, "req_id");
        let req_id = u32_of_opt_value(&req_id_v);
        let msg_v = json_map_remove(&mut m, "msg");
        let msg = string_of_opt_value(&msg_v);
        let code_v = json_map_remove(&mut m, "code");
        let code = u16_of_opt_value(&code_v);
        let cat_v = json_map_remove(&mut m, "cat");
        let cat = match string_of_opt_value(&cat_v) {
            Some(s) => EventCategory::from_str(s.as_str()),
            None => None,
        };
        let ts_v = json_map_remove(&mut m, "ts");
        let ts = string_of_opt_value(&ts_v);
        let msg_data = json_map_remove(&mut m, "msg_data");
        let out = WsMessage { kind, id, req_id, msg, code, cat, ts, msg_data, extra: Some(m) };
        proof {
            assert(json_map_model(m) =~= om.remove_keys(known_keys()));
            assert(out@ =~= spec_parse_obj(om));
        }
        Ok(out)
    }

    /// Write the envelope as a JSON object value. Absent fields are omitted
    /// entirely, never written as `null`; the `extra` fields are merged at
    /// the top level beside the known fields. The object holds exactly the
    /// keys of [`serialized_keys`]: no key stands for an absent field.
    ///
    /// Round trip: as long as the `extra` fields avoid the schema's own field
    /// names, reading the result back with [`spec_parse`] — what
    /// [`WsMessage::from_json_value`] returns — restores the envelope
    /// exactly: present fields stay present and equal, absent fields stay
    /// absent.
    pub fn to_json_value(&self) -> (v: serde_json::Value)
        ensures
            json_obj_of(v) is Some,
            json_obj_of(v)->Some_0.dom() == serialized_keys(self@),
            self@.extra.dom().disjoint(known_keys()) ==> spec_parse(v) == Some(self@),
    {
        let mut m = match &self.extra {
            Some(e) => json_map_clone(e),
            None => json_map_new(),
        };
        proof {
            lemma_known_keys_distinct();
        }
        if let Some(k) = &self.kind {
            json_map_insert(&mut m, "kind", json_value_string(k.as_str()));
        }
        if let Some(id) = &self.id {
            json_map_insert(&mut m, "id", json_value_u64(*id as u64));
        }
        if let Some(rid) = &self.req_id {
            json_map_insert(&mut m, "req_id", json_value_u64(*rid as u64));
        }
        if let Some(s) = &self.msg {
            json_map_insert(&mut m, "msg", json_value_string(s.as_str()));
        }
        if let Some(c) = &self.code {
            json_map_insert(&mut m, "code", json_value_u64(*c as u64));
        }
        if let Some(c) = &self.cat {
            json_map_insert(&mut m, "cat", json_value_string(c.as_str()));
            proof {
                lemma_event_category_wire_round_trip(*c);
            }
        }
        if let Some(t) = &self.ts {
            json_map_insert(&mut m, "ts", json_value_string(t.as_str()));
        }
        if let Some(d) = &self.msg_data {
            let dv = json_value_clone(d);
            json_map_insert(&mut m, "msg_data", dv);
        }
        let v = json_value_object(m);
        proof {
            assert(json_obj_of(v)->Some_0.dom() =~= serialized_keys(self@));
            if self@.extra.dom().disjoint(known_keys()) {
                assert(json_obj_of(v)->Some_0.remove_keys(known_keys()) =~= self@.extra);
                assert(spec_parse(v)->Some_0 =~= self@);
            }
        }
        v
    }
}

/// Relies on `chrono::Utc::now` and `chrono::DateTime::to_rfc3339`: the
/// current time, formatted for the wire. The result depends on the clock, so
/// nothing is claimed beyond it being nonempty.
#[verifier::external_body]
fn now_rfc3339() -> (r: String)
    ensures
        r@.len() > 0,
{
    chrono::Utc::now().to_rfc3339_opts(chrono::SecondsFormat::Millis, true)
}

} // verus!


