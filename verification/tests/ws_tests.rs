use uc_api::ws::result_data_value;
use uc_api::ws::EventCategory;
use uc_api::ws::WsAuthentication;
use uc_api::ws::WsMessage;
use uc_api::ws::WsRequest;
use uc_api::ws::WsResponse;
use uc_api::ws::WsResultMsgData;

fn parse(s: &str) -> serde_json::Value {
    serde_json::from_str(s).expect("test fixture must be valid JSON")
}

/// A value that `serde_json` cannot represent: a map whose keys are not
/// strings.
fn unrepresentable() -> Result<serde_json::Value, serde_json::Error> {
    let mut bad = std::collections::BTreeMap::new();
    bad.insert(vec![1u8], 2u8);
    serde_json::to_value(&bad)
}

#[test]
fn request_to_message_conversion() {
    let body = WsResultMsgData::new("OK", "testing");
    let request = WsRequest::new(123, "test_request", Ok(result_data_value(&body)))
        .expect("bug: may not fail");
    let msg = WsMessage::from(request);

    let json = msg.to_json_value();
    assert_eq!(
        parse(
            r#"{"kind":"req","id":123,"msg":"test_request","msg_data":{"code":"OK","message":"testing"}}"#
        ),
        json
    );
}

#[test]
fn response_to_message_conversion() {
    let response = WsResponse::result(123, 201);
    let msg = WsMessage::from(response);

    let json = msg.to_json_value();
    assert_eq!(
        parse(r#"{"kind":"resp","req_id":123,"msg":"result","code":201}"#),
        json
    );
}

#[test]
fn simple_request_shape() {
    let m = WsMessage::simple_request(123, "test_request");
    assert_eq!(Some("req".to_string()), m.kind);
    assert_eq!(Some(123), m.id);
    assert_eq!(None, m.req_id);

    let json = m.to_json_value();
    let obj = json.as_object().expect("an envelope serializes as an object");
    assert!(!obj.contains_key("msg_data"));
    assert!(!obj.contains_key("req_id"));
    assert!(!obj.contains_key("code"));
    assert!(!obj.contains_key("cat"));
    assert!(!obj.contains_key("ts"));
    assert_eq!(3, obj.len());
    assert_eq!(parse(r#"{"kind":"req","id":123,"msg":"test_request"}"#), json);
}

#[test]
fn response_with_representable_payload() {
    let payload = parse(r#"{"foo":"bar"}"#);
    let m = WsMessage::response(123, "test_resp", Ok(payload.clone()));
    assert_eq!(Some(200), m.code);
    assert_eq!(Some(payload), m.msg_data);

    let json = m.to_json_value();
    assert_eq!(
        parse(r#"{"kind":"resp","req_id":123,"msg":"test_resp","code":200,"msg_data":{"foo":"bar"}}"#),
        json
    );
}

#[test]
fn response_masks_serialization_failure() {
    let failed = unrepresentable();
    assert!(failed.is_err());

    let m = WsMessage::response(123, "test_resp", failed);
    let json = m.to_json_value();
    assert_eq!(
        parse(
            r#"{"kind":"resp","req_id":123,"msg":"result","code":500,"msg_data":{"code":"INTERNAL_ERROR","message":"Error serializing result"}}"#
        ),
        json
    );
}

#[test]
fn strict_response_masks_serialization_failure() {
    let r = WsResponse::new(9, "ignored", unrepresentable());
    assert_eq!("resp", r.kind);
    assert_eq!("result", r.msg);
    assert_eq!(500, r.code);

    let json = WsMessage::from(r).to_json_value();
    assert_eq!(
        parse(
            r#"{"kind":"resp","req_id":9,"msg":"result","code":500,"msg_data":{"code":"INTERNAL_ERROR","message":"Error serializing result"}}"#
        ),
        json
    );
}

#[test]
fn request_propagates_serialization_failure() {
    assert!(WsRequest::new(1, "m", unrepresentable()).is_err());
    assert!(WsMessage::request(1, "m", unrepresentable()).is_err());
}

#[test]
fn round_trip_request() {
    let body = parse(r#"{"a":[1,2],"b":null}"#);
    let m = WsMessage::request(42, "do_it", Ok(body.clone())).expect("payload is representable");

    let text = serde_json::to_string(&m.to_json_value()).expect("an object value serializes");
    let v: serde_json::Value = serde_json::from_str(&text).expect("round trip text is JSON");
    let back = WsMessage::from_json_value(v).expect("an object parses");

    assert_eq!(Some("req".to_string()), back.kind);
    assert_eq!(Some(42), back.id);
    assert_eq!(None, back.req_id);
    assert_eq!(Some("do_it".to_string()), back.msg);
    assert_eq!(None, back.code);
    assert!(back.cat.is_none());
    assert_eq!(None, back.ts);
    assert_eq!(Some(body), back.msg_data);
    assert!(back.extra.expect("parsing fills extra").is_empty());
}

#[test]
fn round_trip_response() {
    let r = WsResponse::result(123, 201);
    let m = WsMessage::from(r);

    let text = serde_json::to_string(&m.to_json_value()).expect("an object value serializes");
    let v: serde_json::Value = serde_json::from_str(&text).expect("round trip text is JSON");
    let back = WsMessage::from_json_value(v).expect("an object parses");

    assert_eq!(Some("resp".to_string()), back.kind);
    assert_eq!(None, back.id);
    assert_eq!(Some(123), back.req_id);
    assert_eq!(Some("result".to_string()), back.msg);
    assert_eq!(Some(201), back.code);
    assert_eq!(None, back.msg_data);
}

#[test]
fn lenient_parse_keeps_extra_fields() {
    let v = parse(
        r#"{"kind":"req","id":123,"msg":"test","msg_data":{"foo":"bar"},"bar":"foo"}"#,
    );
    let m = WsMessage::from_json_value(v).expect("an object parses");

    assert_eq!(Some("req".to_string()), m.kind);
    assert_eq!(Some(123), m.id);
    assert_eq!(None, m.req_id);
    assert_eq!(Some("test".to_string()), m.msg);
    assert_eq!(None, m.code);
    assert!(m.cat.is_none());
    assert_eq!(None, m.ts);
    let msg_data = m.msg_data.expect("payload is kept");
    assert_eq!(Some("bar"), msg_data.get("foo").and_then(|v| v.as_str()));
    assert!(m.extra.expect("parsing fills extra").contains_key("bar"));
}

#[test]
fn lenient_parse_rejects_non_objects() {
    let v = parse("[1,2]");
    let r = WsMessage::from_json_value(v);
    assert!(r.is_err());
    assert_eq!(parse("[1,2]"), r.unwrap_err());
}

#[test]
fn lenient_parse_drops_out_of_range_numbers() {
    let v = parse(r#"{"kind":"resp","id":5000000000,"code":70000}"#);
    let m = WsMessage::from_json_value(v).expect("an object parses");
    assert_eq!(None, m.id);
    assert_eq!(None, m.code);
    assert_eq!(Some("resp".to_string()), m.kind);
}

#[test]
fn missing_field_response_exact_json() {
    let r = WsResponse::missing_field(123, "foobar");
    let json = WsMessage::from(r).to_json_value();
    assert_eq!(
        parse(
            r#"{"kind":"resp","req_id":123,"msg":"result","code":400,"msg_data":{"code":"BAD_REQUEST","message":"Missing field: foobar"}}"#
        ),
        json
    );
}

#[test]
fn not_found_response_shape() {
    let r = WsResponse::not_found(123, "custom error text");
    let json = WsMessage::from(r).to_json_value();
    assert_eq!(
        parse(
            r#"{"kind":"resp","req_id":123,"msg":"result","code":404,"msg_data":{"code":"NOT_FOUND","message":"custom error text"}}"#
        ),
        json
    );
}

#[test]
fn error_response_code_is_not_range_checked() {
    let r = WsResponse::error(123, 999, WsResultMsgData::new("ERROR", "foobar"));
    let json = WsMessage::from(r).to_json_value();
    assert_eq!(
        parse(
            r#"{"kind":"resp","req_id":123,"msg":"result","code":999,"msg_data":{"code":"ERROR","message":"foobar"}}"#
        ),
        json
    );
}

#[test]
fn error_message_shape() {
    let m = WsMessage::error(123, 400, WsResultMsgData::new("ERROR", "foobar"));
    let json = m.to_json_value();
    assert_eq!(
        parse(
            r#"{"kind":"resp","req_id":123,"msg":"result","code":400,"msg_data":{"code":"ERROR","message":"foobar"}}"#
        ),
        json
    );
}

#[test]
fn event_message_has_timestamp() {
    let data = parse(r#"{"foo":"bar"}"#);
    let ev = WsMessage::event("test_event", Some(EventCategory::Device), data.clone());
    assert_eq!(Some("event".to_string()), ev.kind);
    assert_eq!(Some(EventCategory::Device), ev.cat);
    assert_eq!(Some(data), ev.msg_data);

    let ts = ev.ts.clone().expect("an event carries a timestamp");
    assert!(chrono::DateTime::parse_from_rfc3339(&ts).is_ok());

    let json = ev.to_json_value();
    let obj = json.as_object().expect("an envelope serializes as an object");
    assert_eq!(Some("DEVICE"), obj.get("cat").and_then(|v| v.as_str()));
    assert_eq!(Some("event"), obj.get("kind").and_then(|v| v.as_str()));
    assert_eq!(Some(ts.as_str()), obj.get("ts").and_then(|v| v.as_str()));
}

#[test]
fn response_json_shape() {
    let m = WsMessage::response_json(123, "test_resp", parse(r#"{"foo":"bar"}"#));
    let json = m.to_json_value();
    assert_eq!(
        parse(r#"{"kind":"resp","req_id":123,"msg":"test_resp","code":200,"msg_data":{"foo":"bar"}}"#),
        json
    );
}

#[test]
fn serializer_merges_extra_fields() {
    let v = parse(r#"{"kind":"event","msg":"x","custom":{"a":1}}"#);
    let m = WsMessage::from_json_value(v).expect("an object parses");
    let json = m.to_json_value();
    assert_eq!(parse(r#"{"kind":"event","msg":"x","custom":{"a":1}}"#), json);
}

#[test]
fn event_category_wire_names() {
    assert_eq!("DEVICE", EventCategory::Device.as_str());
    assert_eq!("ENTITY", EventCategory::Entity.as_str());
    assert_eq!("REMOTE", EventCategory::Remote.as_str());
    assert_eq!("UI", EventCategory::Ui.as_str());
    assert_eq!(Some(EventCategory::Ui), EventCategory::from_str("UI"));
    assert_eq!(None, EventCategory::from_str("ui"));
}

#[test]
fn ws_authentication_wire_names() {
    assert_eq!("HEADER", WsAuthentication::Header.as_str());
    assert_eq!("MESSAGE", WsAuthentication::Message.as_str());
    assert_eq!(Some(WsAuthentication::Header), WsAuthentication::from_str("HEADER"));
    assert_eq!(None, WsAuthentication::from_str("header"));
}
