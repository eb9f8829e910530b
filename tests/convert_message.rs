use mcp_ectors::convert::{schema_object, string_to_datetime, value_to_json, KeyValue, UtcInstant};
use mcp_ectors::message::{is_version, mcp_kind, message_from_raw, JsonRpcMessage, JsonRpcRaw, McpKind, McpKindError};
use mcp_ectors::rpc::ErrorData;
use serde_json::Value;

fn key_value_object() -> String {
    "{\"key\":\"value\"}".to_string()
}

fn as_json(s: &str) -> Value {
    serde_json::from_str(s).unwrap()
}

fn expected_key_value() -> Value {
    let mut m = serde_json::Map::new();
    m.insert("key".to_string(), Value::String("value".to_string()));
    Value::Object(m)
}

#[test]
fn test_string_to_datetime() {
    let valid_date = Some("2022-03-01T12:00:00Z".to_string());
    let invalid_date = Some("invalid date".to_string());
    let empty_date = None;

    let datetime = string_to_datetime(valid_date);
    assert!(datetime.is_some());
    assert_eq!(datetime, Some(UtcInstant { secs: 1646136000, nanos: 0 }));

    let datetime_invalid = string_to_datetime(invalid_date);
    assert!(datetime_invalid.is_none());

    let datetime_none = string_to_datetime(empty_date);
    assert!(datetime_none.is_none());
}

#[test]
fn datetime_with_offset_is_converted_to_utc() {
    let d = string_to_datetime(Some("2022-03-01T14:00:00.5+02:00".to_string()));
    assert_eq!(d, Some(UtcInstant { secs: 1646136000, nanos: 500_000_000 }));
}

#[test]
fn test_value_to_json() {
    let val = KeyValue { key: "test_key".to_string(), data: "{\"type\":\"object\"}".to_string() };
    let json_val = value_to_json(val);
    let mut inner = serde_json::Map::new();
    inner.insert("type".to_string(), Value::String("object".to_string()));
    let mut outer = serde_json::Map::new();
    outer.insert("test_key".to_string(), Value::Object(inner));
    assert_eq!(as_json(&json_val), Value::Object(outer));
}

#[test]
fn schema_data_that_is_not_json_becomes_a_string() {
    let val = KeyValue { key: "input".to_string(), data: "not json".to_string() };
    let json_val = value_to_json(val);
    let mut outer = serde_json::Map::new();
    outer.insert("input".to_string(), Value::String("not json".to_string()));
    assert_eq!(as_json(&json_val), Value::Object(outer));
}

#[test]
fn schema_object_takes_data_as_told() {
    assert_eq!(schema_object("\"k\"", "{}", true, "\"{}\""), "{\"k\":{}}");
    assert_eq!(schema_object("\"k\"", "{}", false, "\"{}\""), "{\"k\":\"{}\"}");
}

#[test]
fn test_notification_conversion() {
    let raw = JsonRpcRaw {
        jsonrpc: "2.0".to_string(),
        id: None,
        method: Some("notify".to_string()),
        params: Some(key_value_object()),
        result: None,
        error: None,
    };
    let message = message_from_raw(raw).unwrap();
    match message {
        JsonRpcMessage::Notification(n) => {
            assert_eq!(n.jsonrpc, "2.0");
            assert_eq!(n.method, "notify");
            assert_eq!(as_json(&n.params.unwrap()), expected_key_value());
        }
        _ => panic!("Expected Notification"),
    }
}

#[test]
fn test_request_conversion() {
    let raw = JsonRpcRaw {
        jsonrpc: "2.0".to_string(),
        id: Some(1),
        method: Some("request".to_string()),
        params: Some(key_value_object()),
        result: None,
        error: None,
    };
    let message = message_from_raw(raw).unwrap();
    match message {
        JsonRpcMessage::Request(r) => {
            assert_eq!(r.jsonrpc, "2.0");
            assert_eq!(r.id, Some(1));
            assert_eq!(r.method, "request");
            assert_eq!(as_json(&r.params.unwrap()), expected_key_value());
        }
        _ => panic!("Expected Request"),
    }
}

#[test]
fn error_and_response_and_nil_messages() {
    let raw = JsonRpcRaw {
        jsonrpc: "2.0".to_string(),
        id: Some(3),
        method: Some("m".to_string()),
        params: None,
        result: Some("1".to_string()),
        error: Some(ErrorData { code: -32601, message: "nope".to_string(), data: None }),
    };
    match message_from_raw(raw) {
        Ok(JsonRpcMessage::Error(e)) => {
            assert_eq!(e.error.code, -32601);
            assert_eq!(e.id, Some(3));
        }
        _ => panic!("Expected Error"),
    }
    let raw = JsonRpcRaw { jsonrpc: "2.0".to_string(), id: Some(3), method: Some("m".to_string()), params: None, result: Some("1".to_string()), error: None };
    match message_from_raw(raw) {
        Ok(JsonRpcMessage::Response(r)) => assert_eq!(r.result, Some("1".to_string())),
        _ => panic!("Expected Response"),
    }
    let raw = JsonRpcRaw { jsonrpc: "2.0".to_string(), id: None, method: None, params: None, result: None, error: None };
    assert!(matches!(message_from_raw(raw), Ok(JsonRpcMessage::Nil)));
    let raw = JsonRpcRaw { jsonrpc: "2.0".to_string(), id: Some(5), method: None, params: None, result: None, error: None };
    match message_from_raw(raw) {
        Err(m) => assert_eq!(m, "Invalid JSON-RPC message format: id=Some(5), method=None, result=None, error=None"),
        _ => panic!("Expected an error"),
    }
}

#[test]
fn mcp_message_kinds() {
    assert!(is_version("2.0"));
    assert!(!is_version("1.0"));
    assert_eq!(mcp_kind(Some(false), true, true), Err(McpKindError::InvalidVersion));
    assert_eq!(mcp_kind(Some(true), true, true), Ok(McpKind::Request));
    assert_eq!(mcp_kind(None, true, false), Ok(McpKind::Notification));
    assert_eq!(mcp_kind(None, false, true), Ok(McpKind::Response));
    assert_eq!(mcp_kind(None, false, false), Err(McpKindError::Unknown));
}
