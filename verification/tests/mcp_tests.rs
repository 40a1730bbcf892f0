use talos_mcp_server::json::{JsonNumber, JsonValue};
use talos_mcp_server::{JsonRpcError, JsonRpcResponse};

fn text(s: &str) -> JsonValue {
    JsonValue::String(s.to_string())
}

fn number(n: u64) -> JsonValue {
    JsonValue::Number(JsonNumber::PosInt(n))
}

fn object(members: Vec<(&str, JsonValue)>) -> JsonValue {
    JsonValue::Object(members.into_iter().map(|(k, v)| (k.to_string(), v)).collect())
}

#[test]
fn test_json_rpc_response_success() {
    let result = object(vec![("status", text("ok"))]);
    let resp = JsonRpcResponse::success(Some(number(1)), result.clone());
    assert_eq!(resp.jsonrpc, "2.0");
    assert_eq!(resp.id, Some(number(1)));
    assert_eq!(resp.result, Some(result));
    assert!(resp.error.is_none());
}

#[test]
fn test_json_rpc_response_error() {
    let error = JsonRpcError::method_not_found("unknown");
    let resp = JsonRpcResponse::error(Some(number(1)), error.clone());
    assert_eq!(resp.jsonrpc, "2.0");
    assert_eq!(resp.id, Some(number(1)));
    assert!(resp.result.is_none());
    assert_eq!(resp.error, Some(error));
}

#[test]
fn test_json_rpc_error_codes() {
    let e = JsonRpcError::parse_error();
    assert_eq!(e.code, -32700);
    assert_eq!(e.message, "Parse error");

    let e = JsonRpcError::method_not_found("foo");
    assert_eq!(e.code, -32601);
    assert!(e.message.contains("foo"));

    let e = JsonRpcError::invalid_params("missing field");
    assert_eq!(e.code, -32602);
    assert!(e.message.contains("missing field"));

    let e = JsonRpcError::tool_error("something went wrong");
    assert_eq!(e.code, -32000);
    assert_eq!(e.message, "something went wrong");
}

#[test]
fn error_messages_are_exact() {
    assert_eq!(JsonRpcError::method_not_found("foo").message, "Method not found: foo");
    assert_eq!(JsonRpcError::invalid_params("x").message, "Invalid params: x");
    assert_eq!(JsonRpcError::parse_error().data, None);
}

#[test]
fn json_get_finds_the_last_member_with_a_key() {
    let v = JsonValue::Object(vec![
        ("a".to_string(), number(1)),
        ("b".to_string(), number(2)),
        ("a".to_string(), number(3)),
    ]);
    assert_eq!(v.get("a"), Some(&number(3)));
    assert_eq!(v.get("b"), Some(&number(2)));
    assert_eq!(v.get("c"), None);
    assert_eq!(text("a").get("a"), None);
}

#[test]
fn json_accessors() {
    assert_eq!(number(7).as_i64(), Some(7));
    assert_eq!(JsonValue::Number(JsonNumber::PosInt(u64::MAX)).as_i64(), None);
    assert_eq!(JsonValue::Number(JsonNumber::NegInt(-5)).as_i64(), Some(-5));
    assert_eq!(JsonValue::Number(JsonNumber::FloatBits(1.5f64.to_bits())).as_i64(), None);
    assert_eq!(JsonValue::Bool(true).as_bool(), Some(true));
    assert_eq!(text("x").as_bool(), None);
    assert_eq!(text("x").as_str().map(|s| s.as_str()), Some("x"));
    assert!(JsonValue::Array(vec![]).as_array().is_some());
    assert!(JsonValue::Null.as_array().is_none());
}

#[test]
fn json_clone_is_equal() {
    let v = object(vec![
        ("list", JsonValue::Array(vec![number(1), JsonValue::Null, text("t")])),
        ("flag", JsonValue::Bool(false)),
    ]);
    assert_eq!(v.clone(), v);
    let e = JsonRpcError { code: 1, message: "m".to_string(), data: Some(v.clone()) };
    assert_eq!(e.clone(), e);
}

#[test]
fn json_equality_is_as_json() {
    let ab = object(vec![("a", number(1)), ("b", text("x"))]);
    let ba = object(vec![("b", text("x")), ("a", number(1))]);
    assert_eq!(ab, ba);
    let repeated = object(vec![("a", number(9)), ("b", text("x")), ("a", number(1))]);
    assert_eq!(repeated, ab);
    assert_ne!(object(vec![("a", number(1))]), ab);
    assert_ne!(ab, object(vec![("a", number(1))]));
    assert_ne!(object(vec![("a", number(2)), ("b", text("x"))]), ab);
    let zero = JsonValue::Number(JsonNumber::FloatBits(0.0f64.to_bits()));
    let minus_zero = JsonValue::Number(JsonNumber::FloatBits((-0.0f64).to_bits()));
    assert_eq!(zero, minus_zero);
    let nan = JsonValue::Number(JsonNumber::FloatBits(f64::NAN.to_bits()));
    assert_ne!(nan, nan);
    assert_eq!(
        JsonValue::Number(JsonNumber::NegInt(5)),
        JsonValue::Number(JsonNumber::PosInt(5))
    );
    assert_ne!(number(1), JsonValue::Number(JsonNumber::FloatBits(1.0f64.to_bits())));
    assert_ne!(
        JsonValue::Array(vec![number(1), number(2)]),
        JsonValue::Array(vec![number(2), number(1)])
    );
    assert_eq!(
        JsonValue::Array(vec![ab.clone(), JsonValue::Null]),
        JsonValue::Array(vec![ba.clone(), JsonValue::Null])
    );
    assert_ne!(JsonValue::Null, JsonValue::Bool(false));
}
