use talos_mcp_server::json::{JsonNumber, JsonValue};
use talos_mcp_server::server::{CommandOutcome, Step};
use talos_mcp_server::{handle_tool_call, JsonRpcRequest, JsonRpcResponse};

fn text(s: &str) -> JsonValue {
    JsonValue::String(s.to_string())
}

fn number(n: u64) -> JsonValue {
    JsonValue::Number(JsonNumber::PosInt(n))
}

fn object(members: Vec<(&str, JsonValue)>) -> JsonValue {
    JsonValue::Object(members.into_iter().map(|(k, v)| (k.to_string(), v)).collect())
}

fn create_tool_call(tool_name: &str, node: Option<&str>) -> JsonRpcRequest {
    let params = match node {
        Some(n) => object(vec![("name", text(tool_name)), ("node", text(n))]),
        None => object(vec![("name", text(tool_name))]),
    };
    JsonRpcRequest::new("tools/call", Some(params), Some(number(1)))
}

/// Runs a tool call to its reply, where `talosctl` cannot be started.
fn respond(request: &JsonRpcRequest) -> JsonRpcResponse {
    let mut step = handle_tool_call(request);
    loop {
        match step {
            Step::Reply(r) => return r,
            Step::Run(call) => step = call.resume(CommandOutcome::NotStarted),
        }
    }
}

#[test]
fn test_handle_tool_call_with_valid_params() {
    let request = create_tool_call("containers", Some("10.0.0.1"));
    let response = respond(&request);
    assert!(response.result.is_some() || response.error.is_some());
}

#[test]
fn test_unknown_tool_returns_error() {
    let request = create_tool_call("nonexistent_tool", Some("10.0.0.1"));
    let response = respond(&request);
    assert!(
        response.error.is_some(),
        "Should return error for unknown tool"
    );
    let error = response.error.unwrap();
    assert_eq!(error.code, -32000, "Should return tool error");
}

#[test]
fn test_json_rpc_request_new() {
    let request = JsonRpcRequest::new(
        "test/method",
        Some(object(vec![("key", text("value"))])),
        Some(number(42)),
    );
    assert_eq!(request.jsonrpc, "2.0");
    assert_eq!(request.method, "test/method");
    assert_eq!(request.id, Some(number(42)));
    assert_eq!(request.params, Some(object(vec![("key", text("value"))])));
}
