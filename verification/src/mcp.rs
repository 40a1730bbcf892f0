//! JSON-RPC 2.0 messages of the Model Context Protocol.

use vstd::prelude::*;

use crate::json::{Json, JsonValue};

verus! {

/// The view of an optional JSON value.
pub open spec fn opt_json(o: Option<JsonValue>) -> Option<Json> {
    match o {
        Some(v) => Some(v@),
        None => None,
    }
}

/// A request: a method name with optional parameters and an optional id.
#[derive(Debug)]
pub struct JsonRpcRequest {
    pub jsonrpc: String,
    pub id: Option<JsonValue>,
    pub method: String,
    pub params: Option<JsonValue>,
}

pub struct RpcRequest {
    pub jsonrpc: Seq<char>,
    pub id: Option<Json>,
    pub method: Seq<char>,
    pub params: Option<Json>,
}

impl View for JsonRpcRequest {
    type V = RpcRequest;

    open spec fn view(&self) -> RpcRequest {
        RpcRequest {
            jsonrpc: self.jsonrpc@,
            id: opt_json(self.id),
            method: self.method@,
            params: opt_json(self.params),
        }
    }
}

/// A reply: the id of the request it answers, and either a result or an
/// error.
#[derive(Debug, PartialEq)]
pub struct JsonRpcResponse {
    pub jsonrpc: String,
    pub id: Option<JsonValue>,
    pub result: Option<JsonValue>,
    pub error: Option<JsonRpcError>,
}

/// The error object of a reply.
#[derive(Debug, PartialEq)]
pub struct JsonRpcError {
    pub code: i32,
    pub message: String,
    pub data: Option<JsonValue>,
}

pub struct RpcError {
    pub code: i32,
    pub message: Seq<char>,
    pub data: Option<Json>,
}

pub struct RpcResponse {
    pub jsonrpc: Seq<char>,
    pub id: Option<Json>,
    pub result: Option<Json>,
    pub error: Option<RpcError>,
}

impl View for JsonRpcError {
    type V = RpcError;

    open spec fn view(&self) -> RpcError {
        RpcError { code: self.code, message: self.message@, data: opt_json(self.data) }
    }
}

pub open spec fn opt_error(o: Option<JsonRpcError>) -> Option<RpcError> {
    match o {
        Some(e) => Some(e@),
        None => None,
    }
}

impl View for JsonRpcResponse {
    type V = RpcResponse;

    open spec fn view(&self) -> RpcResponse {
        RpcResponse {
            jsonrpc: self.jsonrpc@,
            id: opt_json(self.id),
            result: opt_json(self.result),
            error: opt_error(self.error),
        }
    }
}

/// The protocol version that every message carries.
pub open spec fn jsonrpc_version() -> Seq<char> {
    "2.0"@
}

/// The reply that carries `result` for the request with `id`.
pub open spec fn success_reply(id: Option<Json>, result: Json) -> RpcResponse {
    RpcResponse { jsonrpc: jsonrpc_version(), id, result: Some(result), error: None }
}

/// The reply that carries `error` for the request with `id`.
pub open spec fn error_reply(id: Option<Json>, error: RpcError) -> RpcResponse {
    RpcResponse { jsonrpc: jsonrpc_version(), id, result: None, error: Some(error) }
}

/// A reply as the protocol wants it: version "2.0", and exactly one of a
/// result and an error.
pub open spec fn well_formed_reply(r: RpcResponse) -> bool {
    &&& r.jsonrpc == jsonrpc_version()
    &&& (r.result is Some) != (r.error is Some)
}

/// Parse error: the input was not a JSON-RPC request.
pub const PARSE_ERROR: i32 = -32700;

/// Method not found.
pub const METHOD_NOT_FOUND: i32 = -32601;

/// Invalid params.
pub const INVALID_PARAMS: i32 = -32602;

/// A tool could not be called.
pub const TOOL_ERROR: i32 = -32000;

pub open spec fn plain_error(code: i32, message: Seq<char>) -> RpcError {
    RpcError { code, message, data: None }
}

impl Clone for JsonRpcError {
    fn clone(&self) -> (r: Self)
        ensures
            r@ == self@,
    {
        let data = match &self.data {
            Some(d) => Some(d.clone()),
            None => None,
        };
        JsonRpcError { code: self.code, message: self.message.clone(), data }
    }
}

/// A copy of an optional JSON value.
pub fn clone_opt(o: &Option<JsonValue>) -> (r: Option<JsonValue>)
    ensures
        opt_json(r) == opt_json(*o),
{
    match o {
        Some(v) => Some(v.clone()),
        None => None,
    }
}

impl Clone for JsonRpcRequest {
    fn clone(&self) -> (r: Self)
        ensures
            r@ == self@,
    {
        JsonRpcRequest {
            jsonrpc: self.jsonrpc.clone(),
            id: clone_opt(&self.id),
            method: self.method.clone(),
            params: clone_opt(&self.params),
        }
    }
}

impl Clone for JsonRpcResponse {
    fn clone(&self) -> (r: Self)
        ensures
            r@ == self@,
    {
        let error = match &self.error {
            Some(e) => Some(e.clone()),
            None => None,
        };
        JsonRpcResponse {
            jsonrpc: self.jsonrpc.clone(),
            id: clone_opt(&self.id),
            result: clone_opt(&self.result),
            error,
        }
    }
}

impl JsonRpcRequest {
    pub fn new(method: &str, params: Option<JsonValue>, id: Option<JsonValue>) -> (r: Self)
        ensures
            r.jsonrpc@ == jsonrpc_version(),
            r.method@ == method@,
            r.params == params,
            r.id == id,
    {
        JsonRpcRequest {
            jsonrpc: String::from_str("2.0"),
            id,
            method: String::from_str(method),
            params,
        }
    }
}

impl JsonRpcResponse {
    pub fn success(id: Option<JsonValue>, result: JsonValue) -> (r: Self)
        ensures
            r@ == success_reply(opt_json(id), result@),
            r.id == id,
    {
        JsonRpcResponse { jsonrpc: String::from_str("2.0"), id, result: Some(result), error: None }
    }

    pub fn error(id: Option<JsonValue>, error: JsonRpcError) -> (r: Self)
        ensures
            r@ == error_reply(opt_json(id), error@),
            r.id == id,
    {
        JsonRpcResponse { jsonrpc: String::from_str("2.0"), id, result: None, error: Some(error) }
    }
}

impl JsonRpcError {
    pub fn parse_error() -> (r: Self)
        ensures
            r@ == plain_error(PARSE_ERROR, "Parse error"@),
    {
        JsonRpcError { code: PARSE_ERROR, message: String::from_str("Parse error"), data: None }
    }

    pub fn method_not_found(method: &str) -> (r: Self)
        ensures
            r@ == plain_error(METHOD_NOT_FOUND, "Method not found: "@ + method@),
    {
        let mut message = String::from_str("Method not found: ");
        message.append(method);
        JsonRpcError { code: METHOD_NOT_FOUND, message, data: None }
    }

    pub fn invalid_params(message: &str) -> (r: Self)
        ensures
            r@ == plain_error(INVALID_PARAMS, "Invalid params: "@ + message@),
    {
        let mut text = String::from_str("Invalid params: ");
        text.append(message);
        JsonRpcError { code: INVALID_PARAMS, message: text, data: None }
    }

    pub fn tool_error(message: &str) -> (r: Self)
        ensures
            r@ == plain_error(TOOL_ERROR, message@),
    {
        JsonRpcError { code: TOOL_ERROR, message: String::from_str(message), data: None }
    }
}

} // verus!
