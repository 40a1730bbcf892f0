//! An MCP (Model Context Protocol) server for managing Talos OS clusters
//! through `talosctl`, as a verified library.
//!
//! The library holds the server's decisions: which JSON-RPC method gets which
//! answer, which tools exist and what their input schemas say, how the
//! arguments of a tool call become the command line of `talosctl`, and how
//! the outcome of that command becomes the reply. Reading requests, running
//! `talosctl` and writing replies are left to the program around it.

pub mod json;
pub mod mcp;
pub mod text;
pub mod args;
pub mod handlers;
pub mod tools;
pub mod server;
pub mod laws;

pub use mcp::{JsonRpcError, JsonRpcRequest, JsonRpcResponse};
pub use server::handle_tool_call;
