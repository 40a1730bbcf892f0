use talos_mcp_server::json::{JsonNumber, JsonValue};
use talos_mcp_server::server::{
    command_result, handle_incoming, talosctl_result, handle_request, tool_output_text, tool_reply,
    CommandOutcome, OutputForm, Step,
};
use talos_mcp_server::tools::get_all_tool_schemas;
use talos_mcp_server::{JsonRpcRequest, JsonRpcResponse};

fn text(s: &str) -> JsonValue {
    JsonValue::String(s.to_string())
}

fn number(n: u64) -> JsonValue {
    JsonValue::Number(JsonNumber::PosInt(n))
}

fn object(members: Vec<(&str, JsonValue)>) -> JsonValue {
    JsonValue::Object(members.into_iter().map(|(k, v)| (k.to_string(), v)).collect())
}

fn reply(step: Step) -> JsonRpcResponse {
    match step {
        Step::Reply(r) => r,
        Step::Run(_) => panic!("expected a reply"),
    }
}

fn call(name: &str, args: JsonValue) -> JsonRpcRequest {
    JsonRpcRequest::new(
        "tools/call",
        Some(object(vec![("name", text(name)), ("arguments", args)])),
        Some(number(7)),
    )
}

fn text_result(t: &str) -> JsonValue {
    object(vec![(
        "content",
        JsonValue::Array(vec![object(vec![("type", text("text")), ("text", text(t))])]),
    )])
}

fn error_result(t: &str) -> JsonValue {
    object(vec![
        (
            "content",
            JsonValue::Array(vec![object(vec![
                ("type", text("text")),
                ("text", text(&format!("Error: {}", t))),
            ])]),
        ),
        ("isError", JsonValue::Bool(true)),
    ])
}

fn finished(success: bool, stdout: &str, stderr: &str) -> CommandOutcome {
    CommandOutcome::Finished {
        success,
        stdout: stdout.as_bytes().to_vec(),
        stderr: stderr.as_bytes().to_vec(),
    }
}

#[test]
fn initialize_reply() {
    let r = reply(handle_request(&JsonRpcRequest::new("initialize", None, Some(number(1)))));
    let expected = object(vec![
        ("protocolVersion", text("2024-11-05")),
        (
            "capabilities",
            object(vec![("tools", object(vec![("listChanged", JsonValue::Bool(false))]))]),
        ),
        (
            "serverInfo",
            object(vec![("name", text("talos-mcp")), ("version", text("1.0.0"))]),
        ),
    ]);
    assert_eq!(r.result, Some(expected));
    assert_eq!(r.id, Some(number(1)));
    assert_eq!(r.jsonrpc, "2.0");
}

#[test]
fn ping_initialized_and_list() {
    let r = reply(handle_request(&JsonRpcRequest::new("ping", None, Some(number(2)))));
    assert_eq!(r.result, Some(object(vec![])));
    let r = reply(handle_request(&JsonRpcRequest::new("initialized", None, None)));
    assert_eq!(r.result, Some(JsonValue::Null));
    assert_eq!(r.id, None);
    let r = reply(handle_request(&JsonRpcRequest::new("tools/list", None, Some(number(3)))));
    assert_eq!(
        r.result,
        Some(object(vec![("tools", JsonValue::Array(get_all_tool_schemas()))]))
    );
}

#[test]
fn unknown_method_is_not_found() {
    let r = reply(handle_request(&JsonRpcRequest::new("resources/list", None, Some(number(4)))));
    let e = r.error.unwrap();
    assert_eq!(e.code, -32601);
    assert_eq!(e.message, "Method not found: resources/list");
    assert!(r.result.is_none());
}

#[test]
fn unreadable_line_is_a_parse_error() {
    let r = reply(handle_incoming(None));
    assert_eq!(r.id, None);
    assert_eq!(r.error.unwrap().code, -32700);
}

#[test]
fn tool_call_without_params_is_invalid() {
    let r = reply(handle_request(&JsonRpcRequest::new("tools/call", None, Some(number(5)))));
    let e = r.error.unwrap();
    assert_eq!(e.code, -32602);
    assert_eq!(e.message, "Invalid params: Missing params");
}

#[test]
fn unknown_tool_message() {
    let r = reply(handle_request(&call("nope", object(vec![]))));
    let e = r.error.unwrap();
    assert_eq!(e.code, -32000);
    assert_eq!(e.message, "Unknown tool: nope");
    let r = reply(handle_request(&JsonRpcRequest::new(
        "tools/call",
        Some(object(vec![])),
        None,
    )));
    assert_eq!(r.error.unwrap().message, "Unknown tool: ");
}

#[test]
fn missing_argument_is_an_error_result() {
    let r = reply(handle_request(&call("read", object(vec![("node", text("n"))]))));
    assert_eq!(r.result, Some(error_result("Missing required parameter: path")));
    assert_eq!(r.id, Some(number(7)));
}

#[test]
fn every_listed_tool_reports_its_first_required_parameter() {
    for tool in get_all_tool_schemas() {
        let name = tool.get("name").unwrap().as_str().unwrap().clone();
        let required = tool.get("inputSchema").unwrap().get("required").unwrap();
        let step = handle_request(&call(&name, object(vec![])));
        match required.as_array().unwrap().first() {
            Some(first) => {
                let r = reply(step);
                let msg = format!("Missing required parameter: {}", first.as_str().unwrap());
                assert_eq!(r.result, Some(error_result(&msg)), "tool {}", name);
            }
            None => assert!(matches!(step, Step::Run(_)), "tool {}", name),
        }
    }
}

#[test]
fn single_command_call_runs_and_replies() {
    let step = handle_request(&call("get_version", object(vec![("node", text("n"))])));
    let call = match step {
        Step::Run(c) => c,
        Step::Reply(_) => panic!("expected a command"),
    };
    assert_eq!(
        call.command(),
        &vec!["--nodes".to_string(), "n".to_string(), "version".to_string()]
    );
    let r = reply(call.resume(finished(true, "v1.7\n", "")));
    assert_eq!(r.result, Some(text_result("v1.7\n")));
    assert_eq!(r.id, Some(number(7)));
}

#[test]
fn failing_command_gives_an_error_result() {
    let step = handle_request(&call("get_version", object(vec![("node", text("n"))])));
    let call = match step {
        Step::Run(c) => c,
        Step::Reply(_) => panic!("expected a command"),
    };
    let r = reply(call.resume(finished(false, "out", "boom")));
    assert_eq!(r.result, Some(error_result("talosctl failed: boom")));
}

#[test]
fn cpu_and_memory_are_combined() {
    let args = object(vec![("node", text("n"))]);
    let call = match handle_request(&call("get_cpu_memory_usage", args)) {
        Step::Run(c) => c,
        Step::Reply(_) => panic!("expected a command"),
    };
    assert_eq!(call.command()[2], "cpu");
    let call = match call.resume(finished(true, "  cpu data \n", "")) {
        Step::Run(c) => c,
        Step::Reply(_) => panic!("expected a second command"),
    };
    assert_eq!(call.command()[2], "memory");
    let r = reply(call.resume(finished(true, "", "\tmem data\n")));
    assert_eq!(
        r.result,
        Some(text_result("=== CPU ===\ncpu data\n\n=== Memory ===\nmem data"))
    );
}

#[test]
fn cpu_failure_stops_the_call() {
    let args = object(vec![("node", text("n"))]);
    let call = match handle_request(&call("get_cpu_memory_usage", args)) {
        Step::Run(c) => c,
        Step::Reply(_) => panic!("expected a command"),
    };
    let r = reply(call.resume(CommandOutcome::NotStarted));
    assert_eq!(r.result, Some(error_result("Failed to execute talosctl")));
}

#[test]
fn command_results() {
    assert_eq!(command_result(finished(true, "a", "b")), Ok("a".to_string()));
    assert_eq!(command_result(finished(true, "", "b")), Ok("b".to_string()));
    assert_eq!(
        command_result(finished(false, "a", "")),
        Err("talosctl failed: a".to_string())
    );
    assert_eq!(
        command_result(finished(false, "a", "b")),
        Err("talosctl failed: b".to_string())
    );
    assert_eq!(
        command_result(CommandOutcome::NotStarted),
        Err("Failed to execute talosctl".to_string())
    );
}

#[test]
fn tool_replies_and_outputs() {
    assert_eq!(tool_reply(Ok("x".to_string())), text_result("x"));
    assert_eq!(tool_reply(Err("y".to_string())), error_result("y"));
    assert_eq!(
        tool_output_text(OutputForm::Single, &vec![" keep ".to_string()]),
        " keep "
    );
}

#[test]
fn every_reply_is_well_formed() {
    let requests = vec![
        JsonRpcRequest::new("initialize", None, Some(number(1))),
        JsonRpcRequest::new("ping", None, Some(text("id"))),
        JsonRpcRequest::new("bogus", None, None),
        JsonRpcRequest::new("tools/call", None, Some(number(2))),
        call("containers", object(vec![])),
        call("nope", object(vec![])),
    ];
    for req in requests {
        let id = req.id.clone();
        let r = reply(handle_request(&req));
        assert_eq!(r.jsonrpc, "2.0");
        assert_eq!(r.id, id);
        assert!(r.result.is_some() != r.error.is_some());
    }
}

#[test]
fn output_is_read_as_lossy_utf8() {
    let outcome = CommandOutcome::Finished {
        success: true,
        stdout: vec![0xff, b'a', 0xe2, 0x82, 0xac],
        stderr: vec![],
    };
    assert_eq!(command_result(outcome), Ok("\u{fffd}a\u{20ac}".to_string()));
    let invalid_only = CommandOutcome::Finished {
        success: false,
        stdout: vec![],
        stderr: vec![0xc3],
    };
    assert_eq!(
        command_result(invalid_only),
        Err("talosctl failed: \u{fffd}".to_string())
    );
}

#[test]
fn talosctl_result_picks_the_stream() {
    assert_eq!(
        talosctl_result(true, "".to_string(), "warn".to_string()),
        Ok("warn".to_string())
    );
    assert_eq!(
        talosctl_result(false, "".to_string(), "".to_string()),
        Err("talosctl failed: ".to_string())
    );
}

#[test]
fn node_tools_run_against_the_named_node() {
    for tool in get_all_tool_schemas() {
        let name = tool.get("name").unwrap().as_str().unwrap().clone();
        let required = tool.get("inputSchema").unwrap().get("required").unwrap();
        let required: Vec<String> = required
            .as_array()
            .unwrap()
            .iter()
            .map(|r| r.as_str().unwrap().clone())
            .collect();
        if required.first().map(|r| r.as_str()) != Some("node") || name == "copy" {
            continue;
        }
        let mut args: Vec<(&str, JsonValue)> = Vec::new();
        for r in &required {
            let value = match r.as_str() {
                "node" => "10.0.0.9",
                "action" => "status",
                _ => "x",
            };
            args.push((r.as_str(), text(value)));
        }
        let mut step = handle_request(&call(&name, object(args)));
        let mut runs = 0;
        while let Step::Run(c) = step {
            assert_eq!(c.command()[0], "--nodes", "tool {}", name);
            assert_eq!(c.command()[1], "10.0.0.9", "tool {}", name);
            runs += 1;
            step = c.resume(finished(true, "ok", ""));
        }
        assert!(runs >= 1, "tool {}", name);
    }
}
