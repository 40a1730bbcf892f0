use talos_mcp_server::args::{add_context_to_args, get_optional_int};
use talos_mcp_server::handlers::{
    dispatch_tool, handle_containers, handle_copy, handle_get_cpu_memory_usage,
    handle_get_etcd_status, handle_get_health, handle_get_logs, handle_list, handle_service,
    handle_upgrade_k8s, handle_validate_config,
};
use talos_mcp_server::json::{JsonNumber, JsonValue};
use talos_mcp_server::text::{i32_to_decimal, trim_text};

fn text(s: &str) -> JsonValue {
    JsonValue::String(s.to_string())
}

fn object(members: Vec<(&str, JsonValue)>) -> JsonValue {
    JsonValue::Object(members.into_iter().map(|(k, v)| (k.to_string(), v)).collect())
}

fn argv(v: &[&str]) -> Vec<String> {
    v.iter().map(|s| s.to_string()).collect()
}

#[test]
fn containers_command_line() {
    let args = object(vec![
        ("node", text("10.0.0.1")),
        ("context", text("prod")),
        ("kubernetes", JsonValue::Bool(true)),
        ("namespace", text("k8s.io")),
    ]);
    assert_eq!(
        handle_containers(&args),
        Ok(argv(&[
            "--nodes", "10.0.0.1", "containers", "--context", "prod", "--kubernetes",
            "--namespace", "k8s.io"
        ]))
    );
    let bare = object(vec![("node", text("n")), ("kubernetes", JsonValue::Bool(false))]);
    assert_eq!(handle_containers(&bare), Ok(argv(&["--nodes", "n", "containers"])));
}

#[test]
fn missing_node_is_reported() {
    let args = object(vec![("node", JsonValue::Number(JsonNumber::PosInt(3)))]);
    assert_eq!(
        handle_containers(&args),
        Err("Missing required parameter: node".to_string())
    );
}

#[test]
fn list_command_line_with_types_and_depth() {
    let args = object(vec![
        ("node", text("n")),
        ("long", JsonValue::Bool(true)),
        ("recurse", JsonValue::Bool(true)),
        ("depth", JsonValue::Number(JsonNumber::NegInt(-2))),
        (
            "type",
            JsonValue::Array(vec![text("f"), JsonValue::Null, text("d")]),
        ),
    ]);
    assert_eq!(
        handle_list(&args),
        Ok(argv(&[
            "--nodes", "n", "ls", "/", "-l", "-R", "--depth", "-2", "-t", "f", "-t", "d"
        ]))
    );
}

#[test]
fn copy_joins_node_and_source() {
    let args = object(vec![
        ("node", text("n1")),
        ("source", text("/var/log")),
        ("destination", text("./out")),
    ]);
    assert_eq!(handle_copy(&args), Ok(argv(&["cp", "n1:/var/log", "./out"])));
    let partial = object(vec![("node", text("n1")), ("source", text("/x"))]);
    assert_eq!(
        handle_copy(&partial),
        Err("Missing required parameter: destination".to_string())
    );
}

#[test]
fn service_actions() {
    let ok = object(vec![
        ("node", text("n")),
        ("service", text("kubelet")),
        ("action", text("restart")),
    ]);
    assert_eq!(
        handle_service(&ok),
        Ok(argv(&["--nodes", "n", "service", "kubelet", "restart"]))
    );
    let bad = object(vec![
        ("node", text("n")),
        ("service", text("kubelet")),
        ("action", text("explode")),
    ]);
    assert_eq!(
        handle_service(&bad),
        Err("Invalid service action: explode".to_string())
    );
}

#[test]
fn logs_command_line() {
    let args = object(vec![
        ("node", text("n")),
        ("service", text("k8s")),
        ("tail", JsonValue::Number(JsonNumber::PosInt(100))),
        ("kubernetes", JsonValue::Bool(true)),
        ("namespace", text("kube-system")),
    ]);
    assert_eq!(
        handle_get_logs(&args),
        Ok(argv(&[
            "--nodes", "n", "logs", "k8s", "--tail", "100", "-k", "-n", "kube-system"
        ]))
    );
}

#[test]
fn health_node_is_optional() {
    assert_eq!(handle_get_health(&object(vec![])), Ok(argv(&["health"])));
    assert_eq!(
        handle_get_health(&object(vec![("node", text("n"))])),
        Ok(argv(&["health", "--nodes", "n"]))
    );
}

#[test]
fn etcd_context_comes_before_the_subcommand() {
    let args = object(vec![("node", text("n")), ("context", text("c"))]);
    assert_eq!(
        handle_get_etcd_status(&args),
        Ok(argv(&["--nodes", "n", "--context", "c", "etcd", "status"]))
    );
}

#[test]
fn other_command_lines() {
    let args = object(vec![("node", text("n")), ("version", text("1.30.0"))]);
    assert_eq!(
        handle_upgrade_k8s(&args),
        Ok(argv(&["--nodes", "n", "upgrade-k8s", "--to", "1.30.0"]))
    );
    let cfg = object(vec![("file", text("c.yaml")), ("mode", text("metal"))]);
    assert_eq!(
        handle_validate_config(&cfg),
        Ok(argv(&["validate-config", "--file", "c.yaml", "--mode", "metal"]))
    );
}

#[test]
fn cpu_memory_runs_two_commands() {
    let args = object(vec![("node", text("n")), ("context", text("c"))]);
    assert_eq!(
        handle_get_cpu_memory_usage(&args),
        Ok(vec![
            argv(&["--nodes", "n", "cpu", "--context", "c"]),
            argv(&["--nodes", "n", "memory", "--context", "c"])
        ])
    );
}

#[test]
fn dispatch_knows_every_tool_and_no_other() {
    let args = object(vec![("node", text("n"))]);
    assert_eq!(
        dispatch_tool(&"stats".to_string(), &args),
        Some(Ok(vec![argv(&["--nodes", "n", "stats"])]))
    );
    assert_eq!(dispatch_tool(&"statz".to_string(), &args), None);
    assert_eq!(dispatch_tool(&"".to_string(), &args), None);
}

#[test]
fn optional_int_is_cut_to_i32() {
    let args = object(vec![(
        "depth",
        JsonValue::Number(JsonNumber::PosInt(4294967297)),
    )]);
    assert_eq!(get_optional_int(&args, "depth"), Some(1));
    let float = object(vec![(
        "depth",
        JsonValue::Number(JsonNumber::FloatBits(2.0f64.to_bits())),
    )]);
    assert_eq!(get_optional_int(&float, "depth"), None);
}

#[test]
fn context_flag_from_an_option() {
    let mut cmd = argv(&["x"]);
    add_context_to_args(&Some("ctx".to_string()), &mut cmd);
    assert_eq!(cmd, argv(&["x", "--context", "ctx"]));
    add_context_to_args(&None, &mut cmd);
    assert_eq!(cmd, argv(&["x", "--context", "ctx"]));
}

#[test]
fn decimal_numerals() {
    assert_eq!(i32_to_decimal(0), "0");
    assert_eq!(i32_to_decimal(42), "42");
    assert_eq!(i32_to_decimal(-7), "-7");
    assert_eq!(i32_to_decimal(i32::MAX), i32::MAX.to_string());
    assert_eq!(i32_to_decimal(i32::MIN), i32::MIN.to_string());
}

#[test]
fn trimming_matches_str_trim() {
    for s in ["", "  ", " a b ", "\t\nx\r\n", "\u{3000}y\u{a0}", "z", "\u{85}q\u{2029}"] {
        assert_eq!(trim_text(s), s.trim());
    }
}
