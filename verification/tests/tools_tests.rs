use talos_mcp_server::json::JsonValue;
use talos_mcp_server::tools::{
    apply_config_tool, containers_tool, disks_tool, dmesg_tool, get_all_tool_schemas,
    get_health_tool, interfaces_tool, list_tool, reboot_node_tool, routes_tool, stats_tool,
};

fn text(s: &str) -> JsonValue {
    JsonValue::String(s.to_string())
}

fn is_object(v: &JsonValue) -> bool {
    matches!(v, JsonValue::Object(_))
}

fn name_of(tool: &JsonValue) -> String {
    tool.get("name").unwrap().as_str().unwrap().clone()
}

fn validate_tool_schema(tool: &JsonValue) {
    assert!(is_object(tool), "Tool schema should be an object");
    assert!(tool.get("name").is_some(), "Tool should have 'name' field");
    assert!(
        tool.get("description").is_some(),
        "Tool should have 'description' field"
    );
    let input_schema = tool
        .get("inputSchema")
        .expect("Tool should have 'inputSchema' field");
    assert!(is_object(input_schema), "inputSchema should be an object");
    assert_eq!(
        input_schema.get("type").unwrap(),
        &text("object"),
        "inputSchema type should be 'object'"
    );
    assert!(
        input_schema.get("properties").is_some(),
        "inputSchema should have 'properties' field"
    );
}

#[test]
fn test_get_all_tool_schemas_returns_tools() {
    let tools = get_all_tool_schemas();
    assert!(!tools.is_empty(), "Should return at least one tool");
    assert!(
        tools.len() > 30,
        "Should return at least 30 tools, got {}",
        tools.len()
    );
}

#[test]
fn test_all_tools_have_valid_schemas() {
    let tools = get_all_tool_schemas();
    for tool in &tools {
        validate_tool_schema(tool);
    }
}

#[test]
fn test_containers_tool_structure() {
    let tool = containers_tool();
    assert_eq!(tool.get("name").unwrap(), &text("containers"));
    let schema = tool.get("inputSchema").unwrap();
    let required = schema.get("required").unwrap().as_array().unwrap();
    assert!(required.contains(&text("node")), "node should be required");
}

#[test]
fn test_stats_tool_structure() {
    let tool = stats_tool();
    assert_eq!(tool.get("name").unwrap(), &text("stats"));
    validate_tool_schema(&tool);
}

#[test]
fn test_list_tool_structure() {
    let tool = list_tool();
    assert_eq!(tool.get("name").unwrap(), &text("list"));
    validate_tool_schema(&tool);
}

#[test]
fn test_interfaces_tool_structure() {
    let tool = interfaces_tool();
    assert_eq!(tool.get("name").unwrap(), &text("interfaces"));
    validate_tool_schema(&tool);
}

#[test]
fn test_routes_tool_structure() {
    let tool = routes_tool();
    assert_eq!(tool.get("name").unwrap(), &text("routes"));
    validate_tool_schema(&tool);
}

#[test]
fn test_dmesg_tool_structure() {
    let tool = dmesg_tool();
    assert_eq!(tool.get("name").unwrap(), &text("dmesg"));
    validate_tool_schema(&tool);
}

#[test]
fn test_disks_tool_structure() {
    let tool = disks_tool();
    assert_eq!(tool.get("name").unwrap(), &text("disks"));
    validate_tool_schema(&tool);
}

#[test]
fn test_get_health_tool_structure() {
    let tool = get_health_tool();
    assert_eq!(tool.get("name").unwrap(), &text("get_health"));
    validate_tool_schema(&tool);
}

#[test]
fn test_reboot_node_tool_structure() {
    let tool = reboot_node_tool();
    assert_eq!(tool.get("name").unwrap(), &text("reboot_node"));
    validate_tool_schema(&tool);
}

#[test]
fn test_apply_config_tool_structure() {
    let tool = apply_config_tool();
    assert_eq!(tool.get("name").unwrap(), &text("apply_config"));
    let schema = tool.get("inputSchema").unwrap();
    let required = schema.get("required").unwrap().as_array().unwrap();
    assert!(required.contains(&text("node")), "node should be required");
}

#[test]
fn tool_list_has_thirty_seven_distinct_tools() {
    let tools = get_all_tool_schemas();
    assert_eq!(tools.len(), 37);
    let mut names: Vec<String> = tools.iter().map(name_of).collect();
    assert_eq!(names[0], "containers");
    assert_eq!(names[36], "defrag_etcd");
    names.sort();
    names.dedup();
    assert_eq!(names.len(), 37);
}

#[test]
fn schema_properties_are_exact() {
    let tool = get_all_tool_schemas()
        .into_iter()
        .find(|t| name_of(t) == "get_processes")
        .unwrap();
    let sort = tool
        .get("inputSchema")
        .unwrap()
        .get("properties")
        .unwrap()
        .get("sort")
        .unwrap();
    assert_eq!(sort.get("type").unwrap(), &text("string"));
    assert_eq!(
        sort.get("enum").unwrap(),
        &JsonValue::Array(vec![text("cpu"), text("rss"), text("pid"), text("time")])
    );
    assert_eq!(
        sort.get("description").unwrap(),
        &text("Sort processes by: cpu, rss, pid, or time")
    );
    let node = tool.get("inputSchema").unwrap().get("properties").unwrap().get("node").unwrap();
    assert!(node.get("enum").is_none());
}

#[test]
fn list_schema_has_the_file_type_array() {
    let tool = list_tool();
    let props = tool.get("inputSchema").unwrap().get("properties").unwrap();
    let types = props.get("r#type").unwrap();
    assert_eq!(types.get("type").unwrap(), &text("array"));
    let items = types.get("items").unwrap();
    assert_eq!(items.get("type").unwrap(), &text("string"));
    assert_eq!(
        items.get("enum").unwrap(),
        &JsonValue::Array(vec![text("f"), text("d"), text("l")])
    );
    assert_eq!(
        props.get("depth").unwrap().get("type").unwrap(),
        &text("integer")
    );
}

#[test]
fn get_health_requires_nothing() {
    let tool = get_health_tool();
    let required = tool.get("inputSchema").unwrap().get("required").unwrap();
    assert_eq!(required, &JsonValue::Array(vec![]));
}
