//! The tools that the server offers, each with the JSON schema of its input.

use vstd::prelude::*;

use crate::json::{
    json_members, json_seq, lemma_json_members, lemma_json_seq, lemma_members3, lemma_members_push,
    object, text, Json, JsonValue,
};

verus! {

/// The type of a tool parameter.
#[derive(Debug, Clone, Copy, PartialEq, Eq)]
pub enum ParamType {
    Text,
    Boolean,
    Integer,
    /// A list of texts.
    TextList,
}

/// A parameter of a tool, as its schema describes it.
#[verifier::ext_equal]
pub struct ParamDef {
    pub name: Seq<char>,
    pub kind: ParamType,
    pub description: Seq<char>,
    /// The values that it admits (for a list, the values of its items);
    /// empty where any value goes.
    pub choices: Seq<Seq<char>>,
}

/// A tool: its name, what it does, its parameters, and which of them a
/// call must give.
pub struct ToolDef {
    pub name: Seq<char>,
    pub description: Seq<char>,
    pub params: Seq<ParamDef>,
    pub required: Seq<Seq<char>>,
}

/// A parameter of a tool.
pub struct Param {
    pub name: &'static str,
    pub kind: ParamType,
    pub description: &'static str,
    pub choices: Vec<&'static str>,
}

pub open spec fn texts_view(v: Seq<&str>) -> Seq<Seq<char>> {
    v.map_values(|s: &str| s@)
}

impl View for Param {
    type V = ParamDef;

    open spec fn view(&self) -> ParamDef {
        ParamDef {
            name: self.name@,
            kind: self.kind,
            description: self.description@,
            choices: texts_view(self.choices@),
        }
    }
}

pub open spec fn params_view(v: Seq<Param>) -> Seq<ParamDef> {
    v.map_values(|p: Param| p@)
}

/// JSON strings.
pub open spec fn json_texts(v: Seq<Seq<char>>) -> Seq<Json> {
    v.map_values(|s: Seq<char>| Json::Str(s))
}

/// The `enum` member of a schema, where there are values to choose from.
pub open spec fn enum_members(choices: Seq<Seq<char>>) -> Seq<(Seq<char>, Json)> {
    if choices.len() == 0 {
        Seq::empty()
    } else {
        seq![("enum"@, Json::Array(json_texts(choices)))]
    }
}

pub open spec fn kind_name(kind: ParamType) -> Seq<char> {
    match kind {
        ParamType::Text => "string"@,
        ParamType::Boolean => "boolean"@,
        ParamType::Integer => "integer"@,
        ParamType::TextList => "array"@,
    }
}

/// The schema of a parameter.
pub open spec fn param_json(p: ParamDef) -> Json {
    match p.kind {
        ParamType::TextList => Json::Object(
            seq![
                ("type"@, Json::Str("array"@)),
                ("items"@, Json::Object(seq![("type"@, Json::Str("string"@))] + enum_members(p.choices))),
                ("description"@, Json::Str(p.description)),
            ],
        ),
        _ => Json::Object(
            seq![("type"@, Json::Str(kind_name(p.kind)))] + enum_members(p.choices) + seq![
                ("description"@, Json::Str(p.description)),
            ],
        ),
    }
}

/// The `properties` of an input schema: each parameter under its name.
pub open spec fn properties_json(params: Seq<ParamDef>) -> Seq<(Seq<char>, Json)> {
    params.map_values(|p: ParamDef| (p.name, param_json(p)))
}

/// The schema of a tool, as the server lists it.
pub open spec fn schema_json(t: ToolDef) -> Json {
    Json::Object(
        seq![
            ("name"@, Json::Str(t.name)),
            ("description"@, Json::Str(t.description)),
            (
                "inputSchema"@,
                Json::Object(
                    seq![
                        ("type"@, Json::Str("object"@)),
                        ("properties"@, Json::Object(properties_json(t.params))),
                        ("required"@, Json::Array(json_texts(t.required))),
                    ],
                ),
            ),
        ],
    )
}

/// A JSON array of strings.
fn text_array(items: &Vec<&'static str>) -> (r: JsonValue)
    ensures
        r@ == Json::Array(json_texts(texts_view(items@))),
{
    let mut out: Vec<JsonValue> = Vec::new();
    let n = items.len();
    for i in 0..n
        invariant
            n == items@.len(),
            out@.len() == i,
            forall|j: int| #![trigger out@[j]] 0 <= j < i ==> out@[j]@ == Json::Str(items@[j]@),
    {
        out.push(text(items[i]));
    }
    proof {
        lemma_json_seq(out@);
        assert(json_seq(out@) =~= json_texts(texts_view(items@)));
    }
    JsonValue::Array(out)
}

/// The `enum` member, where there are values to choose from.
fn push_enum(members: &mut Vec<(String, JsonValue)>, choices: &Vec<&'static str>)
    ensures
        json_members(final(members)@) == json_members(old(members)@) + enum_members(
            texts_view(choices@),
        ),
{
    proof {
        lemma_json_members(members@);
    }
    if choices.len() > 0 {
        members.push((String::from_str("enum"), text_array(choices)));
    }
    proof {
        lemma_json_members(members@);
        assert(json_members(members@) =~= json_members(old(members)@) + enum_members(
            texts_view(choices@),
        ));
    }
}

/// The schema of a parameter.
fn param_schema(p: &Param) -> (r: JsonValue)
    ensures
        r@ == param_json(p@),
{
    match p.kind {
        ParamType::TextList => {
            let mut items: Vec<(String, JsonValue)> = Vec::new();
            items.push((String::from_str("type"), text("string")));
            proof {
                lemma_json_members(items@);
                assert(json_members(items@) =~= seq![("type"@, Json::Str("string"@))]);
            }
            push_enum(&mut items, &p.choices);
            let a = (String::from_str("type"), text("array"));
            let b = (String::from_str("items"), object(items));
            let c = (String::from_str("description"), text(p.description));
            proof {
                lemma_members3(a, b, c);
            }
            object(vec![a, b, c])
        },
        _ => {
            let mut members: Vec<(String, JsonValue)> = Vec::new();
            let kind = match p.kind {
                ParamType::Text => "string",
                ParamType::Boolean => "boolean",
                ParamType::Integer => "integer",
                ParamType::TextList => "array",
            };
            members.push((String::from_str("type"), text(kind)));
            proof {
                lemma_json_members(members@);
                assert(json_members(members@) =~= seq![("type"@, Json::Str(kind_name(p.kind)))]);
            }
            push_enum(&mut members, &p.choices);
            let d = (String::from_str("description"), text(p.description));
            proof {
                lemma_members_push(members@, d);
            }
            members.push(d);
            object(members)
        },
    }
}

/// The schema of a tool with the given name, description, parameters and
/// required parameters.
pub fn tool_schema(name: &str, description: &str, params: &Vec<Param>, required: &Vec<&'static str>) -> (r: JsonValue)
    ensures
        r@ == schema_json(
            ToolDef {
                name: name@,
                description: description@,
                params: params_view(params@),
                required: texts_view(required@),
            },
        ),
{
    let mut props: Vec<(String, JsonValue)> = Vec::new();
    let n = params.len();
    for i in 0..n
        invariant
            n == params@.len(),
            props@.len() == i,
            forall|j: int|
                #![trigger props@[j]]
                0 <= j < i ==> props@[j].0@ == params@[j].name@ && props@[j].1@ == param_json(
                    params@[j]@,
                ),
    {
        let p = &params[i];
        props.push((String::from_str(p.name), param_schema(p)));
    }
    proof {
        lemma_json_members(props@);
        assert(json_members(props@) =~= properties_json(params_view(params@)));
    }
    let a = (String::from_str("type"), text("object"));
    let b = (String::from_str("properties"), object(props));
    let c = (String::from_str("required"), text_array(required));
    proof {
        lemma_members3(a, b, c);
    }
    let input = object(vec![a, b, c]);
    let x = (String::from_str("name"), text(name));
    let y = (String::from_str("description"), text(description));
    let z = (String::from_str("inputSchema"), input);
    proof {
        lemma_members3(x, y, z);
    }
    object(vec![x, y, z])
}

/// The tool `containers`.
#[verifier::opaque]
pub open spec fn containers_def() -> ToolDef {
    ToolDef {
        name: "containers"@,
        description: "List containers running on a Talos node with optional Kubernetes namespace filtering"@,
        params: seq![
            ParamDef {
                name: "node"@,
                kind: ParamType::Text,
                description: "The IP address or hostname of the Talos node"@,
                choices: seq![],
            },
            ParamDef {
                name: "kubernetes"@,
                kind: ParamType::Boolean,
                description: "Show Kubernetes containers (cri namespace)"@,
                choices: seq![],
            },
            ParamDef {
                name: "namespace"@,
                kind: ParamType::Text,
                description: "Container namespace to filter by"@,
                choices: seq![],
            },
        ],
        required: seq!["node"@],
    }
}

/// The tool `stats`.
#[verifier::opaque]
pub open spec fn stats_def() -> ToolDef {
    ToolDef {
        name: "stats"@,
        description: "Get resource statistics for containers on a Talos node"@,
        params: seq![
            ParamDef {
                name: "node"@,
                kind: ParamType::Text,
                description: "The IP address or hostname of the Talos node"@,
                choices: seq![],
            },
            ParamDef {
                name: "kubernetes"@,
                kind: ParamType::Boolean,
                description: "Show Kubernetes container stats"@,
                choices: seq![],
            },
        ],
        required: seq!["node"@],
    }
}

/// The tool `get_processes`.
#[verifier::opaque]
pub open spec fn get_processes_def() -> ToolDef {
    ToolDef {
        name: "get_processes"@,
        description: "List running processes on a Talos node with sorting capabilities"@,
        params: seq![
            ParamDef {
                name: "node"@,
                kind: ParamType::Text,
                description: "The IP address or hostname of the Talos node"@,
                choices: seq![],
            },
            ParamDef {
                name: "sort"@,
                kind: ParamType::Text,
                description: "Sort processes by: cpu, rss, pid, or time"@,
                choices: seq!["cpu"@, "rss"@, "pid"@, "time"@],
            },
        ],
        required: seq!["node"@],
    }
}

/// The tool `memory_verbose`.
#[verifier::opaque]
pub open spec fn memory_verbose_def() -> ToolDef {
    ToolDef {
        name: "memory_verbose"@,
        description: "Get detailed memory information from a Talos node"@,
        params: seq![
            ParamDef {
                name: "node"@,
                kind: ParamType::Text,
                description: "The IP address or hostname of the Talos node"@,
                choices: seq![],
            },
        ],
        required: seq!["node"@],
    }
}

/// The tool `get_cpu_memory_usage`.
#[verifier::opaque]
pub open spec fn get_cpu_memory_usage_def() -> ToolDef {
    ToolDef {
        name: "get_cpu_memory_usage"@,
        description: "Get combined CPU and memory usage statistics from a Talos node"@,
        params: seq![
            ParamDef {
                name: "node"@,
                kind: ParamType::Text,
                description: "The IP address or hostname of the Talos node"@,
                choices: seq![],
            },
        ],
        required: seq!["node"@],
    }
}

/// The tool `list`.
#[verifier::opaque]
pub open spec fn list_def() -> ToolDef {
    ToolDef {
        name: "list"@,
        description: "List files and directories on a Talos node with advanced filtering options"@,
        params: seq![
            ParamDef {
                name: "node"@,
                kind: ParamType::Text,
                description: "The IP address or hostname of the Talos node"@,
                choices: seq![],
            },
            ParamDef {
                name: "path"@,
                kind: ParamType::Text,
                description: "Directory path to list (default: /)"@,
                choices: seq![],
            },
            ParamDef {
                name: "long"@,
                kind: ParamType::Boolean,
                description: "Show detailed file information"@,
                choices: seq![],
            },
            ParamDef {
                name: "humanize"@,
                kind: ParamType::Boolean,
                description: "Show file sizes in human-readable format"@,
                choices: seq![],
            },
            ParamDef {
                name: "recurse"@,
                kind: ParamType::Boolean,
                description: "Recursively list subdirectories"@,
                choices: seq![],
            },
            ParamDef {
                name: "depth"@,
                kind: ParamType::Integer,
                description: "Maximum recursion depth"@,
                choices: seq![],
            },
            ParamDef {
                name: "r#type"@,
                kind: ParamType::TextList,
                description: "Filter by file type: f (file), d (directory), l (symlink)"@,
                choices: seq!["f"@, "d"@, "l"@],
            },
        ],
        required: seq!["node"@],
    }
}

/// The tool `read`.
#[verifier::opaque]
pub open spec fn read_def() -> ToolDef {
    ToolDef {
        name: "read"@,
        description: "Read file content from a Talos node"@,
        params: seq![
            ParamDef {
                name: "node"@,
                kind: ParamType::Text,
                description: "The IP address or hostname of the Talos node"@,
                choices: seq![],
            },
            ParamDef {
                name: "path"@,
                kind: ParamType::Text,
                description: "Path to the file to read"@,
                choices: seq![],
            },
        ],
        required: seq!["node"@, "path"@],
    }
}

/// The tool `copy`.
#[verifier::opaque]
pub open spec fn copy_def() -> ToolDef {
    ToolDef {
        name: "copy"@,
        description: "Copy files from a Talos node to local system"@,
        params: seq![
            ParamDef {
                name: "node"@,
                kind: ParamType::Text,
                description: "The IP address or hostname of the Talos node"@,
                choices: seq![],
            },
            ParamDef {
                name: "source"@,
                kind: ParamType::Text,
                description: "Source path on the Talos node"@,
                choices: seq![],
            },
            ParamDef {
                name: "destination"@,
                kind: ParamType::Text,
                description: "Destination path on local system"@,
                choices: seq![],
            },
        ],
        required: seq!["node"@, "source"@, "destination"@],
    }
}

/// The tool `get_usage`.
#[verifier::opaque]
pub open spec fn get_usage_def() -> ToolDef {
    ToolDef {
        name: "get_usage"@,
        description: "Get disk usage information for a path on a Talos node"@,
        params: seq![
            ParamDef {
                name: "node"@,
                kind: ParamType::Text,
                description: "The IP address or hostname of the Talos node"@,
                choices: seq![],
            },
            ParamDef {
                name: "path"@,
                kind: ParamType::Text,
                description: "Path to check disk usage for"@,
                choices: seq![],
            },
        ],
        required: seq!["node"@],
    }
}

/// The tool `get_mounts`.
#[verifier::opaque]
pub open spec fn get_mounts_def() -> ToolDef {
    ToolDef {
        name: "get_mounts"@,
        description: "Get filesystem mount details from a Talos node"@,
        params: seq![
            ParamDef {
                name: "node"@,
                kind: ParamType::Text,
                description: "The IP address or hostname of the Talos node"@,
                choices: seq![],
            },
        ],
        required: seq!["node"@],
    }
}

/// The tool `interfaces`.
#[verifier::opaque]
pub open spec fn interfaces_def() -> ToolDef {
    ToolDef {
        name: "interfaces"@,
        description: "Get detailed network interface information with multiple output formats"@,
        params: seq![
            ParamDef {
                name: "node"@,
                kind: ParamType::Text,
                description: "The IP address or hostname of the Talos node"@,
                choices: seq![],
            },
            ParamDef {
                name: "namespace"@,
                kind: ParamType::Text,
                description: "Network namespace to query"@,
                choices: seq![],
            },
            ParamDef {
                name: "output"@,
                kind: ParamType::Text,
                description: "Output format (table, json, or yaml)"@,
                choices: seq!["table"@, "json"@, "yaml"@],
            },
        ],
        required: seq!["node"@],
    }
}

/// The tool `routes`.
#[verifier::opaque]
pub open spec fn routes_def() -> ToolDef {
    ToolDef {
        name: "routes"@,
        description: "Get the routing table from a Talos node with advanced filtering"@,
        params: seq![
            ParamDef {
                name: "node"@,
                kind: ParamType::Text,
                description: "The IP address or hostname of the Talos node"@,
                choices: seq![],
            },
            ParamDef {
                name: "namespace"@,
                kind: ParamType::Text,
                description: "Network namespace to query"@,
                choices: seq![],
            },
            ParamDef {
                name: "output"@,
                kind: ParamType::Text,
                description: "Output format (table, json, or yaml)"@,
                choices: seq!["table"@, "json"@, "yaml"@],
            },
        ],
        required: seq!["node"@],
    }
}

/// The tool `get_netstat`.
#[verifier::opaque]
pub open spec fn get_netstat_def() -> ToolDef {
    ToolDef {
        name: "get_netstat"@,
        description: "Get network connection statistics from a Talos node"@,
        params: seq![
            ParamDef {
                name: "node"@,
                kind: ParamType::Text,
                description: "The IP address or hostname of the Talos node"@,
                choices: seq![],
            },
        ],
        required: seq!["node"@],
    }
}

/// The tool `capture_packets`.
#[verifier::opaque]
pub open spec fn capture_packets_def() -> ToolDef {
    ToolDef {
        name: "capture_packets"@,
        description: "Capture network packets on a Talos node interface"@,
        params: seq![
            ParamDef {
                name: "node"@,
                kind: ParamType::Text,
                description: "The IP address or hostname of the Talos node"@,
                choices: seq![],
            },
            ParamDef {
                name: "interface"@,
                kind: ParamType::Text,
                description: "Network interface to capture on"@,
                choices: seq![],
            },
            ParamDef {
                name: "duration"@,
                kind: ParamType::Integer,
                description: "Duration of capture in seconds"@,
                choices: seq![],
            },
        ],
        required: seq!["node"@, "interface"@],
    }
}

/// The tool `get_network_io_cgroups`.
#[verifier::opaque]
pub open spec fn get_network_io_cgroups_def() -> ToolDef {
    ToolDef {
        name: "get_network_io_cgroups"@,
        description: "Get network I/O statistics from cgroups on a Talos node"@,
        params: seq![
            ParamDef {
                name: "node"@,
                kind: ParamType::Text,
                description: "The IP address or hostname of the Talos node"@,
                choices: seq![],
            },
        ],
        required: seq!["node"@],
    }
}

/// The tool `list_network_interfaces`.
#[verifier::opaque]
pub open spec fn list_network_interfaces_def() -> ToolDef {
    ToolDef {
        name: "list_network_interfaces"@,
        description: "Legacy network interface listing for a Talos node"@,
        params: seq![
            ParamDef {
                name: "node"@,
                kind: ParamType::Text,
                description: "The IP address or hostname of the Talos node"@,
                choices: seq![],
            },
        ],
        required: seq!["node"@],
    }
}

/// The tool `dmesg`.
#[verifier::opaque]
pub open spec fn dmesg_def() -> ToolDef {
    ToolDef {
        name: "dmesg"@,
        description: "Get kernel messages from a Talos node"@,
        params: seq![
            ParamDef {
                name: "node"@,
                kind: ParamType::Text,
                description: "The IP address or hostname of the Talos node"@,
                choices: seq![],
            },
            ParamDef {
                name: "tail"@,
                kind: ParamType::Boolean,
                description: "Show only recent messages"@,
                choices: seq![],
            },
        ],
        required: seq!["node"@],
    }
}

/// The tool `service`.
#[verifier::opaque]
pub open spec fn service_def() -> ToolDef {
    ToolDef {
        name: "service"@,
        description: "Manage system services on a Talos node (start, stop, restart, status)"@,
        params: seq![
            ParamDef {
                name: "node"@,
                kind: ParamType::Text,
                description: "The IP address or hostname of the Talos node"@,
                choices: seq![],
            },
            ParamDef {
                name: "service"@,
                kind: ParamType::Text,
                description: "Name of the service"@,
                choices: seq![],
            },
            ParamDef {
                name: "action"@,
                kind: ParamType::Text,
                description: "Action to perform on the service"@,
                choices: seq!["start"@, "stop"@, "restart"@, "status"@],
            },
        ],
        required: seq!["node"@, "service"@, "action"@],
    }
}

/// The tool `restart`.
#[verifier::opaque]
pub open spec fn restart_def() -> ToolDef {
    ToolDef {
        name: "restart"@,
        description: "Restart a service on a Talos node"@,
        params: seq![
            ParamDef {
                name: "node"@,
                kind: ParamType::Text,
                description: "The IP address or hostname of the Talos node"@,
                choices: seq![],
            },
            ParamDef {
                name: "service"@,
                kind: ParamType::Text,
                description: "Name of the service to restart"@,
                choices: seq![],
            },
        ],
        required: seq!["node"@, "service"@],
    }
}

/// The tool `get_logs`.
#[verifier::opaque]
pub open spec fn get_logs_def() -> ToolDef {
    ToolDef {
        name: "get_logs"@,
        description: "Get logs from a Talos node or service"@,
        params: seq![
            ParamDef {
                name: "node"@,
                kind: ParamType::Text,
                description: "The IP address or hostname of the Talos node"@,
                choices: seq![],
            },
            ParamDef {
                name: "service"@,
                kind: ParamType::Text,
                description: "Service name (e.g., 'kubelet', 'containerd') or 'k8s' for Kubernetes logs"@,
                choices: seq![],
            },
            ParamDef {
                name: "tail"@,
                kind: ParamType::Integer,
                description: "Number of lines to show from the end of the logs (default: all lines)"@,
                choices: seq![],
            },
            ParamDef {
                name: "kubernetes"@,
                kind: ParamType::Boolean,
                description: "Show Kubernetes logs (shortcut for service='k8s')"@,
                choices: seq![],
            },
            ParamDef {
                name: "namespace"@,
                kind: ParamType::Text,
                description: "Kubernetes namespace (for Kubernetes logs)"@,
                choices: seq![],
            },
        ],
        required: seq!["node"@, "service"@],
    }
}

/// The tool `get_events`.
#[verifier::opaque]
pub open spec fn get_events_def() -> ToolDef {
    ToolDef {
        name: "get_events"@,
        description: "Get system events from a Talos node"@,
        params: seq![
            ParamDef {
                name: "node"@,
                kind: ParamType::Text,
                description: "The IP address or hostname of the Talos node"@,
                choices: seq![],
            },
            ParamDef {
                name: "tail"@,
                kind: ParamType::Integer,
                description: "Number of events to show"@,
                choices: seq![],
            },
        ],
        required: seq!["node"@],
    }
}

/// The tool `disks`.
#[verifier::opaque]
pub open spec fn disks_def() -> ToolDef {
    ToolDef {
        name: "disks"@,
        description: "Get detailed disk information with multiple output formats"@,
        params: seq![
            ParamDef {
                name: "node"@,
                kind: ParamType::Text,
                description: "The IP address or hostname of the Talos node"@,
                choices: seq![],
            },
            ParamDef {
                name: "namespace"@,
                kind: ParamType::Text,
                description: "Namespace to query"@,
                choices: seq![],
            },
            ParamDef {
                name: "output"@,
                kind: ParamType::Text,
                description: "Output format (table, json, or yaml)"@,
                choices: seq!["table"@, "json"@, "yaml"@],
            },
        ],
        required: seq!["node"@],
    }
}

/// The tool `list_disks`.
#[verifier::opaque]
pub open spec fn list_disks_def() -> ToolDef {
    ToolDef {
        name: "list_disks"@,
        description: "List disks on a Talos node"@,
        params: seq![
            ParamDef {
                name: "node"@,
                kind: ParamType::Text,
                description: "The IP address or hostname of the Talos node"@,
                choices: seq![],
            },
        ],
        required: seq!["node"@],
    }
}

/// The tool `get_health`.
#[verifier::opaque]
pub open spec fn get_health_def() -> ToolDef {
    ToolDef {
        name: "get_health"@,
        description: "Get comprehensive cluster health status with topology support"@,
        params: seq![
            ParamDef {
                name: "node"@,
                kind: ParamType::Text,
                description: "The IP address or hostname of a Talos node (optional, queries cluster if not provided)"@,
                choices: seq![],
            },
        ],
        required: seq![],
    }
}

/// The tool `get_version`.
#[verifier::opaque]
pub open spec fn get_version_def() -> ToolDef {
    ToolDef {
        name: "get_version"@,
        description: "Get Talos version information from a node"@,
        params: seq![
            ParamDef {
                name: "node"@,
                kind: ParamType::Text,
                description: "The IP address or hostname of the Talos node"@,
                choices: seq![],
            },
            ParamDef {
                name: "short"@,
                kind: ParamType::Boolean,
                description: "Show compact version format"@,
                choices: seq![],
            },
        ],
        required: seq!["node"@],
    }
}

/// The tool `get_time`.
#[verifier::opaque]
pub open spec fn get_time_def() -> ToolDef {
    ToolDef {
        name: "get_time"@,
        description: "Get time information and NTP synchronization status from a Talos node"@,
        params: seq![
            ParamDef {
                name: "node"@,
                kind: ParamType::Text,
                description: "The IP address or hostname of the Talos node (required)"@,
                choices: seq![],
            },
            ParamDef {
                name: "check"@,
                kind: ParamType::Text,
                description: "NTP server to check synchronization against (e.g., 'pool.ntp.org')"@,
                choices: seq![],
            },
        ],
        required: seq!["node"@],
    }
}

/// The tool `reboot_node`.
#[verifier::opaque]
pub open spec fn reboot_node_def() -> ToolDef {
    ToolDef {
        name: "reboot_node"@,
        description: "Safely reboot a Talos node"@,
        params: seq![
            ParamDef {
                name: "node"@,
                kind: ParamType::Text,
                description: "The IP address or hostname of the Talos node"@,
                choices: seq![],
            },
            ParamDef {
                name: "mode"@,
                kind: ParamType::Text,
                description: "Reboot mode"@,
                choices: seq!["default"@, "powercycle"@],
            },
        ],
        required: seq!["node"@],
    }
}

/// The tool `shutdown_node`.
#[verifier::opaque]
pub open spec fn shutdown_node_def() -> ToolDef {
    ToolDef {
        name: "shutdown_node"@,
        description: "Gracefully shutdown a Talos node"@,
        params: seq![
            ParamDef {
                name: "node"@,
                kind: ParamType::Text,
                description: "The IP address or hostname of the Talos node"@,
                choices: seq![],
            },
            ParamDef {
                name: "force"@,
                kind: ParamType::Boolean,
                description: "Force shutdown without confirmation"@,
                choices: seq![],
            },
        ],
        required: seq!["node"@],
    }
}

/// The tool `reset_node`.
#[verifier::opaque]
pub open spec fn reset_node_def() -> ToolDef {
    ToolDef {
        name: "reset_node"@,
        description: "Perform a factory reset on a Talos node (DANGEROUS)"@,
        params: seq![
            ParamDef {
                name: "node"@,
                kind: ParamType::Text,
                description: "The IP address or hostname of the Talos node"@,
                choices: seq![],
            },
            ParamDef {
                name: "graceful"@,
                kind: ParamType::Boolean,
                description: "Perform graceful reset"@,
                choices: seq![],
            },
            ParamDef {
                name: "reboot"@,
                kind: ParamType::Boolean,
                description: "Reboot after reset"@,
                choices: seq![],
            },
        ],
        required: seq!["node"@],
    }
}

/// The tool `upgrade_node`.
#[verifier::opaque]
pub open spec fn upgrade_node_def() -> ToolDef {
    ToolDef {
        name: "upgrade_node"@,
        description: "Upgrade Talos OS on a node to a new image"@,
        params: seq![
            ParamDef {
                name: "node"@,
                kind: ParamType::Text,
                description: "The IP address or hostname of the Talos node"@,
                choices: seq![],
            },
            ParamDef {
                name: "image"@,
                kind: ParamType::Text,
                description: "New Talos image to upgrade to"@,
                choices: seq![],
            },
            ParamDef {
                name: "preserve"@,
                kind: ParamType::Boolean,
                description: "Preserve data during upgrade"@,
                choices: seq![],
            },
            ParamDef {
                name: "stage"@,
                kind: ParamType::Boolean,
                description: "Stage the upgrade for next reboot"@,
                choices: seq![],
            },
        ],
        required: seq!["node"@, "image"@],
    }
}

/// The tool `upgrade_k8s`.
#[verifier::opaque]
pub open spec fn upgrade_k8s_def() -> ToolDef {
    ToolDef {
        name: "upgrade_k8s"@,
        description: "Upgrade Kubernetes version on a Talos node"@,
        params: seq![
            ParamDef {
                name: "node"@,
                kind: ParamType::Text,
                description: "The IP address or hostname of the Talos node"@,
                choices: seq![],
            },
            ParamDef {
                name: "version"@,
                kind: ParamType::Text,
                description: "Kubernetes version to upgrade to"@,
                choices: seq![],
            },
        ],
        required: seq!["node"@, "version"@],
    }
}

/// The tool `apply_config`.
#[verifier::opaque]
pub open spec fn apply_config_def() -> ToolDef {
    ToolDef {
        name: "apply_config"@,
        description: "Apply Talos configuration to a node"@,
        params: seq![
            ParamDef {
                name: "node"@,
                kind: ParamType::Text,
                description: "The IP address or hostname of the Talos node"@,
                choices: seq![],
            },
            ParamDef {
                name: "file"@,
                kind: ParamType::Text,
                description: "Path to the configuration file"@,
                choices: seq![],
            },
            ParamDef {
                name: "mode"@,
                kind: ParamType::Text,
                description: "Apply mode"@,
                choices: seq!["auto"@, "no-reboot"@, "staged"@],
            },
        ],
        required: seq!["node"@, "file"@],
    }
}

/// The tool `validate_config`.
#[verifier::opaque]
pub open spec fn validate_config_def() -> ToolDef {
    ToolDef {
        name: "validate_config"@,
        description: "Validate a Talos configuration file"@,
        params: seq![
            ParamDef {
                name: "file"@,
                kind: ParamType::Text,
                description: "Path to the configuration file to validate"@,
                choices: seq![],
            },
            ParamDef {
                name: "mode"@,
                kind: ParamType::Text,
                description: "Configuration mode (cloud, metal, etc.)"@,
                choices: seq![],
            },
        ],
        required: seq!["file"@],
    }
}

/// The tool `get_etcd_status`.
#[verifier::opaque]
pub open spec fn get_etcd_status_def() -> ToolDef {
    ToolDef {
        name: "get_etcd_status"@,
        description: "Get etcd status for a Talos node"@,
        params: seq![
            ParamDef {
                name: "node"@,
                kind: ParamType::Text,
                description: "The IP address or hostname of the Talos node"@,
                choices: seq![],
            },
            ParamDef {
                name: "context"@,
                kind: ParamType::Text,
                description: "Kubernetes context to use"@,
                choices: seq![],
            },
        ],
        required: seq!["node"@],
    }
}

/// The tool `get_etcd_members`.
#[verifier::opaque]
pub open spec fn get_etcd_members_def() -> ToolDef {
    ToolDef {
        name: "get_etcd_members"@,
        description: "Get etcd members for a Talos node"@,
        params: seq![
            ParamDef {
                name: "node"@,
                kind: ParamType::Text,
                description: "The IP address or hostname of the Talos node"@,
                choices: seq![],
            },
            ParamDef {
                name: "context"@,
                kind: ParamType::Text,
                description: "Kubernetes context to use"@,
                choices: seq![],
            },
        ],
        required: seq!["node"@],
    }
}

/// The tool `bootstrap_etcd`.
#[verifier::opaque]
pub open spec fn bootstrap_etcd_def() -> ToolDef {
    ToolDef {
        name: "bootstrap_etcd"@,
        description: "Bootstrap etcd on a Talos node"@,
        params: seq![
            ParamDef {
                name: "node"@,
                kind: ParamType::Text,
                description: "The IP address or hostname of the Talos node"@,
                choices: seq![],
            },
            ParamDef {
                name: "context"@,
                kind: ParamType::Text,
                description: "Kubernetes context to use"@,
                choices: seq![],
            },
        ],
        required: seq!["node"@],
    }
}

/// The tool `defrag_etcd`.
#[verifier::opaque]
pub open spec fn defrag_etcd_def() -> ToolDef {
    ToolDef {
        name: "defrag_etcd"@,
        description: "Defragment etcd on a Talos node"@,
        params: seq![
            ParamDef {
                name: "node"@,
                kind: ParamType::Text,
                description: "The IP address or hostname of the Talos node"@,
                choices: seq![],
            },
            ParamDef {
                name: "context"@,
                kind: ParamType::Text,
                description: "Kubernetes context to use"@,
                choices: seq![],
            },
        ],
        required: seq!["node"@],
    }
}

/// Every tool, in the order in which they are listed.
pub open spec fn tool_defs() -> Seq<ToolDef> {
    seq![
        containers_def(),
        stats_def(),
        get_processes_def(),
        memory_verbose_def(),
        get_cpu_memory_usage_def(),
        list_def(),
        read_def(),
        copy_def(),
        get_usage_def(),
        get_mounts_def(),
        interfaces_def(),
        routes_def(),
        get_netstat_def(),
        capture_packets_def(),
        get_network_io_cgroups_def(),
        list_network_interfaces_def(),
        dmesg_def(),
        service_def(),
        restart_def(),
        get_logs_def(),
        get_events_def(),
        disks_def(),
        list_disks_def(),
        get_health_def(),
        get_version_def(),
        get_time_def(),
        reboot_node_def(),
        shutdown_node_def(),
        reset_node_def(),
        upgrade_node_def(),
        upgrade_k8s_def(),
        apply_config_def(),
        validate_config_def(),
        get_etcd_status_def(),
        get_etcd_members_def(),
        bootstrap_etcd_def(),
        defrag_etcd_def(),
    ]
}

/// The input schema of the tool `containers`.
pub fn containers_tool() -> (r: JsonValue)
    ensures
        r@ == schema_json(containers_def()),
{
    let params: Vec<Param> = vec![
        Param {
            name: "node",
            kind: ParamType::Text,
            description: "The IP address or hostname of the Talos node",
            choices: vec![],
        },
        Param {
            name: "kubernetes",
            kind: ParamType::Boolean,
            description: "Show Kubernetes containers (cri namespace)",
            choices: vec![],
        },
        Param {
            name: "namespace",
            kind: ParamType::Text,
            description: "Container namespace to filter by",
            choices: vec![],
        },
    ];
    let required: Vec<&str> = vec!["node"];
    reveal(containers_def);
    assert(params_view(params@) =~~= containers_def().params);
    assert(texts_view(required@) =~= containers_def().required);
    tool_schema("containers", "List containers running on a Talos node with optional Kubernetes namespace filtering", &params, &required)
}

/// The input schema of the tool `stats`.
pub fn stats_tool() -> (r: JsonValue)
    ensures
        r@ == schema_json(stats_def()),
{
    let params: Vec<Param> = vec![
        Param {
            name: "node",
            kind: ParamType::Text,
            description: "The IP address or hostname of the Talos node",
            choices: vec![],
        },
        Param {
            name: "kubernetes",
            kind: ParamType::Boolean,
            description: "Show Kubernetes container stats",
            choices: vec![],
        },
    ];
    let required: Vec<&str> = vec!["node"];
    reveal(stats_def);
    assert(params_view(params@) =~~= stats_def().params);
    assert(texts_view(required@) =~= stats_def().required);
    tool_schema("stats", "Get resource statistics for containers on a Talos node", &params, &required)
}

/// The input schema of the tool `get_processes`.
pub fn get_processes_tool() -> (r: JsonValue)
    ensures
        r@ == schema_json(get_processes_def()),
{
    let params: Vec<Param> = vec![
        Param {
            name: "node",
            kind: ParamType::Text,
            description: "The IP address or hostname of the Talos node",
            choices: vec![],
        },
        Param {
            name: "sort",
            kind: ParamType::Text,
            description: "Sort processes by: cpu, rss, pid, or time",
            choices: vec!["cpu", "rss", "pid", "time"],
        },
    ];
    let required: Vec<&str> = vec!["node"];
    reveal(get_processes_def);
    assert(params_view(params@) =~~= get_processes_def().params);
    assert(texts_view(required@) =~= get_processes_def().required);
    tool_schema("get_processes", "List running processes on a Talos node with sorting capabilities", &params, &required)
}

/// The input schema of the tool `memory_verbose`.
pub fn memory_verbose_tool() -> (r: JsonValue)
    ensures
        r@ == schema_json(memory_verbose_def()),
{
    let params: Vec<Param> = vec![
        Param {
            name: "node",
            kind: ParamType::Text,
            description: "The IP address or hostname of the Talos node",
            choices: vec![],
        },
    ];
    let required: Vec<&str> = vec!["node"];
    reveal(memory_verbose_def);
    assert(params_view(params@) =~~= memory_verbose_def().params);
    assert(texts_view(required@) =~= memory_verbose_def().required);
    tool_schema("memory_verbose", "Get detailed memory information from a Talos node", &params, &required)
}

/// The input schema of the tool `get_cpu_memory_usage`.
pub fn get_cpu_memory_usage_tool() -> (r: JsonValue)
    ensures
        r@ == schema_json(get_cpu_memory_usage_def()),
{
    let params: Vec<Param> = vec![
        Param {
            name: "node",
            kind: ParamType::Text,
            description: "The IP address or hostname of the Talos node",
            choices: vec![],
        },
    ];
    let required: Vec<&str> = vec!["node"];
    reveal(get_cpu_memory_usage_def);
    assert(params_view(params@) =~~= get_cpu_memory_usage_def().params);
    assert(texts_view(required@) =~= get_cpu_memory_usage_def().required);
    tool_schema("get_cpu_memory_usage", "Get combined CPU and memory usage statistics from a Talos node", &params, &required)
}

/// The input schema of the tool `list`.
pub fn list_tool() -> (r: JsonValue)
    ensures
        r@ == schema_json(list_def()),
{
    let params: Vec<Param> = vec![
        Param {
            name: "node",
            kind: ParamType::Text,
            description: "The IP address or hostname of the Talos node",
            choices: vec![],
        },
        Param {
            name: "path",
            kind: ParamType::Text,
            description: "Directory path to list (default: /)",
            choices: vec![],
        },
        Param {
            name: "long",
            kind: ParamType::Boolean,
            description: "Show detailed file information",
            choices: vec![],
        },
        Param {
            name: "humanize",
            kind: ParamType::Boolean,
            description: "Show file sizes in human-readable format",
            choices: vec![],
        },
        Param {
            name: "recurse",
            kind: ParamType::Boolean,
            description: "Recursively list subdirectories",
            choices: vec![],
        },
        Param {
            name: "depth",
            kind: ParamType::Integer,
            description: "Maximum recursion depth",
            choices: vec![],
        },
        Param {
            name: "r#type",
            kind: ParamType::TextList,
            description: "Filter by file type: f (file), d (directory), l (symlink)",
            choices: vec!["f", "d", "l"],
        },
    ];
    let required: Vec<&str> = vec!["node"];
    reveal(list_def);
    assert(params_view(params@) =~~= list_def().params);
    assert(texts_view(required@) =~= list_def().required);
    tool_schema("list", "List files and directories on a Talos node with advanced filtering options", &params, &required)
}

/// The input schema of the tool `read`.
pub fn read_tool() -> (r: JsonValue)
    ensures
        r@ == schema_json(read_def()),
{
    let params: Vec<Param> = vec![
        Param {
            name: "node",
            kind: ParamType::Text,
            description: "The IP address or hostname of the Talos node",
            choices: vec![],
        },
        Param {
            name: "path",
            kind: ParamType::Text,
            description: "Path to the file to read",
            choices: vec![],
        },
    ];
    let required: Vec<&str> = vec!["node", "path"];
    reveal(read_def);
    assert(params_view(params@) =~~= read_def().params);
    assert(texts_view(required@) =~= read_def().required);
    tool_schema("read", "Read file content from a Talos node", &params, &required)
}

/// The input schema of the tool `copy`.
pub fn copy_tool() -> (r: JsonValue)
    ensures
        r@ == schema_json(copy_def()),
{
    let params: Vec<Param> = vec![
        Param {
            name: "node",
            kind: ParamType::Text,
            description: "The IP address or hostname of the Talos node",
            choices: vec![],
        },
        Param {
            name: "source",
            kind: ParamType::Text,
            description: "Source path on the Talos node",
            choices: vec![],
        },
        Param {
            name: "destination",
            kind: ParamType::Text,
            description: "Destination path on local system",
            choices: vec![],
        },
    ];
    let required: Vec<&str> = vec!["node", "source", "destination"];
    reveal(copy_def);
    assert(params_view(params@) =~~= copy_def().params);
    assert(texts_view(required@) =~= copy_def().required);
    tool_schema("copy", "Copy files from a Talos node to local system", &params, &required)
}

/// The input schema of the tool `get_usage`.
pub fn get_usage_tool() -> (r: JsonValue)
    ensures
        r@ == schema_json(get_usage_def()),
{
    let params: Vec<Param> = vec![
        Param {
            name: "node",
            kind: ParamType::Text,
            description: "The IP address or hostname of the Talos node",
            choices: vec![],
        },
        Param {
            name: "path",
            kind: ParamType::Text,
            description: "Path to check disk usage for",
            choices: vec![],
        },
    ];
    let required: Vec<&str> = vec!["node"];
    reveal(get_usage_def);
    assert(params_view(params@) =~~= get_usage_def().params);
    assert(texts_view(required@) =~= get_usage_def().required);
    tool_schema("get_usage", "Get disk usage information for a path on a Talos node", &params, &required)
}

/// The input schema of the tool `get_mounts`.
pub fn get_mounts_tool() -> (r: JsonValue)
    ensures
        r@ == schema_json(get_mounts_def()),
{
    let params: Vec<Param> = vec![
        Param {
            name: "node",
            kind: ParamType::Text,
            description: "The IP address or hostname of the Talos node",
            choices: vec![],
        },
    ];
    let required: Vec<&str> = vec!["node"];
    reveal(get_mounts_def);
    assert(params_view(params@) =~~= get_mounts_def().params);
    assert(texts_view(required@) =~= get_mounts_def().required);
    tool_schema("get_mounts", "Get filesystem mount details from a Talos node", &params, &required)
}

/// The input schema of the tool `interfaces`.
pub fn interfaces_tool() -> (r: JsonValue)
    ensures
        r@ == schema_json(interfaces_def()),
{
    let params: Vec<Param> = vec![
        Param {
            name: "node",
            kind: ParamType::Text,
            description: "The IP address or hostname of the Talos node",
            choices: vec![],
        },
        Param {
            name: "namespace",
            kind: ParamType::Text,
            description: "Network namespace to query",
            choices: vec![],
        },
        Param {
            name: "output",
            kind: ParamType::Text,
            description: "Output format (table, json, or yaml)",
            choices: vec!["table", "json", "yaml"],
        },
    ];
    let required: Vec<&str> = vec!["node"];
    reveal(interfaces_def);
    assert(params_view(params@) =~~= interfaces_def().params);
    assert(texts_view(required@) =~= interfaces_def().required);
    tool_schema("interfaces", "Get detailed network interface information with multiple output formats", &params, &required)
}

/// The input schema of the tool `routes`.
pub fn routes_tool() -> (r: JsonValue)
    ensures
        r@ == schema_json(routes_def()),
{
    let params: Vec<Param> = vec![
        Param {
            name: "node",
            kind: ParamType::Text,
            description: "The IP address or hostname of the Talos node",
            choices: vec![],
        },
        Param {
            name: "namespace",
            kind: ParamType::Text,
            description: "Network namespace to query",
            choices: vec![],
        },
        Param {
            name: "output",
            kind: ParamType::Text,
            description: "Output format (table, json, or yaml)",
            choices: vec!["table", "json", "yaml"],
        },
    ];
    let required: Vec<&str> = vec!["node"];
    reveal(routes_def);
    assert(params_view(params@) =~~= routes_def().params);
    assert(texts_view(required@) =~= routes_def().required);
    tool_schema("routes", "Get the routing table from a Talos node with advanced filtering", &params, &required)
}

/// The input schema of the tool `get_netstat`.
pub fn get_netstat_tool() -> (r: JsonValue)
    ensures
        r@ == schema_json(get_netstat_def()),
{
    let params: Vec<Param> = vec![
        Param {
            name: "node",
            kind: ParamType::Text,
            description: "The IP address or hostname of the Talos node",
            choices: vec![],
        },
    ];
    let required: Vec<&str> = vec!["node"];
    reveal(get_netstat_def);
    assert(params_view(params@) =~~= get_netstat_def().params);
    assert(texts_view(required@) =~= get_netstat_def().required);
    tool_schema("get_netstat", "Get network connection statistics from a Talos node", &params, &required)
}

/// The input schema of the tool `capture_packets`.
pub fn capture_packets_tool() -> (r: JsonValue)
    ensures
        r@ == schema_json(capture_packets_def()),
{
    let params: Vec<Param> = vec![
        Param {
            name: "node",
            kind: ParamType::Text,
            description: "The IP address or hostname of the Talos node",
            choices: vec![],
        },
        Param {
            name: "interface",
            kind: ParamType::Text,
            description: "Network interface to capture on",
            choices: vec![],
        },
        Param {
            name: "duration",
            kind: ParamType::Integer,
            description: "Duration of capture in seconds",
            choices: vec![],
        },
    ];
    let required: Vec<&str> = vec!["node", "interface"];
    reveal(capture_packets_def);
    assert(params_view(params@) =~~= capture_packets_def().params);
    assert(texts_view(required@) =~= capture_packets_def().required);
    tool_schema("capture_packets", "Capture network packets on a Talos node interface", &params, &required)
}

/// The input schema of the tool `get_network_io_cgroups`.
pub fn get_network_io_cgroups_tool() -> (r: JsonValue)
    ensures
        r@ == schema_json(get_network_io_cgroups_def()),
{
    let params: Vec<Param> = vec![
        Param {
            name: "node",
            kind: ParamType::Text,
            description: "The IP address or hostname of the Talos node",
            choices: vec![],
        },
    ];
    let required: Vec<&str> = vec!["node"];
    reveal(get_network_io_cgroups_def);
    assert(params_view(params@) =~~= get_network_io_cgroups_def().params);
    assert(texts_view(required@) =~= get_network_io_cgroups_def().required);
    tool_schema("get_network_io_cgroups", "Get network I/O statistics from cgroups on a Talos node", &params, &required)
}

/// The input schema of the tool `list_network_interfaces`.
pub fn list_network_interfaces_tool() -> (r: JsonValue)
    ensures
        r@ == schema_json(list_network_interfaces_def()),
{
    let params: Vec<Param> = vec![
        Param {
            name: "node",
            kind: ParamType::Text,
            description: "The IP address or hostname of the Talos node",
            choices: vec![],
        },
    ];
    let required: Vec<&str> = vec!["node"];
    reveal(list_network_interfaces_def);
    assert(params_view(params@) =~~= list_network_interfaces_def().params);
    assert(texts_view(required@) =~= list_network_interfaces_def().required);
    tool_schema("list_network_interfaces", "Legacy network interface listing for a Talos node", &params, &required)
}

/// The input schema of the tool `dmesg`.
pub fn dmesg_tool() -> (r: JsonValue)
    ensures
        r@ == schema_json(dmesg_def()),
{
    let params: Vec<Param> = vec![
        Param {
            name: "node",
            kind: ParamType::Text,
            description: "The IP address or hostname of the Talos node",
            choices: vec![],
        },
        Param {
            name: "tail",
            kind: ParamType::Boolean,
            description: "Show only recent messages",
            choices: vec![],
        },
    ];
    let required: Vec<&str> = vec!["node"];
    reveal(dmesg_def);
    assert(params_view(params@) =~~= dmesg_def().params);
    assert(texts_view(required@) =~= dmesg_def().required);
    tool_schema("dmesg", "Get kernel messages from a Talos node", &params, &required)
}

/// The input schema of the tool `service`.
pub fn service_tool() -> (r: JsonValue)
    ensures
        r@ == schema_json(service_def()),
{
    let params: Vec<Param> = vec![
        Param {
            name: "node",
            kind: ParamType::Text,
            description: "The IP address or hostname of the Talos node",
            choices: vec![],
        },
        Param {
            name: "service",
            kind: ParamType::Text,
            description: "Name of the service",
            choices: vec![],
        },
        Param {
            name: "action",
            kind: ParamType::Text,
            description: "Action to perform on the service",
            choices: vec!["start", "stop", "restart", "status"],
        },
    ];
    let required: Vec<&str> = vec!["node", "service", "action"];
    reveal(service_def);
    assert(params_view(params@) =~~= service_def().params);
    assert(texts_view(required@) =~= service_def().required);
    tool_schema("service", "Manage system services on a Talos node (start, stop, restart, status)", &params, &required)
}

/// The input schema of the tool `restart`.
pub fn restart_tool() -> (r: JsonValue)
    ensures
        r@ == schema_json(restart_def()),
{
    let params: Vec<Param> = vec![
        Param {
            name: "node",
            kind: ParamType::Text,
            description: "The IP address or hostname of the Talos node",
            choices: vec![],
        },
        Param {
            name: "service",
            kind: ParamType::Text,
            description: "Name of the service to restart",
            choices: vec![],
        },
    ];
    let required: Vec<&str> = vec!["node", "service"];
    reveal(restart_def);
    assert(params_view(params@) =~~= restart_def().params);
    assert(texts_view(required@) =~= restart_def().required);
    tool_schema("restart", "Restart a service on a Talos node", &params, &required)
}

/// The input schema of the tool `get_logs`.
pub fn get_logs_tool() -> (r: JsonValue)
    ensures
        r@ == schema_json(get_logs_def()),
{
    let params: Vec<Param> = vec![
        Param {
            name: "node",
            kind: ParamType::Text,
            description: "The IP address or hostname of the Talos node",
            choices: vec![],
        },
        Param {
            name: "service",
            kind: ParamType::Text,
            description: "Service name (e.g., 'kubelet', 'containerd') or 'k8s' for Kubernetes logs",
            choices: vec![],
        },
        Param {
            name: "tail",
            kind: ParamType::Integer,
            description: "Number of lines to show from the end of the logs (default: all lines)",
            choices: vec![],
        },
        Param {
            name: "kubernetes",
            kind: ParamType::Boolean,
            description: "Show Kubernetes logs (shortcut for service='k8s')",
            choices: vec![],
        },
        Param {
            name: "namespace",
            kind: ParamType::Text,
            description: "Kubernetes namespace (for Kubernetes logs)",
            choices: vec![],
        },
    ];
    let required: Vec<&str> = vec!["node", "service"];
    reveal(get_logs_def);
    assert(params_view(params@) =~~= get_logs_def().params);
    assert(texts_view(required@) =~= get_logs_def().required);
    tool_schema("get_logs", "Get logs from a Talos node or service", &params, &required)
}

/// The input schema of the tool `get_events`.
pub fn get_events_tool() -> (r: JsonValue)
    ensures
        r@ == schema_json(get_events_def()),
{
    let params: Vec<Param> = vec![
        Param {
            name: "node",
            kind: ParamType::Text,
            description: "The IP address or hostname of the Talos node",
            choices: vec![],
        },
        Param {
            name: "tail",
            kind: ParamType::Integer,
            description: "Number of events to show",
            choices: vec![],
        },
    ];
    let required: Vec<&str> = vec!["node"];
    reveal(get_events_def);
    assert(params_view(params@) =~~= get_events_def().params);
    assert(texts_view(required@) =~= get_events_def().required);
    tool_schema("get_events", "Get system events from a Talos node", &params, &required)
}

/// The input schema of the tool `disks`.
pub fn disks_tool() -> (r: JsonValue)
    ensures
        r@ == schema_json(disks_def()),
{
    let params: Vec<Param> = vec![
        Param {
            name: "node",
            kind: ParamType::Text,
            description: "The IP address or hostname of the Talos node",
            choices: vec![],
        },
        Param {
            name: "namespace",
            kind: ParamType::Text,
            description: "Namespace to query",
            choices: vec![],
        },
        Param {
            name: "output",
            kind: ParamType::Text,
            description: "Output format (table, json, or yaml)",
            choices: vec!["table", "json", "yaml"],
        },
    ];
    let required: Vec<&str> = vec!["node"];
    reveal(disks_def);
    assert(params_view(params@) =~~= disks_def().params);
    assert(texts_view(required@) =~= disks_def().required);
    tool_schema("disks", "Get detailed disk information with multiple output formats", &params, &required)
}

/// The input schema of the tool `list_disks`.
pub fn list_disks_tool() -> (r: JsonValue)
    ensures
        r@ == schema_json(list_disks_def()),
{
    let params: Vec<Param> = vec![
        Param {
            name: "node",
            kind: ParamType::Text,
            description: "The IP address or hostname of the Talos node",
            choices: vec![],
        },
    ];
    let required: Vec<&str> = vec!["node"];
    reveal(list_disks_def);
    assert(params_view(params@) =~~= list_disks_def().params);
    assert(texts_view(required@) =~= list_disks_def().required);
    tool_schema("list_disks", "List disks on a Talos node", &params, &required)
}

/// The input schema of the tool `get_health`.
pub fn get_health_tool() -> (r: JsonValue)
    ensures
        r@ == schema_json(get_health_def()),
{
    let params: Vec<Param> = vec![
        Param {
            name: "node",
            kind: ParamType::Text,
            description: "The IP address or hostname of a Talos node (optional, queries cluster if not provided)",
            choices: vec![],
        },
    ];
    let required: Vec<&str> = vec![];
    reveal(get_health_def);
    assert(params_view(params@) =~~= get_health_def().params);
    assert(texts_view(required@) =~= get_health_def().required);
    tool_schema("get_health", "Get comprehensive cluster health status with topology support", &params, &required)
}

/// The input schema of the tool `get_version`.
pub fn get_version_tool() -> (r: JsonValue)
    ensures
        r@ == schema_json(get_version_def()),
{
    let params: Vec<Param> = vec![
        Param {
            name: "node",
            kind: ParamType::Text,
            description: "The IP address or hostname of the Talos node",
            choices: vec![],
        },
        Param {
            name: "short",
            kind: ParamType::Boolean,
            description: "Show compact version format",
            choices: vec![],
        },
    ];
    let required: Vec<&str> = vec!["node"];
    reveal(get_version_def);
    assert(params_view(params@) =~~= get_version_def().params);
    assert(texts_view(required@) =~= get_version_def().required);
    tool_schema("get_version", "Get Talos version information from a node", &params, &required)
}

/// The input schema of the tool `get_time`.
pub fn get_time_tool() -> (r: JsonValue)
    ensures
        r@ == schema_json(get_time_def()),
{
    let params: Vec<Param> = vec![
        Param {
            name: "node",
            kind: ParamType::Text,
            description: "The IP address or hostname of the Talos node (required)",
            choices: vec![],
        },
        Param {
            name: "check",
            kind: ParamType::Text,
            description: "NTP server to check synchronization against (e.g., 'pool.ntp.org')",
            choices: vec![],
        },
    ];
    let required: Vec<&str> = vec!["node"];
    reveal(get_time_def);
    assert(params_view(params@) =~~= get_time_def().params);
    assert(texts_view(required@) =~= get_time_def().required);
    tool_schema("get_time", "Get time information and NTP synchronization status from a Talos node", &params, &required)
}

/// The input schema of the tool `reboot_node`.
pub fn reboot_node_tool() -> (r: JsonValue)
    ensures
        r@ == schema_json(reboot_node_def()),
{
    let params: Vec<Param> = vec![
        Param {
            name: "node",
            kind: ParamType::Text,
            description: "The IP address or hostname of the Talos node",
            choices: vec![],
        },
        Param {
            name: "mode",
            kind: ParamType::Text,
            description: "Reboot mode",
            choices: vec!["default", "powercycle"],
        },
    ];
    let required: Vec<&str> = vec!["node"];
    reveal(reboot_node_def);
    assert(params_view(params@) =~~= reboot_node_def().params);
    assert(texts_view(required@) =~= reboot_node_def().required);
    tool_schema("reboot_node", "Safely reboot a Talos node", &params, &required)
}

/// The input schema of the tool `shutdown_node`.
pub fn shutdown_node_tool() -> (r: JsonValue)
    ensures
        r@ == schema_json(shutdown_node_def()),
{
    let params: Vec<Param> = vec![
        Param {
            name: "node",
            kind: ParamType::Text,
            description: "The IP address or hostname of the Talos node",
            choices: vec![],
        },
        Param {
            name: "force",
            kind: ParamType::Boolean,
            description: "Force shutdown without confirmation",
            choices: vec![],
        },
    ];
    let required: Vec<&str> = vec!["node"];
    reveal(shutdown_node_def);
    assert(params_view(params@) =~~= shutdown_node_def().params);
    assert(texts_view(required@) =~= shutdown_node_def().required);
    tool_schema("shutdown_node", "Gracefully shutdown a Talos node", &params, &required)
}

/// The input schema of the tool `reset_node`.
pub fn reset_node_tool() -> (r: JsonValue)
    ensures
        r@ == schema_json(reset_node_def()),
{
    let params: Vec<Param> = vec![
        Param {
            name: "node",
            kind: ParamType::Text,
            description: "The IP address or hostname of the Talos node",
            choices: vec![],
        },
        Param {
            name: "graceful",
            kind: ParamType::Boolean,
            description: "Perform graceful reset",
            choices: vec![],
        },
        Param {
            name: "reboot",
            kind: ParamType::Boolean,
            description: "Reboot after reset",
            choices: vec![],
        },
    ];
    let required: Vec<&str> = vec!["node"];
    reveal(reset_node_def);
    assert(params_view(params@) =~~= reset_node_def().params);
    assert(texts_view(required@) =~= reset_node_def().required);
    tool_schema("reset_node", "Perform a factory reset on a Talos node (DANGEROUS)", &params, &required)
}

/// The input schema of the tool `upgrade_node`.
pub fn upgrade_node_tool() -> (r: JsonValue)
    ensures
        r@ == schema_json(upgrade_node_def()),
{
    let params: Vec<Param> = vec![
        Param {
            name: "node",
            kind: ParamType::Text,
            description: "The IP address or hostname of the Talos node",
            choices: vec![],
        },
        Param {
            name: "image",
            kind: ParamType::Text,
            description: "New Talos image to upgrade to",
            choices: vec![],
        },
        Param {
            name: "preserve",
            kind: ParamType::Boolean,
            description: "Preserve data during upgrade",
            choices: vec![],
        },
        Param {
            name: "stage",
            kind: ParamType::Boolean,
            description: "Stage the upgrade for next reboot",
            choices: vec![],
        },
    ];
    let required: Vec<&str> = vec!["node", "image"];
    reveal(upgrade_node_def);
    assert(params_view(params@) =~~= upgrade_node_def().params);
    assert(texts_view(required@) =~= upgrade_node_def().required);
    tool_schema("upgrade_node", "Upgrade Talos OS on a node to a new image", &params, &required)
}

/// The input schema of the tool `upgrade_k8s`.
pub fn upgrade_k8s_tool() -> (r: JsonValue)
    ensures
        r@ == schema_json(upgrade_k8s_def()),
{
    let params: Vec<Param> = vec![
        Param {
            name: "node",
            kind: ParamType::Text,
            description: "The IP address or hostname of the Talos node",
            choices: vec![],
        },
        Param {
            name: "version",
            kind: ParamType::Text,
            description: "Kubernetes version to upgrade to",
            choices: vec![],
        },
    ];
    let required: Vec<&str> = vec!["node", "version"];
    reveal(upgrade_k8s_def);
    assert(params_view(params@) =~~= upgrade_k8s_def().params);
    assert(texts_view(required@) =~= upgrade_k8s_def().required);
    tool_schema("upgrade_k8s", "Upgrade Kubernetes version on a Talos node", &params, &required)
}

/// The input schema of the tool `apply_config`.
pub fn apply_config_tool() -> (r: JsonValue)
    ensures
        r@ == schema_json(apply_config_def()),
{
    let params: Vec<Param> = vec![
        Param {
            name: "node",
            kind: ParamType::Text,
            description: "The IP address or hostname of the Talos node",
            choices: vec![],
        },
        Param {
            name: "file",
            kind: ParamType::Text,
            description: "Path to the configuration file",
            choices: vec![],
        },
        Param {
            name: "mode",
            kind: ParamType::Text,
            description: "Apply mode",
            choices: vec!["auto", "no-reboot", "staged"],
        },
    ];
    let required: Vec<&str> = vec!["node", "file"];
    reveal(apply_config_def);
    assert(params_view(params@) =~~= apply_config_def().params);
    assert(texts_view(required@) =~= apply_config_def().required);
    tool_schema("apply_config", "Apply Talos configuration to a node", &params, &required)
}

/// The input schema of the tool `validate_config`.
pub fn validate_config_tool() -> (r: JsonValue)
    ensures
        r@ == schema_json(validate_config_def()),
{
    let params: Vec<Param> = vec![
        Param {
            name: "file",
            kind: ParamType::Text,
            description: "Path to the configuration file to validate",
            choices: vec![],
        },
        Param {
            name: "mode",
            kind: ParamType::Text,
            description: "Configuration mode (cloud, metal, etc.)",
            choices: vec![],
        },
    ];
    let required: Vec<&str> = vec!["file"];
    reveal(validate_config_def);
    assert(params_view(params@) =~~= validate_config_def().params);
    assert(texts_view(required@) =~= validate_config_def().required);
    tool_schema("validate_config", "Validate a Talos configuration file", &params, &required)
}

/// The input schema of the tool `get_etcd_status`.
pub fn get_etcd_status_tool() -> (r: JsonValue)
    ensures
        r@ == schema_json(get_etcd_status_def()),
{
    let params: Vec<Param> = vec![
        Param {
            name: "node",
            kind: ParamType::Text,
            description: "The IP address or hostname of the Talos node",
            choices: vec![],
        },
        Param {
            name: "context",
            kind: ParamType::Text,
            description: "Kubernetes context to use",
            choices: vec![],
        },
    ];
    let required: Vec<&str> = vec!["node"];
    reveal(get_etcd_status_def);
    assert(params_view(params@) =~~= get_etcd_status_def().params);
    assert(texts_view(required@) =~= get_etcd_status_def().required);
    tool_schema("get_etcd_status", "Get etcd status for a Talos node", &params, &required)
}

/// The input schema of the tool `get_etcd_members`.
pub fn get_etcd_members_tool() -> (r: JsonValue)
    ensures
        r@ == schema_json(get_etcd_members_def()),
{
    let params: Vec<Param> = vec![
        Param {
            name: "node",
            kind: ParamType::Text,
            description: "The IP address or hostname of the Talos node",
            choices: vec![],
        },
        Param {
            name: "context",
            kind: ParamType::Text,
            description: "Kubernetes context to use",
            choices: vec![],
        },
    ];
    let required: Vec<&str> = vec!["node"];
    reveal(get_etcd_members_def);
    assert(params_view(params@) =~~= get_etcd_members_def().params);
    assert(texts_view(required@) =~= get_etcd_members_def().required);
    tool_schema("get_etcd_members", "Get etcd members for a Talos node", &params, &required)
}

/// The input schema of the tool `bootstrap_etcd`.
pub fn bootstrap_etcd_tool() -> (r: JsonValue)
    ensures
        r@ == schema_json(bootstrap_etcd_def()),
{
    let params: Vec<Param> = vec![
        Param {
            name: "node",
            kind: ParamType::Text,
            description: "The IP address or hostname of the Talos node",
            choices: vec![],
        },
        Param {
            name: "context",
            kind: ParamType::Text,
            description: "Kubernetes context to use",
            choices: vec![],
        },
    ];
    let required: Vec<&str> = vec!["node"];
    reveal(bootstrap_etcd_def);
    assert(params_view(params@) =~~= bootstrap_etcd_def().params);
    assert(texts_view(required@) =~= bootstrap_etcd_def().required);
    tool_schema("bootstrap_etcd", "Bootstrap etcd on a Talos node", &params, &required)
}

/// The input schema of the tool `defrag_etcd`.
pub fn defrag_etcd_tool() -> (r: JsonValue)
    ensures
        r@ == schema_json(defrag_etcd_def()),
{
    let params: Vec<Param> = vec![
        Param {
            name: "node",
            kind: ParamType::Text,
            description: "The IP address or hostname of the Talos node",
            choices: vec![],
        },
        Param {
            name: "context",
            kind: ParamType::Text,
            description: "Kubernetes context to use",
            choices: vec![],
        },
    ];
    let required: Vec<&str> = vec!["node"];
    reveal(defrag_etcd_def);
    assert(params_view(params@) =~~= defrag_etcd_def().params);
    assert(texts_view(required@) =~= defrag_etcd_def().required);
    tool_schema("defrag_etcd", "Defragment etcd on a Talos node", &params, &required)
}

/// The input schemas of every tool, in the order of `tool_defs`.
pub fn get_all_tool_schemas() -> (r: Vec<JsonValue>)
    ensures
        json_seq(r@) == tool_defs().map_values(|t: ToolDef| schema_json(t)),
{
    let r: Vec<JsonValue> = vec![
        containers_tool(),
        stats_tool(),
        get_processes_tool(),
        memory_verbose_tool(),
        get_cpu_memory_usage_tool(),
        list_tool(),
        read_tool(),
        copy_tool(),
        get_usage_tool(),
        get_mounts_tool(),
        interfaces_tool(),
        routes_tool(),
        get_netstat_tool(),
        capture_packets_tool(),
        get_network_io_cgroups_tool(),
        list_network_interfaces_tool(),
        dmesg_tool(),
        service_tool(),
        restart_tool(),
        get_logs_tool(),
        get_events_tool(),
        disks_tool(),
        list_disks_tool(),
        get_health_tool(),
        get_version_tool(),
        get_time_tool(),
        reboot_node_tool(),
        shutdown_node_tool(),
        reset_node_tool(),
        upgrade_node_tool(),
        upgrade_k8s_tool(),
        apply_config_tool(),
        validate_config_tool(),
        get_etcd_status_tool(),
        get_etcd_members_tool(),
        bootstrap_etcd_tool(),
        defrag_etcd_tool(),
    ];
    proof {
        lemma_json_seq(r@);
        assert(json_seq(r@) =~= tool_defs().map_values(|t: ToolDef| schema_json(t)));
    }
    r
}

} // verus!
