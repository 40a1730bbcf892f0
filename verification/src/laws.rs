//! Properties of the server as a whole, proved over the contracts of its
//! functions.

use vstd::prelude::*;

use crate::args::{arg_flag, arg_int, arg_str, missing_param};
use crate::text::{digit_char, int_decimal, nat_decimal};
use crate::handlers::{
    get_cpu_memory_usage_commands, is_service_action, type_args, type_flags, single, tool_commands, tool_names,
    containers_command, stats_command, get_processes_command, memory_verbose_command, list_command, read_command, copy_command, get_usage_command, get_mounts_command, interfaces_command, routes_command, get_netstat_command, capture_packets_command, get_network_io_cgroups_command, list_network_interfaces_command, dmesg_command, service_command, restart_command, get_logs_command, get_events_command, disks_command, list_disks_command, get_health_command, get_version_command, get_time_command, reboot_node_command, shutdown_node_command, reset_node_command, upgrade_node_command, upgrade_k8s_command, apply_config_command, validate_config_command, get_etcd_status_command, get_etcd_members_command, bootstrap_etcd_command, defrag_etcd_command
};
use crate::json::{has_key, json_get, json_lookup, Json, JsonNumber};
use crate::mcp::{success_reply, well_formed_reply, RpcRequest, PARSE_ERROR};
use crate::server::{
    incoming_next, request_next, resume_next, tool_output, tool_reply_json, CallState, Next,
};
use crate::tools::{
    json_texts, properties_json, schema_json, tool_defs, ToolDef,
    containers_def, stats_def, get_processes_def, memory_verbose_def, get_cpu_memory_usage_def, list_def, read_def, copy_def, get_usage_def, get_mounts_def, interfaces_def, routes_def, get_netstat_def, capture_packets_def, get_network_io_cgroups_def, list_network_interfaces_def, dmesg_def, service_def, restart_def, get_logs_def, get_events_def, disks_def, list_disks_def, get_health_def, get_version_def, get_time_def, reboot_node_def, shutdown_node_def, reset_node_def, upgrade_node_def, upgrade_k8s_def, apply_config_def, validate_config_def, get_etcd_status_def, get_etcd_members_def, bootstrap_etcd_def, defrag_etcd_def,
};

verus! {

/// The first parameter of `required` that `args` does not give as a string.
pub open spec fn first_missing(required: Seq<Seq<char>>, args: Json) -> Option<Seq<char>>
    decreases required.len(),
{
    if required.len() == 0 {
        None
    } else if arg_str(args, required[0]) is None {
        Some(required[0])
    } else {
        first_missing(required.drop_first(), args)
    }
}

/// A call of the tool `t` fails, before anything runs, with the first
/// required parameter of its schema that is missing; with all of them
/// there, it runs, except that `service` refuses an action it does not know.
pub open spec fn required_respected(t: ToolDef, args: Json) -> bool {
    match first_missing(t.required, args) {
        Some(k) => tool_commands(t.name, args) == Some(Err::<Seq<Seq<Seq<char>>>, Seq<char>>(missing_param(k))),
        None => match tool_commands(t.name, args) {
            Some(Ok(_)) => true,
            Some(Err(_)) => t.name == "service"@ && !is_service_action(arg_str(args, "action"@).unwrap()),
            None => false,
        },
    }
}

/// Every command line in `cmds` starts with `--nodes <node>`.
pub open spec fn targets_node(cmds: Seq<Seq<Seq<char>>>, node: Seq<char>) -> bool {
    forall|k: int|
        0 <= k < cmds.len() ==> #[trigger] cmds[k].len() >= 2 && cmds[k][0] == "--nodes"@
            && cmds[k][1] == node
}

/// A tool whose first required parameter is `node` (all but `copy`, which
/// names the node in a path) runs each of its commands against that node.
pub open spec fn node_respected(t: ToolDef, args: Json) -> bool {
    (t.required.len() > 0 && t.required[0] == "node"@ && t.name != "copy"@) ==> match tool_commands(
        t.name,
        args,
    ) {
        Some(Ok(cmds)) => targets_node(cmds, arg_str(args, "node"@).unwrap()),
        _ => true,
    }
}

proof fn lemma_lookup_containers(args: Json)
    ensures
        tool_commands("containers"@, args) === Some(single(containers_command(args))),
{
    reveal(tool_commands);
    reveal_strlit("containers");
    assert("containers"@.len() == 10);
}

proof fn lemma_tool_containers(args: Json)
    ensures
        required_respected(containers_def(), args),
        node_respected(containers_def(), args),
{
    reveal(containers_def);
    lemma_lookup_containers(args);
    reveal_with_fuel(first_missing, 4);
}

proof fn lemma_lookup_stats(args: Json)
    ensures
        tool_commands("stats"@, args) === Some(single(stats_command(args))),
{
    reveal(tool_commands);
    reveal_strlit("containers");
    reveal_strlit("stats");
    assert("containers"@.len() == 10);
    assert("stats"@.len() == 5);
}

proof fn lemma_tool_stats(args: Json)
    ensures
        required_respected(stats_def(), args),
        node_respected(stats_def(), args),
{
    reveal(stats_def);
    lemma_lookup_stats(args);
    reveal_with_fuel(first_missing, 4);
}

proof fn lemma_lookup_get_processes(args: Json)
    ensures
        tool_commands("get_processes"@, args) === Some(single(get_processes_command(args))),
{
    reveal(tool_commands);
    reveal_strlit("containers");
    reveal_strlit("stats");
    reveal_strlit("get_processes");
    assert("containers"@.len() == 10);
    assert("stats"@.len() == 5);
    assert("get_processes"@.len() == 13);
}

proof fn lemma_tool_get_processes(args: Json)
    ensures
        required_respected(get_processes_def(), args),
        node_respected(get_processes_def(), args),
{
    reveal(get_processes_def);
    lemma_lookup_get_processes(args);
    reveal_with_fuel(first_missing, 4);
}

proof fn lemma_lookup_memory_verbose(args: Json)
    ensures
        tool_commands("memory_verbose"@, args) === Some(single(memory_verbose_command(args))),
{
    reveal(tool_commands);
    reveal_strlit("containers");
    reveal_strlit("stats");
    reveal_strlit("get_processes");
    reveal_strlit("memory_verbose");
    assert("containers"@.len() == 10);
    assert("stats"@.len() == 5);
    assert("get_processes"@.len() == 13);
    assert("memory_verbose"@.len() == 14);
}

proof fn lemma_tool_memory_verbose(args: Json)
    ensures
        required_respected(memory_verbose_def(), args),
        node_respected(memory_verbose_def(), args),
{
    reveal(memory_verbose_def);
    lemma_lookup_memory_verbose(args);
    reveal_with_fuel(first_missing, 4);
}

proof fn lemma_lookup_get_cpu_memory_usage(args: Json)
    ensures
        tool_commands("get_cpu_memory_usage"@, args) === Some(get_cpu_memory_usage_commands(args)),
{
    reveal(tool_commands);
    reveal_strlit("containers");
    reveal_strlit("stats");
    reveal_strlit("get_processes");
    reveal_strlit("memory_verbose");
    reveal_strlit("get_cpu_memory_usage");
    assert("containers"@.len() == 10);
    assert("stats"@.len() == 5);
    assert("get_processes"@.len() == 13);
    assert("memory_verbose"@.len() == 14);
    assert("get_cpu_memory_usage"@.len() == 20);
}

proof fn lemma_tool_get_cpu_memory_usage(args: Json)
    ensures
        required_respected(get_cpu_memory_usage_def(), args),
        node_respected(get_cpu_memory_usage_def(), args),
{
    reveal(get_cpu_memory_usage_def);
    lemma_lookup_get_cpu_memory_usage(args);
    reveal_with_fuel(first_missing, 4);
}

proof fn lemma_lookup_list(args: Json)
    ensures
        tool_commands("list"@, args) === Some(single(list_command(args))),
{
    reveal(tool_commands);
    reveal_strlit("containers");
    reveal_strlit("stats");
    reveal_strlit("get_processes");
    reveal_strlit("memory_verbose");
    reveal_strlit("get_cpu_memory_usage");
    reveal_strlit("list");
    assert("containers"@.len() == 10);
    assert("stats"@.len() == 5);
    assert("get_processes"@.len() == 13);
    assert("memory_verbose"@.len() == 14);
    assert("get_cpu_memory_usage"@.len() == 20);
    assert("list"@.len() == 4);
}

proof fn lemma_tool_list(args: Json)
    ensures
        required_respected(list_def(), args),
        node_respected(list_def(), args),
{
    reveal(list_def);
    lemma_lookup_list(args);
    reveal_with_fuel(first_missing, 4);
}

proof fn lemma_lookup_read(args: Json)
    ensures
        tool_commands("read"@, args) === Some(single(read_command(args))),
{
    reveal(tool_commands);
    reveal_strlit("containers");
    reveal_strlit("stats");
    reveal_strlit("get_processes");
    reveal_strlit("memory_verbose");
    reveal_strlit("get_cpu_memory_usage");
    reveal_strlit("list");
    reveal_strlit("read");
    assert("containers"@.len() == 10);
    assert("stats"@.len() == 5);
    assert("get_processes"@.len() == 13);
    assert("memory_verbose"@.len() == 14);
    assert("get_cpu_memory_usage"@.len() == 20);
    assert("list"@.len() == 4);
    assert("read"@.len() == 4);
    assert("read"@[0] != "list"@[0]);
}

proof fn lemma_tool_read(args: Json)
    ensures
        required_respected(read_def(), args),
        node_respected(read_def(), args),
{
    reveal(read_def);
    lemma_lookup_read(args);
    reveal_with_fuel(first_missing, 4);
    assert(read_def().required.drop_first() =~= seq!["path"@]);
}

proof fn lemma_lookup_copy(args: Json)
    ensures
        tool_commands("copy"@, args) === Some(single(copy_command(args))),
{
    reveal(tool_commands);
    reveal_strlit("containers");
    reveal_strlit("stats");
    reveal_strlit("get_processes");
    reveal_strlit("memory_verbose");
    reveal_strlit("get_cpu_memory_usage");
    reveal_strlit("list");
    reveal_strlit("read");
    reveal_strlit("copy");
    assert("containers"@.len() == 10);
    assert("stats"@.len() == 5);
    assert("get_processes"@.len() == 13);
    assert("memory_verbose"@.len() == 14);
    assert("get_cpu_memory_usage"@.len() == 20);
    assert("list"@.len() == 4);
    assert("read"@.len() == 4);
    assert("copy"@.len() == 4);
    assert("copy"@[0] != "list"@[0]);
    assert("copy"@[0] != "read"@[0]);
}

proof fn lemma_tool_copy(args: Json)
    ensures
        required_respected(copy_def(), args),
        node_respected(copy_def(), args),
{
    reveal(copy_def);
    lemma_lookup_copy(args);
    reveal_with_fuel(first_missing, 4);
    assert(copy_def().required.drop_first() =~= seq!["source"@, "destination"@]);
    assert(copy_def().required.drop_first().drop_first() =~= seq!["destination"@]);
}

proof fn lemma_lookup_get_usage(args: Json)
    ensures
        tool_commands("get_usage"@, args) === Some(single(get_usage_command(args))),
{
    reveal(tool_commands);
    reveal_strlit("containers");
    reveal_strlit("stats");
    reveal_strlit("get_processes");
    reveal_strlit("memory_verbose");
    reveal_strlit("get_cpu_memory_usage");
    reveal_strlit("list");
    reveal_strlit("read");
    reveal_strlit("copy");
    reveal_strlit("get_usage");
    assert("containers"@.len() == 10);
    assert("stats"@.len() == 5);
    assert("get_processes"@.len() == 13);
    assert("memory_verbose"@.len() == 14);
    assert("get_cpu_memory_usage"@.len() == 20);
    assert("list"@.len() == 4);
    assert("read"@.len() == 4);
    assert("copy"@.len() == 4);
    assert("get_usage"@.len() == 9);
}

proof fn lemma_tool_get_usage(args: Json)
    ensures
        required_respected(get_usage_def(), args),
        node_respected(get_usage_def(), args),
{
    reveal(get_usage_def);
    lemma_lookup_get_usage(args);
    reveal_with_fuel(first_missing, 4);
}

proof fn lemma_lookup_get_mounts(args: Json)
    ensures
        tool_commands("get_mounts"@, args) === Some(single(get_mounts_command(args))),
{
    reveal(tool_commands);
    reveal_strlit("containers");
    reveal_strlit("stats");
    reveal_strlit("get_processes");
    reveal_strlit("memory_verbose");
    reveal_strlit("get_cpu_memory_usage");
    reveal_strlit("list");
    reveal_strlit("read");
    reveal_strlit("copy");
    reveal_strlit("get_usage");
    reveal_strlit("get_mounts");
    assert("containers"@.len() == 10);
    assert("stats"@.len() == 5);
    assert("get_processes"@.len() == 13);
    assert("memory_verbose"@.len() == 14);
    assert("get_cpu_memory_usage"@.len() == 20);
    assert("list"@.len() == 4);
    assert("read"@.len() == 4);
    assert("copy"@.len() == 4);
    assert("get_usage"@.len() == 9);
    assert("get_mounts"@.len() == 10);
    assert("get_mounts"@[0] != "containers"@[0]);
}

proof fn lemma_tool_get_mounts(args: Json)
    ensures
        required_respected(get_mounts_def(), args),
        node_respected(get_mounts_def(), args),
{
    reveal(get_mounts_def);
    lemma_lookup_get_mounts(args);
    reveal_with_fuel(first_missing, 4);
}

proof fn lemma_lookup_interfaces(args: Json)
    ensures
        tool_commands("interfaces"@, args) === Some(single(interfaces_command(args))),
{
    reveal(tool_commands);
    reveal_strlit("containers");
    reveal_strlit("stats");
    reveal_strlit("get_processes");
    reveal_strlit("memory_verbose");
    reveal_strlit("get_cpu_memory_usage");
    reveal_strlit("list");
    reveal_strlit("read");
    reveal_strlit("copy");
    reveal_strlit("get_usage");
    reveal_strlit("get_mounts");
    reveal_strlit("interfaces");
    assert("containers"@.len() == 10);
    assert("stats"@.len() == 5);
    assert("get_processes"@.len() == 13);
    assert("memory_verbose"@.len() == 14);
    assert("get_cpu_memory_usage"@.len() == 20);
    assert("list"@.len() == 4);
    assert("read"@.len() == 4);
    assert("copy"@.len() == 4);
    assert("get_usage"@.len() == 9);
    assert("get_mounts"@.len() == 10);
    assert("interfaces"@.len() == 10);
    assert("interfaces"@[0] != "containers"@[0]);
    assert("interfaces"@[0] != "get_mounts"@[0]);
}

proof fn lemma_tool_interfaces(args: Json)
    ensures
        required_respected(interfaces_def(), args),
        node_respected(interfaces_def(), args),
{
    reveal(interfaces_def);
    lemma_lookup_interfaces(args);
    reveal_with_fuel(first_missing, 4);
}

proof fn lemma_lookup_routes(args: Json)
    ensures
        tool_commands("routes"@, args) === Some(single(routes_command(args))),
{
    reveal(tool_commands);
    reveal_strlit("containers");
    reveal_strlit("stats");
    reveal_strlit("get_processes");
    reveal_strlit("memory_verbose");
    reveal_strlit("get_cpu_memory_usage");
    reveal_strlit("list");
    reveal_strlit("read");
    reveal_strlit("copy");
    reveal_strlit("get_usage");
    reveal_strlit("get_mounts");
    reveal_strlit("interfaces");
    reveal_strlit("routes");
    assert("containers"@.len() == 10);
    assert("stats"@.len() == 5);
    assert("get_processes"@.len() == 13);
    assert("memory_verbose"@.len() == 14);
    assert("get_cpu_memory_usage"@.len() == 20);
    assert("list"@.len() == 4);
    assert("read"@.len() == 4);
    assert("copy"@.len() == 4);
    assert("get_usage"@.len() == 9);
    assert("get_mounts"@.len() == 10);
    assert("interfaces"@.len() == 10);
    assert("routes"@.len() == 6);
}

proof fn lemma_tool_routes(args: Json)
    ensures
        required_respected(routes_def(), args),
        node_respected(routes_def(), args),
{
    reveal(routes_def);
    lemma_lookup_routes(args);
    reveal_with_fuel(first_missing, 4);
}

proof fn lemma_lookup_get_netstat(args: Json)
    ensures
        tool_commands("get_netstat"@, args) === Some(single(get_netstat_command(args))),
{
    reveal(tool_commands);
    reveal_strlit("containers");
    reveal_strlit("stats");
    reveal_strlit("get_processes");
    reveal_strlit("memory_verbose");
    reveal_strlit("get_cpu_memory_usage");
    reveal_strlit("list");
    reveal_strlit("read");
    reveal_strlit("copy");
    reveal_strlit("get_usage");
    reveal_strlit("get_mounts");
    reveal_strlit("interfaces");
    reveal_strlit("routes");
    reveal_strlit("get_netstat");
    assert("containers"@.len() == 10);
    assert("stats"@.len() == 5);
    assert("get_processes"@.len() == 13);
    assert("memory_verbose"@.len() == 14);
    assert("get_cpu_memory_usage"@.len() == 20);
    assert("list"@.len() == 4);
    assert("read"@.len() == 4);
    assert("copy"@.len() == 4);
    assert("get_usage"@.len() == 9);
    assert("get_mounts"@.len() == 10);
    assert("interfaces"@.len() == 10);
    assert("routes"@.len() == 6);
    assert("get_netstat"@.len() == 11);
}

proof fn lemma_tool_get_netstat(args: Json)
    ensures
        required_respected(get_netstat_def(), args),
        node_respected(get_netstat_def(), args),
{
    reveal(get_netstat_def);
    lemma_lookup_get_netstat(args);
    reveal_with_fuel(first_missing, 4);
}

proof fn lemma_lookup_capture_packets(args: Json)
    ensures
        tool_commands("capture_packets"@, args) === Some(single(capture_packets_command(args))),
{
    reveal(tool_commands);
    reveal_strlit("containers");
    reveal_strlit("stats");
    reveal_strlit("get_processes");
    reveal_strlit("memory_verbose");
    reveal_strlit("get_cpu_memory_usage");
    reveal_strlit("list");
    reveal_strlit("read");
    reveal_strlit("copy");
    reveal_strlit("get_usage");
    reveal_strlit("get_mounts");
    reveal_strlit("interfaces");
    reveal_strlit("routes");
    reveal_strlit("get_netstat");
    reveal_strlit("capture_packets");
    assert("containers"@.len() == 10);
    assert("stats"@.len() == 5);
    assert("get_processes"@.len() == 13);
    assert("memory_verbose"@.len() == 14);
    assert("get_cpu_memory_usage"@.len() == 20);
    assert("list"@.len() == 4);
    assert("read"@.len() == 4);
    assert("copy"@.len() == 4);
    assert("get_usage"@.len() == 9);
    assert("get_mounts"@.len() == 10);
    assert("interfaces"@.len() == 10);
    assert("routes"@.len() == 6);
    assert("get_netstat"@.len() == 11);
    assert("capture_packets"@.len() == 15);
}

proof fn lemma_tool_capture_packets(args: Json)
    ensures
        required_respected(capture_packets_def(), args),
        node_respected(capture_packets_def(), args),
{
    reveal(capture_packets_def);
    lemma_lookup_capture_packets(args);
    reveal_with_fuel(first_missing, 4);
    assert(capture_packets_def().required.drop_first() =~= seq!["interface"@]);
}

proof fn lemma_lookup_get_network_io_cgroups(args: Json)
    ensures
        tool_commands("get_network_io_cgroups"@, args) === Some(single(get_network_io_cgroups_command(args))),
{
    reveal(tool_commands);
    reveal_strlit("containers");
    reveal_strlit("stats");
    reveal_strlit("get_processes");
    reveal_strlit("memory_verbose");
    reveal_strlit("get_cpu_memory_usage");
    reveal_strlit("list");
    reveal_strlit("read");
    reveal_strlit("copy");
    reveal_strlit("get_usage");
    reveal_strlit("get_mounts");
    reveal_strlit("interfaces");
    reveal_strlit("routes");
    reveal_strlit("get_netstat");
    reveal_strlit("capture_packets");
    reveal_strlit("get_network_io_cgroups");
    assert("containers"@.len() == 10);
    assert("stats"@.len() == 5);
    assert("get_processes"@.len() == 13);
    assert("memory_verbose"@.len() == 14);
    assert("get_cpu_memory_usage"@.len() == 20);
    assert("list"@.len() == 4);
    assert("read"@.len() == 4);
    assert("copy"@.len() == 4);
    assert("get_usage"@.len() == 9);
    assert("get_mounts"@.len() == 10);
    assert("interfaces"@.len() == 10);
    assert("routes"@.len() == 6);
    assert("get_netstat"@.len() == 11);
    assert("capture_packets"@.len() == 15);
    assert("get_network_io_cgroups"@.len() == 22);
}

proof fn lemma_tool_get_network_io_cgroups(args: Json)
    ensures
        required_respected(get_network_io_cgroups_def(), args),
        node_respected(get_network_io_cgroups_def(), args),
{
    reveal(get_network_io_cgroups_def);
    lemma_lookup_get_network_io_cgroups(args);
    reveal_with_fuel(first_missing, 4);
}

proof fn lemma_lookup_list_network_interfaces(args: Json)
    ensures
        tool_commands("list_network_interfaces"@, args) === Some(single(list_network_interfaces_command(args))),
{
    reveal(tool_commands);
    reveal_strlit("containers");
    reveal_strlit("stats");
    reveal_strlit("get_processes");
    reveal_strlit("memory_verbose");
    reveal_strlit("get_cpu_memory_usage");
    reveal_strlit("list");
    reveal_strlit("read");
    reveal_strlit("copy");
    reveal_strlit("get_usage");
    reveal_strlit("get_mounts");
    reveal_strlit("interfaces");
    reveal_strlit("routes");
    reveal_strlit("get_netstat");
    reveal_strlit("capture_packets");
    reveal_strlit("get_network_io_cgroups");
    reveal_strlit("list_network_interfaces");
    assert("containers"@.len() == 10);
    assert("stats"@.len() == 5);
    assert("get_processes"@.len() == 13);
    assert("memory_verbose"@.len() == 14);
    assert("get_cpu_memory_usage"@.len() == 20);
    assert("list"@.len() == 4);
    assert("read"@.len() == 4);
    assert("copy"@.len() == 4);
    assert("get_usage"@.len() == 9);
    assert("get_mounts"@.len() == 10);
    assert("interfaces"@.len() == 10);
    assert("routes"@.len() == 6);
    assert("get_netstat"@.len() == 11);
    assert("capture_packets"@.len() == 15);
    assert("get_network_io_cgroups"@.len() == 22);
    assert("list_network_interfaces"@.len() == 23);
}

proof fn lemma_tool_list_network_interfaces(args: Json)
    ensures
        required_respected(list_network_interfaces_def(), args),
        node_respected(list_network_interfaces_def(), args),
{
    reveal(list_network_interfaces_def);
    lemma_lookup_list_network_interfaces(args);
    reveal_with_fuel(first_missing, 4);
}

proof fn lemma_lookup_dmesg(args: Json)
    ensures
        tool_commands("dmesg"@, args) === Some(single(dmesg_command(args))),
{
    reveal(tool_commands);
    reveal_strlit("containers");
    reveal_strlit("stats");
    reveal_strlit("get_processes");
    reveal_strlit("memory_verbose");
    reveal_strlit("get_cpu_memory_usage");
    reveal_strlit("list");
    reveal_strlit("read");
    reveal_strlit("copy");
    reveal_strlit("get_usage");
    reveal_strlit("get_mounts");
    reveal_strlit("interfaces");
    reveal_strlit("routes");
    reveal_strlit("get_netstat");
    reveal_strlit("capture_packets");
    reveal_strlit("get_network_io_cgroups");
    reveal_strlit("list_network_interfaces");
    reveal_strlit("dmesg");
    assert("containers"@.len() == 10);
    assert("stats"@.len() == 5);
    assert("get_processes"@.len() == 13);
    assert("memory_verbose"@.len() == 14);
    assert("get_cpu_memory_usage"@.len() == 20);
    assert("list"@.len() == 4);
    assert("read"@.len() == 4);
    assert("copy"@.len() == 4);
    assert("get_usage"@.len() == 9);
    assert("get_mounts"@.len() == 10);
    assert("interfaces"@.len() == 10);
    assert("routes"@.len() == 6);
    assert("get_netstat"@.len() == 11);
    assert("capture_packets"@.len() == 15);
    assert("get_network_io_cgroups"@.len() == 22);
    assert("list_network_interfaces"@.len() == 23);
    assert("dmesg"@.len() == 5);
    assert("dmesg"@[0] != "stats"@[0]);
}

proof fn lemma_tool_dmesg(args: Json)
    ensures
        required_respected(dmesg_def(), args),
        node_respected(dmesg_def(), args),
{
    reveal(dmesg_def);
    lemma_lookup_dmesg(args);
    reveal_with_fuel(first_missing, 4);
}

proof fn lemma_lookup_service(args: Json)
    ensures
        tool_commands("service"@, args) === Some(single(service_command(args))),
{
    reveal(tool_commands);
    reveal_strlit("containers");
    reveal_strlit("stats");
    reveal_strlit("get_processes");
    reveal_strlit("memory_verbose");
    reveal_strlit("get_cpu_memory_usage");
    reveal_strlit("list");
    reveal_strlit("read");
    reveal_strlit("copy");
    reveal_strlit("get_usage");
    reveal_strlit("get_mounts");
    reveal_strlit("interfaces");
    reveal_strlit("routes");
    reveal_strlit("get_netstat");
    reveal_strlit("capture_packets");
    reveal_strlit("get_network_io_cgroups");
    reveal_strlit("list_network_interfaces");
    reveal_strlit("dmesg");
    reveal_strlit("service");
    assert("containers"@.len() == 10);
    assert("stats"@.len() == 5);
    assert("get_processes"@.len() == 13);
    assert("memory_verbose"@.len() == 14);
    assert("get_cpu_memory_usage"@.len() == 20);
    assert("list"@.len() == 4);
    assert("read"@.len() == 4);
    assert("copy"@.len() == 4);
    assert("get_usage"@.len() == 9);
    assert("get_mounts"@.len() == 10);
    assert("interfaces"@.len() == 10);
    assert("routes"@.len() == 6);
    assert("get_netstat"@.len() == 11);
    assert("capture_packets"@.len() == 15);
    assert("get_network_io_cgroups"@.len() == 22);
    assert("list_network_interfaces"@.len() == 23);
    assert("dmesg"@.len() == 5);
    assert("service"@.len() == 7);
}

proof fn lemma_tool_service(args: Json)
    ensures
        required_respected(service_def(), args),
        node_respected(service_def(), args),
{
    reveal(service_def);
    lemma_lookup_service(args);
    reveal_with_fuel(first_missing, 4);
    assert(service_def().required.drop_first() =~= seq!["service"@, "action"@]);
    assert(service_def().required.drop_first().drop_first() =~= seq!["action"@]);
    assert(node_respected(service_def(), args)) by {
        reveal_strlit("service");
    }
}

proof fn lemma_lookup_restart(args: Json)
    ensures
        tool_commands("restart"@, args) === Some(single(restart_command(args))),
{
    reveal(tool_commands);
    reveal_strlit("containers");
    reveal_strlit("stats");
    reveal_strlit("get_processes");
    reveal_strlit("memory_verbose");
    reveal_strlit("get_cpu_memory_usage");
    reveal_strlit("list");
    reveal_strlit("read");
    reveal_strlit("copy");
    reveal_strlit("get_usage");
    reveal_strlit("get_mounts");
    reveal_strlit("interfaces");
    reveal_strlit("routes");
    reveal_strlit("get_netstat");
    reveal_strlit("capture_packets");
    reveal_strlit("get_network_io_cgroups");
    reveal_strlit("list_network_interfaces");
    reveal_strlit("dmesg");
    reveal_strlit("service");
    reveal_strlit("restart");
    assert("containers"@.len() == 10);
    assert("stats"@.len() == 5);
    assert("get_processes"@.len() == 13);
    assert("memory_verbose"@.len() == 14);
    assert("get_cpu_memory_usage"@.len() == 20);
    assert("list"@.len() == 4);
    assert("read"@.len() == 4);
    assert("copy"@.len() == 4);
    assert("get_usage"@.len() == 9);
    assert("get_mounts"@.len() == 10);
    assert("interfaces"@.len() == 10);
    assert("routes"@.len() == 6);
    assert("get_netstat"@.len() == 11);
    assert("capture_packets"@.len() == 15);
    assert("get_network_io_cgroups"@.len() == 22);
    assert("list_network_interfaces"@.len() == 23);
    assert("dmesg"@.len() == 5);
    assert("service"@.len() == 7);
    assert("restart"@.len() == 7);
    assert("restart"@[0] != "service"@[0]);
}

proof fn lemma_tool_restart(args: Json)
    ensures
        required_respected(restart_def(), args),
        node_respected(restart_def(), args),
{
    reveal(restart_def);
    lemma_lookup_restart(args);
    reveal_with_fuel(first_missing, 4);
    assert(restart_def().required.drop_first() =~= seq!["service"@]);
}

proof fn lemma_lookup_get_logs(args: Json)
    ensures
        tool_commands("get_logs"@, args) === Some(single(get_logs_command(args))),
{
    reveal(tool_commands);
    reveal_strlit("containers");
    reveal_strlit("stats");
    reveal_strlit("get_processes");
    reveal_strlit("memory_verbose");
    reveal_strlit("get_cpu_memory_usage");
    reveal_strlit("list");
    reveal_strlit("read");
    reveal_strlit("copy");
    reveal_strlit("get_usage");
    reveal_strlit("get_mounts");
    reveal_strlit("interfaces");
    reveal_strlit("routes");
    reveal_strlit("get_netstat");
    reveal_strlit("capture_packets");
    reveal_strlit("get_network_io_cgroups");
    reveal_strlit("list_network_interfaces");
    reveal_strlit("dmesg");
    reveal_strlit("service");
    reveal_strlit("restart");
    reveal_strlit("get_logs");
    assert("containers"@.len() == 10);
    assert("stats"@.len() == 5);
    assert("get_processes"@.len() == 13);
    assert("memory_verbose"@.len() == 14);
    assert("get_cpu_memory_usage"@.len() == 20);
    assert("list"@.len() == 4);
    assert("read"@.len() == 4);
    assert("copy"@.len() == 4);
    assert("get_usage"@.len() == 9);
    assert("get_mounts"@.len() == 10);
    assert("interfaces"@.len() == 10);
    assert("routes"@.len() == 6);
    assert("get_netstat"@.len() == 11);
    assert("capture_packets"@.len() == 15);
    assert("get_network_io_cgroups"@.len() == 22);
    assert("list_network_interfaces"@.len() == 23);
    assert("dmesg"@.len() == 5);
    assert("service"@.len() == 7);
    assert("restart"@.len() == 7);
    assert("get_logs"@.len() == 8);
}

proof fn lemma_tool_get_logs(args: Json)
    ensures
        required_respected(get_logs_def(), args),
        node_respected(get_logs_def(), args),
{
    reveal(get_logs_def);
    lemma_lookup_get_logs(args);
    reveal_with_fuel(first_missing, 4);
    assert(get_logs_def().required.drop_first() =~= seq!["service"@]);
}

proof fn lemma_lookup_get_events(args: Json)
    ensures
        tool_commands("get_events"@, args) === Some(single(get_events_command(args))),
{
    reveal(tool_commands);
    reveal_strlit("containers");
    reveal_strlit("stats");
    reveal_strlit("get_processes");
    reveal_strlit("memory_verbose");
    reveal_strlit("get_cpu_memory_usage");
    reveal_strlit("list");
    reveal_strlit("read");
    reveal_strlit("copy");
    reveal_strlit("get_usage");
    reveal_strlit("get_mounts");
    reveal_strlit("interfaces");
    reveal_strlit("routes");
    reveal_strlit("get_netstat");
    reveal_strlit("capture_packets");
    reveal_strlit("get_network_io_cgroups");
    reveal_strlit("list_network_interfaces");
    reveal_strlit("dmesg");
    reveal_strlit("service");
    reveal_strlit("restart");
    reveal_strlit("get_logs");
    reveal_strlit("get_events");
    assert("containers"@.len() == 10);
    assert("stats"@.len() == 5);
    assert("get_processes"@.len() == 13);
    assert("memory_verbose"@.len() == 14);
    assert("get_cpu_memory_usage"@.len() == 20);
    assert("list"@.len() == 4);
    assert("read"@.len() == 4);
    assert("copy"@.len() == 4);
    assert("get_usage"@.len() == 9);
    assert("get_mounts"@.len() == 10);
    assert("interfaces"@.len() == 10);
    assert("routes"@.len() == 6);
    assert("get_netstat"@.len() == 11);
    assert("capture_packets"@.len() == 15);
    assert("get_network_io_cgroups"@.len() == 22);
    assert("list_network_interfaces"@.len() == 23);
    assert("dmesg"@.len() == 5);
    assert("service"@.len() == 7);
    assert("restart"@.len() == 7);
    assert("get_logs"@.len() == 8);
    assert("get_events"@.len() == 10);
    assert("get_events"@[0] != "containers"@[0]);
    assert("get_events"@[4] != "get_mounts"@[4]);
    assert("get_events"@[0] != "interfaces"@[0]);
}

proof fn lemma_tool_get_events(args: Json)
    ensures
        required_respected(get_events_def(), args),
        node_respected(get_events_def(), args),
{
    reveal(get_events_def);
    lemma_lookup_get_events(args);
    reveal_with_fuel(first_missing, 4);
}

proof fn lemma_lookup_disks(args: Json)
    ensures
        tool_commands("disks"@, args) === Some(single(disks_command(args))),
{
    reveal(tool_commands);
    reveal_strlit("containers");
    reveal_strlit("stats");
    reveal_strlit("get_processes");
    reveal_strlit("memory_verbose");
    reveal_strlit("get_cpu_memory_usage");
    reveal_strlit("list");
    reveal_strlit("read");
    reveal_strlit("copy");
    reveal_strlit("get_usage");
    reveal_strlit("get_mounts");
    reveal_strlit("interfaces");
    reveal_strlit("routes");
    reveal_strlit("get_netstat");
    reveal_strlit("capture_packets");
    reveal_strlit("get_network_io_cgroups");
    reveal_strlit("list_network_interfaces");
    reveal_strlit("dmesg");
    reveal_strlit("service");
    reveal_strlit("restart");
    reveal_strlit("get_logs");
    reveal_strlit("get_events");
    reveal_strlit("disks");
    assert("containers"@.len() == 10);
    assert("stats"@.len() == 5);
    assert("get_processes"@.len() == 13);
    assert("memory_verbose"@.len() == 14);
    assert("get_cpu_memory_usage"@.len() == 20);
    assert("list"@.len() == 4);
    assert("read"@.len() == 4);
    assert("copy"@.len() == 4);
    assert("get_usage"@.len() == 9);
    assert("get_mounts"@.len() == 10);
    assert("interfaces"@.len() == 10);
    assert("routes"@.len() == 6);
    assert("get_netstat"@.len() == 11);
    assert("capture_packets"@.len() == 15);
    assert("get_network_io_cgroups"@.len() == 22);
    assert("list_network_interfaces"@.len() == 23);
    assert("dmesg"@.len() == 5);
    assert("service"@.len() == 7);
    assert("restart"@.len() == 7);
    assert("get_logs"@.len() == 8);
    assert("get_events"@.len() == 10);
    assert("disks"@.len() == 5);
    assert("disks"@[0] != "stats"@[0]);
    assert("disks"@[1] != "dmesg"@[1]);
}

proof fn lemma_tool_disks(args: Json)
    ensures
        required_respected(disks_def(), args),
        node_respected(disks_def(), args),
{
    reveal(disks_def);
    lemma_lookup_disks(args);
    reveal_with_fuel(first_missing, 4);
}

proof fn lemma_lookup_list_disks(args: Json)
    ensures
        tool_commands("list_disks"@, args) === Some(single(list_disks_command(args))),
{
    reveal(tool_commands);
    reveal_strlit("containers");
    reveal_strlit("stats");
    reveal_strlit("get_processes");
    reveal_strlit("memory_verbose");
    reveal_strlit("get_cpu_memory_usage");
    reveal_strlit("list");
    reveal_strlit("read");
    reveal_strlit("copy");
    reveal_strlit("get_usage");
    reveal_strlit("get_mounts");
    reveal_strlit("interfaces");
    reveal_strlit("routes");
    reveal_strlit("get_netstat");
    reveal_strlit("capture_packets");
    reveal_strlit("get_network_io_cgroups");
    reveal_strlit("list_network_interfaces");
    reveal_strlit("dmesg");
    reveal_strlit("service");
    reveal_strlit("restart");
    reveal_strlit("get_logs");
    reveal_strlit("get_events");
    reveal_strlit("disks");
    reveal_strlit("list_disks");
    assert("containers"@.len() == 10);
    assert("stats"@.len() == 5);
    assert("get_processes"@.len() == 13);
    assert("memory_verbose"@.len() == 14);
    assert("get_cpu_memory_usage"@.len() == 20);
    assert("list"@.len() == 4);
    assert("read"@.len() == 4);
    assert("copy"@.len() == 4);
    assert("get_usage"@.len() == 9);
    assert("get_mounts"@.len() == 10);
    assert("interfaces"@.len() == 10);
    assert("routes"@.len() == 6);
    assert("get_netstat"@.len() == 11);
    assert("capture_packets"@.len() == 15);
    assert("get_network_io_cgroups"@.len() == 22);
    assert("list_network_interfaces"@.len() == 23);
    assert("dmesg"@.len() == 5);
    assert("service"@.len() == 7);
    assert("restart"@.len() == 7);
    assert("get_logs"@.len() == 8);
    assert("get_events"@.len() == 10);
    assert("disks"@.len() == 5);
    assert("list_disks"@.len() == 10);
    assert("list_disks"@[0] != "containers"@[0]);
    assert("list_disks"@[0] != "get_mounts"@[0]);
    assert("list_disks"@[0] != "interfaces"@[0]);
    assert("list_disks"@[0] != "get_events"@[0]);
}

proof fn lemma_tool_list_disks(args: Json)
    ensures
        required_respected(list_disks_def(), args),
        node_respected(list_disks_def(), args),
{
    reveal(list_disks_def);
    lemma_lookup_list_disks(args);
    reveal_with_fuel(first_missing, 4);
}

proof fn lemma_lookup_get_health(args: Json)
    ensures
        tool_commands("get_health"@, args) === Some(single(get_health_command(args))),
{
    reveal(tool_commands);
    reveal_strlit("containers");
    reveal_strlit("stats");
    reveal_strlit("get_processes");
    reveal_strlit("memory_verbose");
    reveal_strlit("get_cpu_memory_usage");
    reveal_strlit("list");
    reveal_strlit("read");
    reveal_strlit("copy");
    reveal_strlit("get_usage");
    reveal_strlit("get_mounts");
    reveal_strlit("interfaces");
    reveal_strlit("routes");
    reveal_strlit("get_netstat");
    reveal_strlit("capture_packets");
    reveal_strlit("get_network_io_cgroups");
    reveal_strlit("list_network_interfaces");
    reveal_strlit("dmesg");
    reveal_strlit("service");
    reveal_strlit("restart");
    reveal_strlit("get_logs");
    reveal_strlit("get_events");
    reveal_strlit("disks");
    reveal_strlit("list_disks");
    reveal_strlit("get_health");
    assert("containers"@.len() == 10);
    assert("stats"@.len() == 5);
    assert("get_processes"@.len() == 13);
    assert("memory_verbose"@.len() == 14);
    assert("get_cpu_memory_usage"@.len() == 20);
    assert("list"@.len() == 4);
    assert("read"@.len() == 4);
    assert("copy"@.len() == 4);
    assert("get_usage"@.len() == 9);
    assert("get_mounts"@.len() == 10);
    assert("interfaces"@.len() == 10);
    assert("routes"@.len() == 6);
    assert("get_netstat"@.len() == 11);
    assert("capture_packets"@.len() == 15);
    assert("get_network_io_cgroups"@.len() == 22);
    assert("list_network_interfaces"@.len() == 23);
    assert("dmesg"@.len() == 5);
    assert("service"@.len() == 7);
    assert("restart"@.len() == 7);
    assert("get_logs"@.len() == 8);
    assert("get_events"@.len() == 10);
    assert("disks"@.len() == 5);
    assert("list_disks"@.len() == 10);
    assert("get_health"@.len() == 10);
    assert("get_health"@[0] != "containers"@[0]);
    assert("get_health"@[4] != "get_mounts"@[4]);
    assert("get_health"@[0] != "interfaces"@[0]);
    assert("get_health"@[4] != "get_events"@[4]);
    assert("get_health"@[0] != "list_disks"@[0]);
}

proof fn lemma_tool_get_health(args: Json)
    ensures
        required_respected(get_health_def(), args),
        node_respected(get_health_def(), args),
{
    reveal(get_health_def);
    lemma_lookup_get_health(args);
    reveal_with_fuel(first_missing, 4);
}

proof fn lemma_lookup_get_version(args: Json)
    ensures
        tool_commands("get_version"@, args) === Some(single(get_version_command(args))),
{
    reveal(tool_commands);
    reveal_strlit("containers");
    reveal_strlit("stats");
    reveal_strlit("get_processes");
    reveal_strlit("memory_verbose");
    reveal_strlit("get_cpu_memory_usage");
    reveal_strlit("list");
    reveal_strlit("read");
    reveal_strlit("copy");
    reveal_strlit("get_usage");
    reveal_strlit("get_mounts");
    reveal_strlit("interfaces");
    reveal_strlit("routes");
    reveal_strlit("get_netstat");
    reveal_strlit("capture_packets");
    reveal_strlit("get_network_io_cgroups");
    reveal_strlit("list_network_interfaces");
    reveal_strlit("dmesg");
    reveal_strlit("service");
    reveal_strlit("restart");
    reveal_strlit("get_logs");
    reveal_strlit("get_events");
    reveal_strlit("disks");
    reveal_strlit("list_disks");
    reveal_strlit("get_health");
    reveal_strlit("get_version");
    assert("containers"@.len() == 10);
    assert("stats"@.len() == 5);
    assert("get_processes"@.len() == 13);
    assert("memory_verbose"@.len() == 14);
    assert("get_cpu_memory_usage"@.len() == 20);
    assert("list"@.len() == 4);
    assert("read"@.len() == 4);
    assert("copy"@.len() == 4);
    assert("get_usage"@.len() == 9);
    assert("get_mounts"@.len() == 10);
    assert("interfaces"@.len() == 10);
    assert("routes"@.len() == 6);
    assert("get_netstat"@.len() == 11);
    assert("capture_packets"@.len() == 15);
    assert("get_network_io_cgroups"@.len() == 22);
    assert("list_network_interfaces"@.len() == 23);
    assert("dmesg"@.len() == 5);
    assert("service"@.len() == 7);
    assert("restart"@.len() == 7);
    assert("get_logs"@.len() == 8);
    assert("get_events"@.len() == 10);
    assert("disks"@.len() == 5);
    assert("list_disks"@.len() == 10);
    assert("get_health"@.len() == 10);
    assert("get_version"@.len() == 11);
    assert("get_version"@[4] != "get_netstat"@[4]);
}

proof fn lemma_tool_get_version(args: Json)
    ensures
        required_respected(get_version_def(), args),
        node_respected(get_version_def(), args),
{
    reveal(get_version_def);
    lemma_lookup_get_version(args);
    reveal_with_fuel(first_missing, 4);
}

proof fn lemma_lookup_get_time(args: Json)
    ensures
        tool_commands("get_time"@, args) === Some(single(get_time_command(args))),
{
    reveal(tool_commands);
    reveal_strlit("containers");
    reveal_strlit("stats");
    reveal_strlit("get_processes");
    reveal_strlit("memory_verbose");
    reveal_strlit("get_cpu_memory_usage");
    reveal_strlit("list");
    reveal_strlit("read");
    reveal_strlit("copy");
    reveal_strlit("get_usage");
    reveal_strlit("get_mounts");
    reveal_strlit("interfaces");
    reveal_strlit("routes");
    reveal_strlit("get_netstat");
    reveal_strlit("capture_packets");
    reveal_strlit("get_network_io_cgroups");
    reveal_strlit("list_network_interfaces");
    reveal_strlit("dmesg");
    reveal_strlit("service");
    reveal_strlit("restart");
    reveal_strlit("get_logs");
    reveal_strlit("get_events");
    reveal_strlit("disks");
    reveal_strlit("list_disks");
    reveal_strlit("get_health");
    reveal_strlit("get_version");
    reveal_strlit("get_time");
    assert("containers"@.len() == 10);
    assert("stats"@.len() == 5);
    assert("get_processes"@.len() == 13);
    assert("memory_verbose"@.len() == 14);
    assert("get_cpu_memory_usage"@.len() == 20);
    assert("list"@.len() == 4);
    assert("read"@.len() == 4);
    assert("copy"@.len() == 4);
    assert("get_usage"@.len() == 9);
    assert("get_mounts"@.len() == 10);
    assert("interfaces"@.len() == 10);
    assert("routes"@.len() == 6);
    assert("get_netstat"@.len() == 11);
    assert("capture_packets"@.len() == 15);
    assert("get_network_io_cgroups"@.len() == 22);
    assert("list_network_interfaces"@.len() == 23);
    assert("dmesg"@.len() == 5);
    assert("service"@.len() == 7);
    assert("restart"@.len() == 7);
    assert("get_logs"@.len() == 8);
    assert("get_events"@.len() == 10);
    assert("disks"@.len() == 5);
    assert("list_disks"@.len() == 10);
    assert("get_health"@.len() == 10);
    assert("get_version"@.len() == 11);
    assert("get_time"@.len() == 8);
    assert("get_time"@[4] != "get_logs"@[4]);
}

proof fn lemma_tool_get_time(args: Json)
    ensures
        required_respected(get_time_def(), args),
        node_respected(get_time_def(), args),
{
    reveal(get_time_def);
    lemma_lookup_get_time(args);
    reveal_with_fuel(first_missing, 4);
}

proof fn lemma_lookup_reboot_node(args: Json)
    ensures
        tool_commands("reboot_node"@, args) === Some(single(reboot_node_command(args))),
{
    reveal(tool_commands);
    reveal_strlit("containers");
    reveal_strlit("stats");
    reveal_strlit("get_processes");
    reveal_strlit("memory_verbose");
    reveal_strlit("get_cpu_memory_usage");
    reveal_strlit("list");
    reveal_strlit("read");
    reveal_strlit("copy");
    reveal_strlit("get_usage");
    reveal_strlit("get_mounts");
    reveal_strlit("interfaces");
    reveal_strlit("routes");
    reveal_strlit("get_netstat");
    reveal_strlit("capture_packets");
    reveal_strlit("get_network_io_cgroups");
    reveal_strlit("list_network_interfaces");
    reveal_strlit("dmesg");
    reveal_strlit("service");
    reveal_strlit("restart");
    reveal_strlit("get_logs");
    reveal_strlit("get_events");
    reveal_strlit("disks");
    reveal_strlit("list_disks");
    reveal_strlit("get_health");
    reveal_strlit("get_version");
    reveal_strlit("get_time");
    reveal_strlit("reboot_node");
    assert("containers"@.len() == 10);
    assert("stats"@.len() == 5);
    assert("get_processes"@.len() == 13);
    assert("memory_verbose"@.len() == 14);
    assert("get_cpu_memory_usage"@.len() == 20);
    assert("list"@.len() == 4);
    assert("read"@.len() == 4);
    assert("copy"@.len() == 4);
    assert("get_usage"@.len() == 9);
    assert("get_mounts"@.len() == 10);
    assert("interfaces"@.len() == 10);
    assert("routes"@.len() == 6);
    assert("get_netstat"@.len() == 11);
    assert("capture_packets"@.len() == 15);
    assert("get_network_io_cgroups"@.len() == 22);
    assert("list_network_interfaces"@.len() == 23);
    assert("dmesg"@.len() == 5);
    assert("service"@.len() == 7);
    assert("restart"@.len() == 7);
    assert("get_logs"@.len() == 8);
    assert("get_events"@.len() == 10);
    assert("disks"@.len() == 5);
    assert("list_disks"@.len() == 10);
    assert("get_health"@.len() == 10);
    assert("get_version"@.len() == 11);
    assert("get_time"@.len() == 8);
    assert("reboot_node"@.len() == 11);
    assert("reboot_node"@[0] != "get_netstat"@[0]);
    assert("reboot_node"@[0] != "get_version"@[0]);
}

proof fn lemma_tool_reboot_node(args: Json)
    ensures
        required_respected(reboot_node_def(), args),
        node_respected(reboot_node_def(), args),
{
    reveal(reboot_node_def);
    lemma_lookup_reboot_node(args);
    reveal_with_fuel(first_missing, 4);
}

proof fn lemma_lookup_shutdown_node(args: Json)
    ensures
        tool_commands("shutdown_node"@, args) === Some(single(shutdown_node_command(args))),
{
    reveal(tool_commands);
    reveal_strlit("containers");
    reveal_strlit("stats");
    reveal_strlit("get_processes");
    reveal_strlit("memory_verbose");
    reveal_strlit("get_cpu_memory_usage");
    reveal_strlit("list");
    reveal_strlit("read");
    reveal_strlit("copy");
    reveal_strlit("get_usage");
    reveal_strlit("get_mounts");
    reveal_strlit("interfaces");
    reveal_strlit("routes");
    reveal_strlit("get_netstat");
    reveal_strlit("capture_packets");
    reveal_strlit("get_network_io_cgroups");
    reveal_strlit("list_network_interfaces");
    reveal_strlit("dmesg");
    reveal_strlit("service");
    reveal_strlit("restart");
    reveal_strlit("get_logs");
    reveal_strlit("get_events");
    reveal_strlit("disks");
    reveal_strlit("list_disks");
    reveal_strlit("get_health");
    reveal_strlit("get_version");
    reveal_strlit("get_time");
    reveal_strlit("reboot_node");
    reveal_strlit("shutdown_node");
    assert("containers"@.len() == 10);
    assert("stats"@.len() == 5);
    assert("get_processes"@.len() == 13);
    assert("memory_verbose"@.len() == 14);
    assert("get_cpu_memory_usage"@.len() == 20);
    assert("list"@.len() == 4);
    assert("read"@.len() == 4);
    assert("copy"@.len() == 4);
    assert("get_usage"@.len() == 9);
    assert("get_mounts"@.len() == 10);
    assert("interfaces"@.len() == 10);
    assert("routes"@.len() == 6);
    assert("get_netstat"@.len() == 11);
    assert("capture_packets"@.len() == 15);
    assert("get_network_io_cgroups"@.len() == 22);
    assert("list_network_interfaces"@.len() == 23);
    assert("dmesg"@.len() == 5);
    assert("service"@.len() == 7);
    assert("restart"@.len() == 7);
    assert("get_logs"@.len() == 8);
    assert("get_events"@.len() == 10);
    assert("disks"@.len() == 5);
    assert("list_disks"@.len() == 10);
    assert("get_health"@.len() == 10);
    assert("get_version"@.len() == 11);
    assert("get_time"@.len() == 8);
    assert("reboot_node"@.len() == 11);
    assert("shutdown_node"@.len() == 13);
    assert("shutdown_node"@[0] != "get_processes"@[0]);
}

proof fn lemma_tool_shutdown_node(args: Json)
    ensures
        required_respected(shutdown_node_def(), args),
        node_respected(shutdown_node_def(), args),
{
    reveal(shutdown_node_def);
    lemma_lookup_shutdown_node(args);
    reveal_with_fuel(first_missing, 4);
}

proof fn lemma_lookup_reset_node(args: Json)
    ensures
        tool_commands("reset_node"@, args) === Some(single(reset_node_command(args))),
{
    reveal(tool_commands);
    reveal_strlit("containers");
    reveal_strlit("stats");
    reveal_strlit("get_processes");
    reveal_strlit("memory_verbose");
    reveal_strlit("get_cpu_memory_usage");
    reveal_strlit("list");
    reveal_strlit("read");
    reveal_strlit("copy");
    reveal_strlit("get_usage");
    reveal_strlit("get_mounts");
    reveal_strlit("interfaces");
    reveal_strlit("routes");
    reveal_strlit("get_netstat");
    reveal_strlit("capture_packets");
    reveal_strlit("get_network_io_cgroups");
    reveal_strlit("list_network_interfaces");
    reveal_strlit("dmesg");
    reveal_strlit("service");
    reveal_strlit("restart");
    reveal_strlit("get_logs");
    reveal_strlit("get_events");
    reveal_strlit("disks");
    reveal_strlit("list_disks");
    reveal_strlit("get_health");
    reveal_strlit("get_version");
    reveal_strlit("get_time");
    reveal_strlit("reboot_node");
    reveal_strlit("shutdown_node");
    reveal_strlit("reset_node");
    assert("containers"@.len() == 10);
    assert("stats"@.len() == 5);
    assert("get_processes"@.len() == 13);
    assert("memory_verbose"@.len() == 14);
    assert("get_cpu_memory_usage"@.len() == 20);
    assert("list"@.len() == 4);
    assert("read"@.len() == 4);
    assert("copy"@.len() == 4);
    assert("get_usage"@.len() == 9);
    assert("get_mounts"@.len() == 10);
    assert("interfaces"@.len() == 10);
    assert("routes"@.len() == 6);
    assert("get_netstat"@.len() == 11);
    assert("capture_packets"@.len() == 15);
    assert("get_network_io_cgroups"@.len() == 22);
    assert("list_network_interfaces"@.len() == 23);
    assert("dmesg"@.len() == 5);
    assert("service"@.len() == 7);
    assert("restart"@.len() == 7);
    assert("get_logs"@.len() == 8);
    assert("get_events"@.len() == 10);
    assert("disks"@.len() == 5);
    assert("list_disks"@.len() == 10);
    assert("get_health"@.len() == 10);
    assert("get_version"@.len() == 11);
    assert("get_time"@.len() == 8);
    assert("reboot_node"@.len() == 11);
    assert("shutdown_node"@.len() == 13);
    assert("reset_node"@.len() == 10);
    assert("reset_node"@[0] != "containers"@[0]);
    assert("reset_node"@[0] != "get_mounts"@[0]);
    assert("reset_node"@[0] != "interfaces"@[0]);
    assert("reset_node"@[0] != "get_events"@[0]);
    assert("reset_node"@[0] != "list_disks"@[0]);
    assert("reset_node"@[0] != "get_health"@[0]);
}

proof fn lemma_tool_reset_node(args: Json)
    ensures
        required_respected(reset_node_def(), args),
        node_respected(reset_node_def(), args),
{
    reveal(reset_node_def);
    lemma_lookup_reset_node(args);
    reveal_with_fuel(first_missing, 4);
}

proof fn lemma_lookup_upgrade_node(args: Json)
    ensures
        tool_commands("upgrade_node"@, args) === Some(single(upgrade_node_command(args))),
{
    reveal(tool_commands);
    reveal_strlit("containers");
    reveal_strlit("stats");
    reveal_strlit("get_processes");
    reveal_strlit("memory_verbose");
    reveal_strlit("get_cpu_memory_usage");
    reveal_strlit("list");
    reveal_strlit("read");
    reveal_strlit("copy");
    reveal_strlit("get_usage");
    reveal_strlit("get_mounts");
    reveal_strlit("interfaces");
    reveal_strlit("routes");
    reveal_strlit("get_netstat");
    reveal_strlit("capture_packets");
    reveal_strlit("get_network_io_cgroups");
    reveal_strlit("list_network_interfaces");
    reveal_strlit("dmesg");
    reveal_strlit("service");
    reveal_strlit("restart");
    reveal_strlit("get_logs");
    reveal_strlit("get_events");
    reveal_strlit("disks");
    reveal_strlit("list_disks");
    reveal_strlit("get_health");
    reveal_strlit("get_version");
    reveal_strlit("get_time");
    reveal_strlit("reboot_node");
    reveal_strlit("shutdown_node");
    reveal_strlit("reset_node");
    reveal_strlit("upgrade_node");
    assert("containers"@.len() == 10);
    assert("stats"@.len() == 5);
    assert("get_processes"@.len() == 13);
    assert("memory_verbose"@.len() == 14);
    assert("get_cpu_memory_usage"@.len() == 20);
    assert("list"@.len() == 4);
    assert("read"@.len() == 4);
    assert("copy"@.len() == 4);
    assert("get_usage"@.len() == 9);
    assert("get_mounts"@.len() == 10);
    assert("interfaces"@.len() == 10);
    assert("routes"@.len() == 6);
    assert("get_netstat"@.len() == 11);
    assert("capture_packets"@.len() == 15);
    assert("get_network_io_cgroups"@.len() == 22);
    assert("list_network_interfaces"@.len() == 23);
    assert("dmesg"@.len() == 5);
    assert("service"@.len() == 7);
    assert("restart"@.len() == 7);
    assert("get_logs"@.len() == 8);
    assert("get_events"@.len() == 10);
    assert("disks"@.len() == 5);
    assert("list_disks"@.len() == 10);
    assert("get_health"@.len() == 10);
    assert("get_version"@.len() == 11);
    assert("get_time"@.len() == 8);
    assert("reboot_node"@.len() == 11);
    assert("shutdown_node"@.len() == 13);
    assert("reset_node"@.len() == 10);
    assert("upgrade_node"@.len() == 12);
}

proof fn lemma_tool_upgrade_node(args: Json)
    ensures
        required_respected(upgrade_node_def(), args),
        node_respected(upgrade_node_def(), args),
{
    reveal(upgrade_node_def);
    lemma_lookup_upgrade_node(args);
    reveal_with_fuel(first_missing, 4);
    assert(upgrade_node_def().required.drop_first() =~= seq!["image"@]);
}

proof fn lemma_lookup_upgrade_k8s(args: Json)
    ensures
        tool_commands("upgrade_k8s"@, args) === Some(single(upgrade_k8s_command(args))),
{
    reveal(tool_commands);
    reveal_strlit("containers");
    reveal_strlit("stats");
    reveal_strlit("get_processes");
    reveal_strlit("memory_verbose");
    reveal_strlit("get_cpu_memory_usage");
    reveal_strlit("list");
    reveal_strlit("read");
    reveal_strlit("copy");
    reveal_strlit("get_usage");
    reveal_strlit("get_mounts");
    reveal_strlit("interfaces");
    reveal_strlit("routes");
    reveal_strlit("get_netstat");
    reveal_strlit("capture_packets");
    reveal_strlit("get_network_io_cgroups");
    reveal_strlit("list_network_interfaces");
    reveal_strlit("dmesg");
    reveal_strlit("service");
    reveal_strlit("restart");
    reveal_strlit("get_logs");
    reveal_strlit("get_events");
    reveal_strlit("disks");
    reveal_strlit("list_disks");
    reveal_strlit("get_health");
    reveal_strlit("get_version");
    reveal_strlit("get_time");
    reveal_strlit("reboot_node");
    reveal_strlit("shutdown_node");
    reveal_strlit("reset_node");
    reveal_strlit("upgrade_node");
    reveal_strlit("upgrade_k8s");
    assert("containers"@.len() == 10);
    assert("stats"@.len() == 5);
    assert("get_processes"@.len() == 13);
    assert("memory_verbose"@.len() == 14);
    assert("get_cpu_memory_usage"@.len() == 20);
    assert("list"@.len() == 4);
    assert("read"@.len() == 4);
    assert("copy"@.len() == 4);
    assert("get_usage"@.len() == 9);
    assert("get_mounts"@.len() == 10);
    assert("interfaces"@.len() == 10);
    assert("routes"@.len() == 6);
    assert("get_netstat"@.len() == 11);
    assert("capture_packets"@.len() == 15);
    assert("get_network_io_cgroups"@.len() == 22);
    assert("list_network_interfaces"@.len() == 23);
    assert("dmesg"@.len() == 5);
    assert("service"@.len() == 7);
    assert("restart"@.len() == 7);
    assert("get_logs"@.len() == 8);
    assert("get_events"@.len() == 10);
    assert("disks"@.len() == 5);
    assert("list_disks"@.len() == 10);
    assert("get_health"@.len() == 10);
    assert("get_version"@.len() == 11);
    assert("get_time"@.len() == 8);
    assert("reboot_node"@.len() == 11);
    assert("shutdown_node"@.len() == 13);
    assert("reset_node"@.len() == 10);
    assert("upgrade_node"@.len() == 12);
    assert("upgrade_k8s"@.len() == 11);
    assert("upgrade_k8s"@[0] != "get_netstat"@[0]);
    assert("upgrade_k8s"@[0] != "get_version"@[0]);
    assert("upgrade_k8s"@[0] != "reboot_node"@[0]);
}

proof fn lemma_tool_upgrade_k8s(args: Json)
    ensures
        required_respected(upgrade_k8s_def(), args),
        node_respected(upgrade_k8s_def(), args),
{
    reveal(upgrade_k8s_def);
    lemma_lookup_upgrade_k8s(args);
    reveal_with_fuel(first_missing, 4);
    assert(upgrade_k8s_def().required.drop_first() =~= seq!["version"@]);
}

proof fn lemma_lookup_apply_config(args: Json)
    ensures
        tool_commands("apply_config"@, args) === Some(single(apply_config_command(args))),
{
    reveal(tool_commands);
    reveal_strlit("containers");
    reveal_strlit("stats");
    reveal_strlit("get_processes");
    reveal_strlit("memory_verbose");
    reveal_strlit("get_cpu_memory_usage");
    reveal_strlit("list");
    reveal_strlit("read");
    reveal_strlit("copy");
    reveal_strlit("get_usage");
    reveal_strlit("get_mounts");
    reveal_strlit("interfaces");
    reveal_strlit("routes");
    reveal_strlit("get_netstat");
    reveal_strlit("capture_packets");
    reveal_strlit("get_network_io_cgroups");
    reveal_strlit("list_network_interfaces");
    reveal_strlit("dmesg");
    reveal_strlit("service");
    reveal_strlit("restart");
    reveal_strlit("get_logs");
    reveal_strlit("get_events");
    reveal_strlit("disks");
    reveal_strlit("list_disks");
    reveal_strlit("get_health");
    reveal_strlit("get_version");
    reveal_strlit("get_time");
    reveal_strlit("reboot_node");
    reveal_strlit("shutdown_node");
    reveal_strlit("reset_node");
    reveal_strlit("upgrade_node");
    reveal_strlit("upgrade_k8s");
    reveal_strlit("apply_config");
    assert("containers"@.len() == 10);
    assert("stats"@.len() == 5);
    assert("get_processes"@.len() == 13);
    assert("memory_verbose"@.len() == 14);
    assert("get_cpu_memory_usage"@.len() == 20);
    assert("list"@.len() == 4);
    assert("read"@.len() == 4);
    assert("copy"@.len() == 4);
    assert("get_usage"@.len() == 9);
    assert("get_mounts"@.len() == 10);
    assert("interfaces"@.len() == 10);
    assert("routes"@.len() == 6);
    assert("get_netstat"@.len() == 11);
    assert("capture_packets"@.len() == 15);
    assert("get_network_io_cgroups"@.len() == 22);
    assert("list_network_interfaces"@.len() == 23);
    assert("dmesg"@.len() == 5);
    assert("service"@.len() == 7);
    assert("restart"@.len() == 7);
    assert("get_logs"@.len() == 8);
    assert("get_events"@.len() == 10);
    assert("disks"@.len() == 5);
    assert("list_disks"@.len() == 10);
    assert("get_health"@.len() == 10);
    assert("get_version"@.len() == 11);
    assert("get_time"@.len() == 8);
    assert("reboot_node"@.len() == 11);
    assert("shutdown_node"@.len() == 13);
    assert("reset_node"@.len() == 10);
    assert("upgrade_node"@.len() == 12);
    assert("upgrade_k8s"@.len() == 11);
    assert("apply_config"@.len() == 12);
    assert("apply_config"@[0] != "upgrade_node"@[0]);
}

proof fn lemma_tool_apply_config(args: Json)
    ensures
        required_respected(apply_config_def(), args),
        node_respected(apply_config_def(), args),
{
    reveal(apply_config_def);
    lemma_lookup_apply_config(args);
    reveal_with_fuel(first_missing, 4);
    assert(apply_config_def().required.drop_first() =~= seq!["file"@]);
}

proof fn lemma_lookup_validate_config(args: Json)
    ensures
        tool_commands("validate_config"@, args) === Some(single(validate_config_command(args))),
{
    reveal(tool_commands);
    reveal_strlit("containers");
    reveal_strlit("stats");
    reveal_strlit("get_processes");
    reveal_strlit("memory_verbose");
    reveal_strlit("get_cpu_memory_usage");
    reveal_strlit("list");
    reveal_strlit("read");
    reveal_strlit("copy");
    reveal_strlit("get_usage");
    reveal_strlit("get_mounts");
    reveal_strlit("interfaces");
    reveal_strlit("routes");
    reveal_strlit("get_netstat");
    reveal_strlit("capture_packets");
    reveal_strlit("get_network_io_cgroups");
    reveal_strlit("list_network_interfaces");
    reveal_strlit("dmesg");
    reveal_strlit("service");
    reveal_strlit("restart");
    reveal_strlit("get_logs");
    reveal_strlit("get_events");
    reveal_strlit("disks");
    reveal_strlit("list_disks");
    reveal_strlit("get_health");
    reveal_strlit("get_version");
    reveal_strlit("get_time");
    reveal_strlit("reboot_node");
    reveal_strlit("shutdown_node");
    reveal_strlit("reset_node");
    reveal_strlit("upgrade_node");
    reveal_strlit("upgrade_k8s");
    reveal_strlit("apply_config");
    reveal_strlit("validate_config");
    assert("containers"@.len() == 10);
    assert("stats"@.len() == 5);
    assert("get_processes"@.len() == 13);
    assert("memory_verbose"@.len() == 14);
    assert("get_cpu_memory_usage"@.len() == 20);
    assert("list"@.len() == 4);
    assert("read"@.len() == 4);
    assert("copy"@.len() == 4);
    assert("get_usage"@.len() == 9);
    assert("get_mounts"@.len() == 10);
    assert("interfaces"@.len() == 10);
    assert("routes"@.len() == 6);
    assert("get_netstat"@.len() == 11);
    assert("capture_packets"@.len() == 15);
    assert("get_network_io_cgroups"@.len() == 22);
    assert("list_network_interfaces"@.len() == 23);
    assert("dmesg"@.len() == 5);
    assert("service"@.len() == 7);
    assert("restart"@.len() == 7);
    assert("get_logs"@.len() == 8);
    assert("get_events"@.len() == 10);
    assert("disks"@.len() == 5);
    assert("list_disks"@.len() == 10);
    assert("get_health"@.len() == 10);
    assert("get_version"@.len() == 11);
    assert("get_time"@.len() == 8);
    assert("reboot_node"@.len() == 11);
    assert("shutdown_node"@.len() == 13);
    assert("reset_node"@.len() == 10);
    assert("upgrade_node"@.len() == 12);
    assert("upgrade_k8s"@.len() == 11);
    assert("apply_config"@.len() == 12);
    assert("validate_config"@.len() == 15);
    assert("validate_config"@[0] != "capture_packets"@[0]);
}

proof fn lemma_tool_validate_config(args: Json)
    ensures
        required_respected(validate_config_def(), args),
        node_respected(validate_config_def(), args),
{
    reveal(validate_config_def);
    lemma_lookup_validate_config(args);
    reveal_with_fuel(first_missing, 4);
    assert(node_respected(validate_config_def(), args)) by {
        reveal_strlit("file");
        reveal_strlit("node");
        assert("file"@[0] != "node"@[0]);
    }
}

proof fn lemma_lookup_get_etcd_status(args: Json)
    ensures
        tool_commands("get_etcd_status"@, args) === Some(single(get_etcd_status_command(args))),
{
    reveal(tool_commands);
    reveal_strlit("containers");
    reveal_strlit("stats");
    reveal_strlit("get_processes");
    reveal_strlit("memory_verbose");
    reveal_strlit("get_cpu_memory_usage");
    reveal_strlit("list");
    reveal_strlit("read");
    reveal_strlit("copy");
    reveal_strlit("get_usage");
    reveal_strlit("get_mounts");
    reveal_strlit("interfaces");
    reveal_strlit("routes");
    reveal_strlit("get_netstat");
    reveal_strlit("capture_packets");
    reveal_strlit("get_network_io_cgroups");
    reveal_strlit("list_network_interfaces");
    reveal_strlit("dmesg");
    reveal_strlit("service");
    reveal_strlit("restart");
    reveal_strlit("get_logs");
    reveal_strlit("get_events");
    reveal_strlit("disks");
    reveal_strlit("list_disks");
    reveal_strlit("get_health");
    reveal_strlit("get_version");
    reveal_strlit("get_time");
    reveal_strlit("reboot_node");
    reveal_strlit("shutdown_node");
    reveal_strlit("reset_node");
    reveal_strlit("upgrade_node");
    reveal_strlit("upgrade_k8s");
    reveal_strlit("apply_config");
    reveal_strlit("validate_config");
    reveal_strlit("get_etcd_status");
    assert("containers"@.len() == 10);
    assert("stats"@.len() == 5);
    assert("get_processes"@.len() == 13);
    assert("memory_verbose"@.len() == 14);
    assert("get_cpu_memory_usage"@.len() == 20);
    assert("list"@.len() == 4);
    assert("read"@.len() == 4);
    assert("copy"@.len() == 4);
    assert("get_usage"@.len() == 9);
    assert("get_mounts"@.len() == 10);
    assert("interfaces"@.len() == 10);
    assert("routes"@.len() == 6);
    assert("get_netstat"@.len() == 11);
    assert("capture_packets"@.len() == 15);
    assert("get_network_io_cgroups"@.len() == 22);
    assert("list_network_interfaces"@.len() == 23);
    assert("dmesg"@.len() == 5);
    assert("service"@.len() == 7);
    assert("restart"@.len() == 7);
    assert("get_logs"@.len() == 8);
    assert("get_events"@.len() == 10);
    assert("disks"@.len() == 5);
    assert("list_disks"@.len() == 10);
    assert("get_health"@.len() == 10);
    assert("get_version"@.len() == 11);
    assert("get_time"@.len() == 8);
    assert("reboot_node"@.len() == 11);
    assert("shutdown_node"@.len() == 13);
    assert("reset_node"@.len() == 10);
    assert("upgrade_node"@.len() == 12);
    assert("upgrade_k8s"@.len() == 11);
    assert("apply_config"@.len() == 12);
    assert("validate_config"@.len() == 15);
    assert("get_etcd_status"@.len() == 15);
    assert("get_etcd_status"@[0] != "capture_packets"@[0]);
    assert("get_etcd_status"@[0] != "validate_config"@[0]);
}

proof fn lemma_tool_get_etcd_status(args: Json)
    ensures
        required_respected(get_etcd_status_def(), args),
        node_respected(get_etcd_status_def(), args),
{
    reveal(get_etcd_status_def);
    lemma_lookup_get_etcd_status(args);
    reveal_with_fuel(first_missing, 4);
}

proof fn lemma_lookup_get_etcd_members(args: Json)
    ensures
        tool_commands("get_etcd_members"@, args) === Some(single(get_etcd_members_command(args))),
{
    reveal(tool_commands);
    reveal_strlit("containers");
    reveal_strlit("stats");
    reveal_strlit("get_processes");
    reveal_strlit("memory_verbose");
    reveal_strlit("get_cpu_memory_usage");
    reveal_strlit("list");
    reveal_strlit("read");
    reveal_strlit("copy");
    reveal_strlit("get_usage");
    reveal_strlit("get_mounts");
    reveal_strlit("interfaces");
    reveal_strlit("routes");
    reveal_strlit("get_netstat");
    reveal_strlit("capture_packets");
    reveal_strlit("get_network_io_cgroups");
    reveal_strlit("list_network_interfaces");
    reveal_strlit("dmesg");
    reveal_strlit("service");
    reveal_strlit("restart");
    reveal_strlit("get_logs");
    reveal_strlit("get_events");
    reveal_strlit("disks");
    reveal_strlit("list_disks");
    reveal_strlit("get_health");
    reveal_strlit("get_version");
    reveal_strlit("get_time");
    reveal_strlit("reboot_node");
    reveal_strlit("shutdown_node");
    reveal_strlit("reset_node");
    reveal_strlit("upgrade_node");
    reveal_strlit("upgrade_k8s");
    reveal_strlit("apply_config");
    reveal_strlit("validate_config");
    reveal_strlit("get_etcd_status");
    reveal_strlit("get_etcd_members");
    assert("containers"@.len() == 10);
    assert("stats"@.len() == 5);
    assert("get_processes"@.len() == 13);
    assert("memory_verbose"@.len() == 14);
    assert("get_cpu_memory_usage"@.len() == 20);
    assert("list"@.len() == 4);
    assert("read"@.len() == 4);
    assert("copy"@.len() == 4);
    assert("get_usage"@.len() == 9);
    assert("get_mounts"@.len() == 10);
    assert("interfaces"@.len() == 10);
    assert("routes"@.len() == 6);
    assert("get_netstat"@.len() == 11);
    assert("capture_packets"@.len() == 15);
    assert("get_network_io_cgroups"@.len() == 22);
    assert("list_network_interfaces"@.len() == 23);
    assert("dmesg"@.len() == 5);
    assert("service"@.len() == 7);
    assert("restart"@.len() == 7);
    assert("get_logs"@.len() == 8);
    assert("get_events"@.len() == 10);
    assert("disks"@.len() == 5);
    assert("list_disks"@.len() == 10);
    assert("get_health"@.len() == 10);
    assert("get_version"@.len() == 11);
    assert("get_time"@.len() == 8);
    assert("reboot_node"@.len() == 11);
    assert("shutdown_node"@.len() == 13);
    assert("reset_node"@.len() == 10);
    assert("upgrade_node"@.len() == 12);
    assert("upgrade_k8s"@.len() == 11);
    assert("apply_config"@.len() == 12);
    assert("validate_config"@.len() == 15);
    assert("get_etcd_status"@.len() == 15);
    assert("get_etcd_members"@.len() == 16);
}

proof fn lemma_tool_get_etcd_members(args: Json)
    ensures
        required_respected(get_etcd_members_def(), args),
        node_respected(get_etcd_members_def(), args),
{
    reveal(get_etcd_members_def);
    lemma_lookup_get_etcd_members(args);
    reveal_with_fuel(first_missing, 4);
}

proof fn lemma_lookup_bootstrap_etcd(args: Json)
    ensures
        tool_commands("bootstrap_etcd"@, args) === Some(single(bootstrap_etcd_command(args))),
{
    reveal(tool_commands);
    reveal_strlit("containers");
    reveal_strlit("stats");
    reveal_strlit("get_processes");
    reveal_strlit("memory_verbose");
    reveal_strlit("get_cpu_memory_usage");
    reveal_strlit("list");
    reveal_strlit("read");
    reveal_strlit("copy");
    reveal_strlit("get_usage");
    reveal_strlit("get_mounts");
    reveal_strlit("interfaces");
    reveal_strlit("routes");
    reveal_strlit("get_netstat");
    reveal_strlit("capture_packets");
    reveal_strlit("get_network_io_cgroups");
    reveal_strlit("list_network_interfaces");
    reveal_strlit("dmesg");
    reveal_strlit("service");
    reveal_strlit("restart");
    reveal_strlit("get_logs");
    reveal_strlit("get_events");
    reveal_strlit("disks");
    reveal_strlit("list_disks");
    reveal_strlit("get_health");
    reveal_strlit("get_version");
    reveal_strlit("get_time");
    reveal_strlit("reboot_node");
    reveal_strlit("shutdown_node");
    reveal_strlit("reset_node");
    reveal_strlit("upgrade_node");
    reveal_strlit("upgrade_k8s");
    reveal_strlit("apply_config");
    reveal_strlit("validate_config");
    reveal_strlit("get_etcd_status");
    reveal_strlit("get_etcd_members");
    reveal_strlit("bootstrap_etcd");
    assert("containers"@.len() == 10);
    assert("stats"@.len() == 5);
    assert("get_processes"@.len() == 13);
    assert("memory_verbose"@.len() == 14);
    assert("get_cpu_memory_usage"@.len() == 20);
    assert("list"@.len() == 4);
    assert("read"@.len() == 4);
    assert("copy"@.len() == 4);
    assert("get_usage"@.len() == 9);
    assert("get_mounts"@.len() == 10);
    assert("interfaces"@.len() == 10);
    assert("routes"@.len() == 6);
    assert("get_netstat"@.len() == 11);
    assert("capture_packets"@.len() == 15);
    assert("get_network_io_cgroups"@.len() == 22);
    assert("list_network_interfaces"@.len() == 23);
    assert("dmesg"@.len() == 5);
    assert("service"@.len() == 7);
    assert("restart"@.len() == 7);
    assert("get_logs"@.len() == 8);
    assert("get_events"@.len() == 10);
    assert("disks"@.len() == 5);
    assert("list_disks"@.len() == 10);
    assert("get_health"@.len() == 10);
    assert("get_version"@.len() == 11);
    assert("get_time"@.len() == 8);
    assert("reboot_node"@.len() == 11);
    assert("shutdown_node"@.len() == 13);
    assert("reset_node"@.len() == 10);
    assert("upgrade_node"@.len() == 12);
    assert("upgrade_k8s"@.len() == 11);
    assert("apply_config"@.len() == 12);
    assert("validate_config"@.len() == 15);
    assert("get_etcd_status"@.len() == 15);
    assert("get_etcd_members"@.len() == 16);
    assert("bootstrap_etcd"@.len() == 14);
    assert("bootstrap_etcd"@[0] != "memory_verbose"@[0]);
}

proof fn lemma_tool_bootstrap_etcd(args: Json)
    ensures
        required_respected(bootstrap_etcd_def(), args),
        node_respected(bootstrap_etcd_def(), args),
{
    reveal(bootstrap_etcd_def);
    lemma_lookup_bootstrap_etcd(args);
    reveal_with_fuel(first_missing, 4);
}

proof fn lemma_lookup_defrag_etcd(args: Json)
    ensures
        tool_commands("defrag_etcd"@, args) === Some(single(defrag_etcd_command(args))),
{
    reveal(tool_commands);
    reveal_strlit("containers");
    reveal_strlit("stats");
    reveal_strlit("get_processes");
    reveal_strlit("memory_verbose");
    reveal_strlit("get_cpu_memory_usage");
    reveal_strlit("list");
    reveal_strlit("read");
    reveal_strlit("copy");
    reveal_strlit("get_usage");
    reveal_strlit("get_mounts");
    reveal_strlit("interfaces");
    reveal_strlit("routes");
    reveal_strlit("get_netstat");
    reveal_strlit("capture_packets");
    reveal_strlit("get_network_io_cgroups");
    reveal_strlit("list_network_interfaces");
    reveal_strlit("dmesg");
    reveal_strlit("service");
    reveal_strlit("restart");
    reveal_strlit("get_logs");
    reveal_strlit("get_events");
    reveal_strlit("disks");
    reveal_strlit("list_disks");
    reveal_strlit("get_health");
    reveal_strlit("get_version");
    reveal_strlit("get_time");
    reveal_strlit("reboot_node");
    reveal_strlit("shutdown_node");
    reveal_strlit("reset_node");
    reveal_strlit("upgrade_node");
    reveal_strlit("upgrade_k8s");
    reveal_strlit("apply_config");
    reveal_strlit("validate_config");
    reveal_strlit("get_etcd_status");
    reveal_strlit("get_etcd_members");
    reveal_strlit("bootstrap_etcd");
    reveal_strlit("defrag_etcd");
    assert("containers"@.len() == 10);
    assert("stats"@.len() == 5);
    assert("get_processes"@.len() == 13);
    assert("memory_verbose"@.len() == 14);
    assert("get_cpu_memory_usage"@.len() == 20);
    assert("list"@.len() == 4);
    assert("read"@.len() == 4);
    assert("copy"@.len() == 4);
    assert("get_usage"@.len() == 9);
    assert("get_mounts"@.len() == 10);
    assert("interfaces"@.len() == 10);
    assert("routes"@.len() == 6);
    assert("get_netstat"@.len() == 11);
    assert("capture_packets"@.len() == 15);
    assert("get_network_io_cgroups"@.len() == 22);
    assert("list_network_interfaces"@.len() == 23);
    assert("dmesg"@.len() == 5);
    assert("service"@.len() == 7);
    assert("restart"@.len() == 7);
    assert("get_logs"@.len() == 8);
    assert("get_events"@.len() == 10);
    assert("disks"@.len() == 5);
    assert("list_disks"@.len() == 10);
    assert("get_health"@.len() == 10);
    assert("get_version"@.len() == 11);
    assert("get_time"@.len() == 8);
    assert("reboot_node"@.len() == 11);
    assert("shutdown_node"@.len() == 13);
    assert("reset_node"@.len() == 10);
    assert("upgrade_node"@.len() == 12);
    assert("upgrade_k8s"@.len() == 11);
    assert("apply_config"@.len() == 12);
    assert("validate_config"@.len() == 15);
    assert("get_etcd_status"@.len() == 15);
    assert("get_etcd_members"@.len() == 16);
    assert("bootstrap_etcd"@.len() == 14);
    assert("defrag_etcd"@.len() == 11);
    assert("defrag_etcd"@[0] != "get_netstat"@[0]);
    assert("defrag_etcd"@[0] != "get_version"@[0]);
    assert("defrag_etcd"@[0] != "reboot_node"@[0]);
    assert("defrag_etcd"@[0] != "upgrade_k8s"@[0]);
}

proof fn lemma_tool_defrag_etcd(args: Json)
    ensures
        required_respected(defrag_etcd_def(), args),
        node_respected(defrag_etcd_def(), args),
{
    reveal(defrag_etcd_def);
    lemma_lookup_defrag_etcd(args);
    reveal_with_fuel(first_missing, 4);
}

proof fn lemma_tool_at(i: int, args: Json)
    requires
        0 <= i < tool_defs().len(),
    ensures
        required_respected(tool_defs()[i], args),
        node_respected(tool_defs()[i], args),
{
    if i == 0 {
        lemma_tool_containers(args);
    } else if i == 1 {
        lemma_tool_stats(args);
    } else if i == 2 {
        lemma_tool_get_processes(args);
    } else if i == 3 {
        lemma_tool_memory_verbose(args);
    } else if i == 4 {
        lemma_tool_get_cpu_memory_usage(args);
    } else if i == 5 {
        lemma_tool_list(args);
    } else if i == 6 {
        lemma_tool_read(args);
    } else if i == 7 {
        lemma_tool_copy(args);
    } else if i == 8 {
        lemma_tool_get_usage(args);
    } else if i == 9 {
        lemma_tool_get_mounts(args);
    } else if i == 10 {
        lemma_tool_interfaces(args);
    } else if i == 11 {
        lemma_tool_routes(args);
    } else if i == 12 {
        lemma_tool_get_netstat(args);
    } else if i == 13 {
        lemma_tool_capture_packets(args);
    } else if i == 14 {
        lemma_tool_get_network_io_cgroups(args);
    } else if i == 15 {
        lemma_tool_list_network_interfaces(args);
    } else if i == 16 {
        lemma_tool_dmesg(args);
    } else if i == 17 {
        lemma_tool_service(args);
    } else if i == 18 {
        lemma_tool_restart(args);
    } else if i == 19 {
        lemma_tool_get_logs(args);
    } else if i == 20 {
        lemma_tool_get_events(args);
    } else if i == 21 {
        lemma_tool_disks(args);
    } else if i == 22 {
        lemma_tool_list_disks(args);
    } else if i == 23 {
        lemma_tool_get_health(args);
    } else if i == 24 {
        lemma_tool_get_version(args);
    } else if i == 25 {
        lemma_tool_get_time(args);
    } else if i == 26 {
        lemma_tool_reboot_node(args);
    } else if i == 27 {
        lemma_tool_shutdown_node(args);
    } else if i == 28 {
        lemma_tool_reset_node(args);
    } else if i == 29 {
        lemma_tool_upgrade_node(args);
    } else if i == 30 {
        lemma_tool_upgrade_k8s(args);
    } else if i == 31 {
        lemma_tool_apply_config(args);
    } else if i == 32 {
        lemma_tool_validate_config(args);
    } else if i == 33 {
        lemma_tool_get_etcd_status(args);
    } else if i == 34 {
        lemma_tool_get_etcd_members(args);
    } else if i == 35 {
        lemma_tool_bootstrap_etcd(args);
    } else if i == 36 {
        lemma_tool_defrag_etcd(args);
    }
}

/// The names of the listed tools.
pub open spec fn listed_names() -> Seq<Seq<char>> {
    tool_defs().map_values(|t: ToolDef| t.name)
}

proof fn lemma_listed_names()
    ensures
        listed_names() == tool_names(),
{
    reveal(containers_def);
    reveal(stats_def);
    reveal(get_processes_def);
    reveal(memory_verbose_def);
    reveal(get_cpu_memory_usage_def);
    reveal(list_def);
    reveal(read_def);
    reveal(copy_def);
    reveal(get_usage_def);
    reveal(get_mounts_def);
    reveal(interfaces_def);
    reveal(routes_def);
    reveal(get_netstat_def);
    reveal(capture_packets_def);
    reveal(get_network_io_cgroups_def);
    reveal(list_network_interfaces_def);
    reveal(dmesg_def);
    reveal(service_def);
    reveal(restart_def);
    reveal(get_logs_def);
    reveal(get_events_def);
    reveal(disks_def);
    reveal(list_disks_def);
    reveal(get_health_def);
    reveal(get_version_def);
    reveal(get_time_def);
    reveal(reboot_node_def);
    reveal(shutdown_node_def);
    reveal(reset_node_def);
    reveal(upgrade_node_def);
    reveal(upgrade_k8s_def);
    reveal(apply_config_def);
    reveal(validate_config_def);
    reveal(get_etcd_status_def);
    reveal(get_etcd_members_def);
    reveal(bootstrap_etcd_def);
    reveal(defrag_etcd_def);
    assert(listed_names() =~= tool_names());
}

/// A tool can be called exactly when `tools/list` lists it: every listed
/// name reaches a tool, and every other name is an unknown tool.
pub proof fn law_listed_tools_are_callable(name: Seq<char>, args: Json)
    ensures
        (tool_commands(name, args) is Some) <==> listed_names().contains(name),
{
    lemma_listed_names();
    reveal(tool_commands);
    let names = tool_names();
    if name == "containers"@ {
        assert(names[0] == name);
    } else if name == "stats"@ {
        assert(names[1] == name);
    } else if name == "get_processes"@ {
        assert(names[2] == name);
    } else if name == "memory_verbose"@ {
        assert(names[3] == name);
    } else if name == "get_cpu_memory_usage"@ {
        assert(names[4] == name);
    } else if name == "list"@ {
        assert(names[5] == name);
    } else if name == "read"@ {
        assert(names[6] == name);
    } else if name == "copy"@ {
        assert(names[7] == name);
    } else if name == "get_usage"@ {
        assert(names[8] == name);
    } else if name == "get_mounts"@ {
        assert(names[9] == name);
    } else if name == "interfaces"@ {
        assert(names[10] == name);
    } else if name == "routes"@ {
        assert(names[11] == name);
    } else if name == "get_netstat"@ {
        assert(names[12] == name);
    } else if name == "capture_packets"@ {
        assert(names[13] == name);
    } else if name == "get_network_io_cgroups"@ {
        assert(names[14] == name);
    } else if name == "list_network_interfaces"@ {
        assert(names[15] == name);
    } else if name == "dmesg"@ {
        assert(names[16] == name);
    } else if name == "service"@ {
        assert(names[17] == name);
    } else if name == "restart"@ {
        assert(names[18] == name);
    } else if name == "get_logs"@ {
        assert(names[19] == name);
    } else if name == "get_events"@ {
        assert(names[20] == name);
    } else if name == "disks"@ {
        assert(names[21] == name);
    } else if name == "list_disks"@ {
        assert(names[22] == name);
    } else if name == "get_health"@ {
        assert(names[23] == name);
    } else if name == "get_version"@ {
        assert(names[24] == name);
    } else if name == "get_time"@ {
        assert(names[25] == name);
    } else if name == "reboot_node"@ {
        assert(names[26] == name);
    } else if name == "shutdown_node"@ {
        assert(names[27] == name);
    } else if name == "reset_node"@ {
        assert(names[28] == name);
    } else if name == "upgrade_node"@ {
        assert(names[29] == name);
    } else if name == "upgrade_k8s"@ {
        assert(names[30] == name);
    } else if name == "apply_config"@ {
        assert(names[31] == name);
    } else if name == "validate_config"@ {
        assert(names[32] == name);
    } else if name == "get_etcd_status"@ {
        assert(names[33] == name);
    } else if name == "get_etcd_members"@ {
        assert(names[34] == name);
    } else if name == "bootstrap_etcd"@ {
        assert(names[35] == name);
    } else if name == "defrag_etcd"@ {
        assert(names[36] == name);
    }
}

/// A call of a listed tool that lacks a parameter which the tool's schema
/// requires fails, naming the first such parameter, before anything runs;
/// with all required parameters given, it runs (save for `service` with an
/// action it does not know).
pub proof fn law_required_parameters(i: int, args: Json)
    requires
        0 <= i < tool_defs().len(),
    ensures
        required_respected(tool_defs()[i], args),
{
    lemma_tool_at(i, args);
}

/// A listed tool whose first required parameter is `node` (except `copy`)
/// runs every command against the node that the call names.
pub proof fn law_commands_target_the_node(i: int, args: Json)
    requires
        0 <= i < tool_defs().len(),
    ensures
        node_respected(tool_defs()[i], args),
{
    lemma_tool_at(i, args);
}

/// Every reply to a request carries version "2.0", the id of the request,
/// and exactly one of a result and an error.
pub proof fn law_replies_are_well_formed(req: RpcRequest)
    ensures
        request_next(req) matches Next::Reply(r) ==> well_formed_reply(r) && r.id == req.id,
{
}

/// Every reply that ends a tool call carries version "2.0", the id of the
/// request, and a result.
pub proof fn law_tool_call_replies_are_well_formed(c: CallState, r: Result<Seq<char>, Seq<char>>)
    ensures
        resume_next(c, r) matches Next::Reply(resp) ==> well_formed_reply(resp) && resp.id == c.id
            && resp.result is Some,
{
}

/// The replies of a tool call when its commands come back with `results`,
/// one after the other; `Run` where it still waits for a command.
pub open spec fn run_call(c: CallState, results: Seq<Result<Seq<char>, Seq<char>>>) -> Next
    decreases results.len(),
{
    if results.len() == 0 {
        Next::Run(c)
    } else {
        match resume_next(c, results[0]) {
            Next::Run(next) => run_call(next, results.drop_first()),
            reply => reply,
        }
    }
}

pub open spec fn all_ok(outputs: Seq<Seq<char>>) -> Seq<Result<Seq<char>, Seq<char>>> {
    outputs.map_values(|o: Seq<char>| Ok::<Seq<char>, Seq<char>>(o))
}

/// A tool call whose remaining commands all succeed replies with the text
/// that the tool makes of all its outputs.
pub proof fn law_successful_call_replies_with_the_tool_text(c: CallState, outputs: Seq<Seq<char>>)
    requires
        c.outputs.len() < c.commands.len(),
        c.outputs.len() + outputs.len() == c.commands.len(),
    ensures
        run_call(c, all_ok(outputs)) == Next::Reply(
            success_reply(c.id, tool_reply_json(Ok(tool_output(c.form, c.outputs + outputs)))),
        ),
    decreases outputs.len(),
{
    let rs = all_ok(outputs);
    assert(rs[0] == Ok::<Seq<char>, Seq<char>>(outputs[0]));
    let pushed = c.outputs.push(outputs[0]);
    if pushed.len() < c.commands.len() {
        let next = CallState { outputs: pushed, ..c };
        assert(rs.drop_first() =~= all_ok(outputs.drop_first()));
        law_successful_call_replies_with_the_tool_text(next, outputs.drop_first());
        assert(pushed + outputs.drop_first() =~= c.outputs + outputs);
    } else {
        assert(pushed =~= c.outputs + outputs);
    }
}

/// A tool call stops at the first command that fails, and replies with the
/// message of that failure as an error result.
pub proof fn law_failed_command_ends_the_call(c: CallState, outputs: Seq<Seq<char>>, message: Seq<char>)
    requires
        c.outputs.len() + outputs.len() < c.commands.len(),
    ensures
        run_call(c, all_ok(outputs).push(Err(message))) == Next::Reply(
            success_reply(c.id, tool_reply_json(Err(message))),
        ),
    decreases outputs.len(),
{
    let rs = all_ok(outputs).push(Err(message));
    if outputs.len() > 0 {
        assert(rs[0] == Ok::<Seq<char>, Seq<char>>(outputs[0]));
        let next = CallState { outputs: c.outputs.push(outputs[0]), ..c };
        assert(rs.drop_first() =~= all_ok(outputs.drop_first()).push(Err(message)));
        law_failed_command_ends_the_call(next, outputs.drop_first(), message);
    } else {
        assert(rs[0] == Err::<Seq<char>, Seq<char>>(message));
    }
}

/// Every listed schema is an object with the tool's name, a description,
/// and an input schema of type `object` with its properties and the list
/// of required parameters.
pub proof fn law_listed_schemas_are_valid(t: ToolDef)
    ensures
        json_get(schema_json(t), "name"@) == Some(Json::Str(t.name)),
        json_get(schema_json(t), "description"@) == Some(Json::Str(t.description)),
        json_get(schema_json(t), "inputSchema"@) matches Some(s) && (json_get(s, "type"@) == Some(
            Json::Str("object"@),
        ) && json_get(s, "properties"@) == Some(Json::Object(properties_json(t.params)))
            && json_get(s, "required"@) == Some(Json::Array(json_texts(t.required)))),
{
    reveal_strlit("name");
    reveal_strlit("description");
    reveal_strlit("inputSchema");
    reveal_strlit("type");
    reveal_strlit("properties");
    reveal_strlit("required");
    assert("name"@.len() == 4);
    assert("description"@.len() == 11);
    assert("inputSchema"@.len() == 11);
    assert("description"@[0] != "inputSchema"@[0]);
    assert("type"@.len() == 4);
    assert("properties"@.len() == 10);
    assert("required"@.len() == 8);
    reveal_with_fuel(json_lookup, 3);
}

/// Input that is not a request is answered with a parse error and no id.
pub proof fn law_unreadable_input_is_a_parse_error()
    ensures
        incoming_next(None) matches Next::Reply(r) && (well_formed_reply(r) && r.id is None && (
        r.error matches Some(e) && e.code == PARSE_ERROR)),
{
}

/// The one command line of a call that runs exactly one.
pub open spec fn only_command(r: Option<Result<Seq<Seq<Seq<char>>>, Seq<char>>>) -> Option<
    Seq<Seq<char>>,
> {
    match r {
        Some(Ok(cmds)) => if cmds.len() == 1 {
            Some(cmds[0])
        } else {
            None
        },
        _ => None,
    }
}

/// `list` lists the directory that the call names, and the root directory
/// only where the call names none: its command line is `--nodes <node> ls`
/// followed by that path.
pub proof fn law_list_lists_the_requested_path(args: Json, node: Seq<char>)
    requires
        arg_str(args, "node"@) == Some(node),
    ensures
        only_command(tool_commands("list"@, args)) matches Some(c) && (c.len() >= 4
            && c.take(3) == seq!["--nodes"@, node, "ls"@] && (arg_str(args, "path"@) matches Some(
            p,
        ) ==> c[3] == p) && (arg_str(args, "path"@) is None ==> c[3] == "/"@)),
{
    lemma_lookup_list(args);
    let c = list_command(args)->Ok_0;
    assert(c.take(3) =~= seq!["--nodes"@, node, "ls"@]);
}

/// `upgrade_node` upgrades the node that the call names to the image that
/// it names, and passes `--preserve` exactly when `preserve` is true and
/// `--stage` exactly when `stage` is true, and no other option.
pub proof fn law_upgrade_node_options(args: Json, node: Seq<char>, image: Seq<char>)
    requires
        arg_str(args, "node"@) == Some(node),
        arg_str(args, "image"@) == Some(image),
    ensures
        only_command(tool_commands("upgrade_node"@, args)) matches Some(c) && (c.len() >= 5
            && c.take(5) == seq!["--nodes"@, node, "upgrade"@, "--image"@, image] && (c.skip(
            5,
        ).contains("--preserve"@) <==> arg_flag(args, "preserve"@)) && (c.skip(5).contains(
            "--stage"@,
        ) <==> arg_flag(args, "stage"@)) && c.len() <= 7),
{
    lemma_lookup_upgrade_node(args);
    reveal_strlit("--preserve");
    reveal_strlit("--stage");
    assert("--preserve"@.len() == 10);
    assert("--stage"@.len() == 7);
    let c = upgrade_node_command(args)->Ok_0;
    let base = seq!["--nodes"@, node, "upgrade"@, "--image"@, image];
    let p = arg_flag(args, "preserve"@);
    let t = arg_flag(args, "stage"@);
    let opts = c.skip(5);
    assert(c.take(5) =~= base);
    if p && t {
        assert(opts =~= seq!["--preserve"@, "--stage"@]);
        assert(opts[0] == "--preserve"@);
        assert(opts[1] == "--stage"@);
    } else if p {
        assert(opts =~= seq!["--preserve"@]);
        assert(opts[0] == "--preserve"@);
    } else if t {
        assert(opts =~= seq!["--stage"@]);
        assert(opts[0] == "--stage"@);
    } else {
        assert(opts =~= Seq::<Seq<char>>::empty());
    }
}

/// `capture_packets` captures on the interface that the call names, and
/// for as long as the `duration` that it gives: `--duration` followed by
/// its numeral comes right after the interface; without a duration only
/// the context option follows.
pub proof fn law_capture_packets_duration(args: Json, node: Seq<char>, interface: Seq<char>)
    requires
        arg_str(args, "node"@) == Some(node),
        arg_str(args, "interface"@) == Some(interface),
    ensures
        only_command(tool_commands("capture_packets"@, args)) matches Some(c) && (c.len() >= 5
            && c.take(5) == seq!["--nodes"@, node, "pcap"@, "-i"@, interface] && (arg_int(
            args,
            "duration"@,
        ) matches Some(d) ==> c.len() >= 7 && c[5] == "--duration"@ && c[6] == int_decimal(
            d as int,
        )) && (arg_int(args, "duration"@) is None ==> c.skip(5) == in_context(args))),
{
    lemma_lookup_capture_packets(args);
    let c = capture_packets_command(args)->Ok_0;
    assert(c.take(5) =~= seq!["--nodes"@, node, "pcap"@, "-i"@, interface]);
    if arg_int(args, "duration"@) is None {
        assert(c.skip(5) =~= in_context(args));
    }
}

/// `restart` restarts the service that the call names: it runs what
/// `service` runs with the action `restart`, and its command line is
/// `--nodes <node> service <service> restart` and then the context option.
pub proof fn law_restart_restarts(args: Json, node: Seq<char>, service: Seq<char>)
    requires
        arg_str(args, "node"@) == Some(node),
        arg_str(args, "service"@) == Some(service),
    ensures
        only_command(tool_commands("restart"@, args)) == Some(
            seq!["--nodes"@, node, "service"@, service, "restart"@] + in_context(args),
        ),
        arg_str(args, "action"@) == Some("restart"@) ==> tool_commands("restart"@, args)
            == tool_commands("service"@, args),
{
    lemma_lookup_restart(args);
    lemma_lookup_service(args);
}

/// `apply_config` applies the file that the call names in the mode that it
/// gives: the command line ends with `--mode <mode>` where a mode is given,
/// and holds no option at all where none is.
pub proof fn law_apply_config_mode(args: Json, node: Seq<char>, file: Seq<char>)
    requires
        arg_str(args, "node"@) == Some(node),
        arg_str(args, "file"@) == Some(file),
    ensures
        only_command(tool_commands("apply_config"@, args)) matches Some(c) && (c.len() >= 5
            && c.take(5) == seq!["--nodes"@, node, "apply-config"@, "--file"@, file] && (arg_str(
            args,
            "mode"@,
        ) matches Some(m) ==> c.skip(5) == seq!["--mode"@, m]) && (arg_str(args, "mode"@) is None
            ==> c.len() == 5)),
{
    lemma_lookup_apply_config(args);
    let c = apply_config_command(args)->Ok_0;
    assert(c.take(5) =~= seq!["--nodes"@, node, "apply-config"@, "--file"@, file]);
    if arg_str(args, "mode"@) is Some {
        assert(c.skip(5) =~= seq!["--mode"@, arg_str(args, "mode"@)->0]);
    }
}


/// `--context <name>` where the call names a context, and nothing where it
/// does not.
pub open spec fn in_context(args: Json) -> Seq<Seq<char>> {
    match arg_str(args, "context"@) {
        Some(c) => seq!["--context"@, c],
        None => Seq::empty(),
    }
}

/// `flag` where the call sets the boolean parameter `key` to true, and
/// nothing otherwise.
pub open spec fn when_set(args: Json, key: Seq<char>, flag: Seq<char>) -> Seq<Seq<char>> {
    if arg_flag(args, key) {
        seq![flag]
    } else {
        Seq::empty()
    }
}

/// `flag <value>` where the call gives the string parameter `key`, and
/// nothing otherwise.
pub open spec fn when_given(args: Json, key: Seq<char>, flag: Seq<char>) -> Seq<Seq<char>> {
    match arg_str(args, key) {
        Some(v) => seq![flag, v],
        None => Seq::empty(),
    }
}

/// `flag <numeral>` where the call gives the integer parameter `key`, and
/// nothing otherwise.
pub open spec fn when_number(args: Json, key: Seq<char>, flag: Seq<char>) -> Seq<Seq<char>> {
    match arg_int(args, key) {
        Some(n) => seq![flag, int_decimal(n as int)],
        None => Seq::empty(),
    }
}

/// The monitoring tools run on the node that the call names, each with
/// the context and the options that the call gives: `containers` with
/// `--kubernetes` and `--namespace`, `stats` with `--kubernetes`,
/// `get_processes` with `--sort`, `memory_verbose` with `--verbose`, and
/// `get_cpu_memory_usage` runs `cpu` and then `memory`.
pub proof fn law_monitoring_commands(args: Json, node: Seq<char>)
    requires
        arg_str(args, "node"@) == Some(node),
    ensures
        only_command(tool_commands("containers"@, args)) == Some(
            seq!["--nodes"@, node, "containers"@] + in_context(args) + when_set(
                args,
                "kubernetes"@,
                "--kubernetes"@,
            ) + when_given(args, "namespace"@, "--namespace"@),
        ),
        only_command(tool_commands("stats"@, args)) == Some(
            seq!["--nodes"@, node, "stats"@] + in_context(args) + when_set(
                args,
                "kubernetes"@,
                "--kubernetes"@,
            ),
        ),
        only_command(tool_commands("get_processes"@, args)) == Some(
            seq!["--nodes"@, node, "processes"@] + in_context(args) + when_given(
                args,
                "sort"@,
                "--sort"@,
            ),
        ),
        only_command(tool_commands("memory_verbose"@, args)) == Some(
            seq!["--nodes"@, node, "memory"@, "--verbose"@] + in_context(args),
        ),
        tool_commands("get_cpu_memory_usage"@, args) == Some(
            Ok::<Seq<Seq<Seq<char>>>, Seq<char>>(
                seq![
                    seq!["--nodes"@, node, "cpu"@] + in_context(args),
                    seq!["--nodes"@, node, "memory"@] + in_context(args),
                ],
            ),
        ),
{
    lemma_lookup_containers(args);
    lemma_lookup_stats(args);
    lemma_lookup_get_processes(args);
    lemma_lookup_memory_verbose(args);
    lemma_lookup_get_cpu_memory_usage(args);
}

/// `list` lists the path that the call gives, or `/`, on the node that it
/// names, with the context, `-l`, `-H`, `-R`, `--depth` as given, and
/// then the file types that it asks for.
pub proof fn law_list_command(args: Json, node: Seq<char>)
    requires
        arg_str(args, "node"@) == Some(node),
    ensures
        only_command(tool_commands("list"@, args)) == Some(
            seq![
                "--nodes"@,
                node,
                "ls"@,
                match arg_str(args, "path"@) {
                    Some(p) => p,
                    None => "/"@,
                },
            ] + in_context(args) + when_set(args, "long"@, "-l"@) + when_set(
                args,
                "humanize"@,
                "-H"@,
            ) + when_set(args, "recurse"@, "-R"@) + when_number(args, "depth"@, "--depth"@)
                + type_args(args),
        ),
{
    lemma_lookup_list(args);
}

/// The other file tools run on the node that the call names: `read` reads
/// the path that it gives; `get_usage` measures the path that it gives, or
/// `/`; `get_mounts` lists the mounts; `copy` copies `<node>:<source>` to
/// the destination.
pub proof fn law_file_commands(args: Json, node: Seq<char>)
    requires
        arg_str(args, "node"@) == Some(node),
    ensures
        arg_str(args, "path"@) matches Some(p) ==> only_command(tool_commands("read"@, args))
            == Some(seq!["--nodes"@, node, "read"@, p] + in_context(args)),
        only_command(tool_commands("get_usage"@, args)) == Some(
            seq![
                "--nodes"@,
                node,
                "usage"@,
                match arg_str(args, "path"@) {
                    Some(p) => p,
                    None => "/"@,
                },
            ] + in_context(args),
        ),
        only_command(tool_commands("get_mounts"@, args)) == Some(
            seq!["--nodes"@, node, "mounts"@] + in_context(args),
        ),
        arg_str(args, "source"@) matches Some(source) ==> (arg_str(args, "destination"@) matches Some(
            destination,
        ) ==> only_command(tool_commands("copy"@, args)) == Some(
            seq!["cp"@, node + ":"@ + source, destination] + in_context(args),
        )),
{
    lemma_lookup_read(args);
    lemma_lookup_get_usage(args);
    lemma_lookup_get_mounts(args);
    lemma_lookup_copy(args);
}

/// The JSON strings of `names`, in order.
pub open spec fn str_items(names: Seq<Seq<char>>) -> Seq<Json> {
    names.map_values(|t: Seq<char>| Json::Str(t))
}

proof fn lemma_type_filters(names: Seq<Seq<char>>, i: int)
    requires
        0 <= i < names.len(),
    ensures
        type_flags(str_items(names)).len() == 2 * names.len(),
        type_flags(str_items(names))[2 * i] == "-t"@,
        type_flags(str_items(names))[2 * i + 1] == names[i],
    decreases names.len(),
{
    let items = str_items(names);
    let front = names.drop_last();
    assert(items.drop_last() =~= str_items(front));
    assert(items.last() == Json::Str(names.last()));
    let before = type_flags(str_items(front));
    assert(type_flags(items) == before + seq!["-t"@, names.last()]);
    if i < names.len() - 1 {
        lemma_type_filters(front, i);
        assert(front[i] == names[i]);
    } else if names.len() > 1 {
        lemma_type_filters(front, 0);
    } else {
        assert(front.len() == 0);
        assert(before.len() == 0);
    }
}

/// `-t <name>` for each of `names`, in order.
pub open spec fn type_filter_flags(names: Seq<Seq<char>>) -> Seq<Seq<char>> {
    Seq::new(2 * names.len(), |k: int| if k % 2 == 0 { "-t"@ } else { names[k / 2] })
}

/// Where the call asks `list` for an array of file types, the command line
/// ends with `-t <type>` for each of them, in the order given.
pub proof fn law_list_file_types(args: Json, node: Seq<char>, names: Seq<Seq<char>>)
    requires
        arg_str(args, "node"@) == Some(node),
        json_get(args, "type"@) == Some(Json::Array(str_items(names))),
    ensures
        only_command(tool_commands("list"@, args)) matches Some(c) && (c.len() >= 4 + 2
            * names.len() && c.skip(c.len() - 2 * names.len()) == type_filter_flags(names)),
{
    law_list_command(args, node);
    let c = list_command(args)->Ok_0;
    let t = type_flags(str_items(names));
    assert(type_args(args) == t);
    if names.len() > 0 {
        lemma_type_filters(names, 0);
    } else {
        assert(str_items(names).len() == 0);
    }
    assert forall|k: int| 0 <= k < t.len() implies t[k] == type_filter_flags(names)[k] by {
        lemma_type_filters(names, k / 2);
    }
    assert(t =~= type_filter_flags(names));
    assert(c.skip(c.len() - t.len()) =~= t);
}

/// The network tools run on the node that the call names: `interfaces`
/// and `routes` get those resources with `--namespace` and `-o` where
/// given and then the context; `get_netstat` and `list_network_interfaces`
/// take only the context; `capture_packets` captures on the interface
/// that the call names for the duration that it gives; and
/// `get_network_io_cgroups` reads the network cgroups.
pub proof fn law_network_commands(args: Json, node: Seq<char>)
    requires
        arg_str(args, "node"@) == Some(node),
    ensures
        only_command(tool_commands("interfaces"@, args)) == Some(
            seq!["--nodes"@, node, "get"@, "interfaces"@] + when_given(
                args,
                "namespace"@,
                "--namespace"@,
            ) + when_given(args, "output"@, "-o"@) + in_context(args),
        ),
        only_command(tool_commands("routes"@, args)) == Some(
            seq!["--nodes"@, node, "get"@, "routes"@] + when_given(
                args,
                "namespace"@,
                "--namespace"@,
            ) + when_given(args, "output"@, "-o"@) + in_context(args),
        ),
        only_command(tool_commands("get_netstat"@, args)) == Some(
            seq!["--nodes"@, node, "netstat"@] + in_context(args),
        ),
        arg_str(args, "interface"@) matches Some(interface) ==> only_command(
            tool_commands("capture_packets"@, args),
        ) == Some(
            seq!["--nodes"@, node, "pcap"@, "-i"@, interface] + when_number(
                args,
                "duration"@,
                "--duration"@,
            ) + in_context(args),
        ),
        only_command(tool_commands("get_network_io_cgroups"@, args)) == Some(
            seq!["--nodes"@, node, "cgroups"@, "--type"@, "network"@] + in_context(args),
        ),
        only_command(tool_commands("list_network_interfaces"@, args)) == Some(
            seq!["--nodes"@, node, "interfaces"@] + in_context(args),
        ),
{
    lemma_lookup_interfaces(args);
    lemma_lookup_routes(args);
    lemma_lookup_get_netstat(args);
    lemma_lookup_capture_packets(args);
    lemma_lookup_get_network_io_cgroups(args);
    lemma_lookup_list_network_interfaces(args);
}

/// The service and log tools run on the node that the call names: `dmesg`
/// with `--tail` where it is set; `service` runs the action that the call
/// gives on the service that it names where the action is `start`,
/// `stop`, `restart` or `status`, and refuses any other; `get_logs` reads
/// the service's logs with `--tail`, `-k` and `-n` as given; `get_events`
/// with `--tail` as given.
pub proof fn law_service_commands(args: Json, node: Seq<char>)
    requires
        arg_str(args, "node"@) == Some(node),
    ensures
        only_command(tool_commands("dmesg"@, args)) == Some(
            seq!["--nodes"@, node, "dmesg"@] + in_context(args) + when_set(
                args,
                "tail"@,
                "--tail"@,
            ),
        ),
        arg_str(args, "service"@) matches Some(service) ==> (arg_str(args, "action"@) matches Some(
            action,
        ) ==> tool_commands("service"@, args) == if action == "start"@ || action == "stop"@
            || action == "restart"@ || action == "status"@ {
            Some(
                Ok::<Seq<Seq<Seq<char>>>, Seq<char>>(
                    seq![seq!["--nodes"@, node, "service"@, service, action] + in_context(args)],
                ),
            )
        } else {
            Some(Err::<Seq<Seq<Seq<char>>>, Seq<char>>("Invalid service action: "@ + action))
        }),
        arg_str(args, "service"@) matches Some(service) ==> only_command(
            tool_commands("get_logs"@, args),
        ) == Some(
            seq!["--nodes"@, node, "logs"@, service] + in_context(args) + when_number(
                args,
                "tail"@,
                "--tail"@,
            ) + when_set(args, "kubernetes"@, "-k"@) + when_given(args, "namespace"@, "-n"@),
        ),
        only_command(tool_commands("get_events"@, args)) == Some(
            seq!["--nodes"@, node, "events"@] + in_context(args) + when_number(
                args,
                "tail"@,
                "--tail"@,
            ),
        ),
{
    lemma_lookup_dmesg(args);
    lemma_lookup_service(args);
    lemma_lookup_get_logs(args);
    lemma_lookup_get_events(args);
}

/// The storage and cluster tools: `disks` gets the disk resources of the
/// node with the context, `--namespace` and `-o` as given; `list_disks`
/// lists its disks; `get_version` asks its version, `--short` where set;
/// `get_time` its time, with `--check` against the server that the call
/// gives; and `get_health` checks the cluster's health, through the node
/// that the call names where it names one.
pub proof fn law_storage_and_cluster_commands(args: Json, node: Seq<char>)
    requires
        arg_str(args, "node"@) == Some(node),
    ensures
        only_command(tool_commands("disks"@, args)) == Some(
            seq!["--nodes"@, node, "get"@, "disks"@] + in_context(args) + when_given(
                args,
                "namespace"@,
                "--namespace"@,
            ) + when_given(args, "output"@, "-o"@),
        ),
        only_command(tool_commands("list_disks"@, args)) == Some(
            seq!["--nodes"@, node, "disks"@],
        ),
        only_command(tool_commands("get_version"@, args)) == Some(
            seq!["--nodes"@, node, "version"@] + when_set(args, "short"@, "--short"@),
        ),
        only_command(tool_commands("get_time"@, args)) == Some(
            seq!["--nodes"@, node, "time"@] + when_given(args, "check"@, "--check"@),
        ),
        only_command(tool_commands("get_health"@, args)) == Some(
            seq!["health"@, "--nodes"@, node],
        ),
{
    lemma_lookup_disks(args);
    lemma_lookup_list_disks(args);
    lemma_lookup_get_version(args);
    lemma_lookup_get_time(args);
    lemma_lookup_get_health(args);
}

/// `get_health` without a node checks the cluster's health with no option.
pub proof fn law_health_without_node(args: Json)
    requires
        arg_str(args, "node"@) is None,
    ensures
        only_command(tool_commands("get_health"@, args)) == Some(seq!["health"@]),
{
    lemma_lookup_get_health(args);
}

/// The lifecycle tools act on the node that the call names and pass
/// exactly the options that it sets: `reboot_node` its `--mode`,
/// `shutdown_node` `--force`, `reset_node` `--graceful` and `--reboot`,
/// `upgrade_node` the image and then `--preserve` and `--stage`, and
/// `upgrade_k8s` the version to upgrade to.
pub proof fn law_lifecycle_commands(args: Json, node: Seq<char>)
    requires
        arg_str(args, "node"@) == Some(node),
    ensures
        only_command(tool_commands("reboot_node"@, args)) == Some(
            seq!["--nodes"@, node, "reboot"@] + when_given(args, "mode"@, "--mode"@),
        ),
        only_command(tool_commands("shutdown_node"@, args)) == Some(
            seq!["--nodes"@, node, "shutdown"@] + when_set(args, "force"@, "--force"@),
        ),
        only_command(tool_commands("reset_node"@, args)) == Some(
            seq!["--nodes"@, node, "reset"@] + when_set(args, "graceful"@, "--graceful"@)
                + when_set(args, "reboot"@, "--reboot"@),
        ),
        arg_str(args, "image"@) matches Some(image) ==> only_command(
            tool_commands("upgrade_node"@, args),
        ) == Some(
            seq!["--nodes"@, node, "upgrade"@, "--image"@, image] + when_set(
                args,
                "preserve"@,
                "--preserve"@,
            ) + when_set(args, "stage"@, "--stage"@),
        ),
        arg_str(args, "version"@) matches Some(version) ==> only_command(
            tool_commands("upgrade_k8s"@, args),
        ) == Some(seq!["--nodes"@, node, "upgrade-k8s"@, "--to"@, version]),
{
    lemma_lookup_reboot_node(args);
    lemma_lookup_shutdown_node(args);
    lemma_lookup_reset_node(args);
    lemma_lookup_upgrade_node(args);
    lemma_lookup_upgrade_k8s(args);
}

/// `validate_config` validates the file that the call names, in the mode
/// that it gives; it needs no node.
pub proof fn law_validate_config_command(args: Json, file: Seq<char>)
    requires
        arg_str(args, "file"@) == Some(file),
    ensures
        only_command(tool_commands("validate_config"@, args)) == Some(
            seq!["validate-config"@, "--file"@, file] + when_given(args, "mode"@, "--mode"@),
        ),
{
    lemma_lookup_validate_config(args);
}

/// The etcd tools run on the node that the call names, with the context
/// before the subcommand: `etcd status`, `etcd members`, `bootstrap` and
/// `etcd defrag`.
pub proof fn law_etcd_commands(args: Json, node: Seq<char>)
    requires
        arg_str(args, "node"@) == Some(node),
    ensures
        only_command(tool_commands("get_etcd_status"@, args)) == Some(
            seq!["--nodes"@, node] + in_context(args) + seq!["etcd"@, "status"@],
        ),
        only_command(tool_commands("get_etcd_members"@, args)) == Some(
            seq!["--nodes"@, node] + in_context(args) + seq!["etcd"@, "members"@],
        ),
        only_command(tool_commands("bootstrap_etcd"@, args)) == Some(
            seq!["--nodes"@, node] + in_context(args) + seq!["bootstrap"@],
        ),
        only_command(tool_commands("defrag_etcd"@, args)) == Some(
            seq!["--nodes"@, node] + in_context(args) + seq!["etcd"@, "defrag"@],
        ),
{
    lemma_lookup_get_etcd_status(args);
    lemma_lookup_get_etcd_members(args);
    lemma_lookup_bootstrap_etcd(args);
    lemma_lookup_defrag_etcd(args);
}

proof fn lemma_absent_key(members: Seq<(Seq<char>, Json)>, key: Seq<char>)
    requires
        !has_key(members, key),
    ensures
        json_lookup(members, key) is None,
    decreases members.len(),
{
    if members.len() > 0 {
        assert(members.last() == members[members.len() - 1]);
        assert forall|k: int| 0 <= k < members.drop_last().len() implies
            #[trigger] members.drop_last()[k].0 != key by {
            assert(members.drop_last()[k] == members[k]);
        }
        lemma_absent_key(members.drop_last(), key);
    }
}

/// A tool reads each parameter from the member of the arguments object
/// with that key, the one written last where the key occurs twice: a
/// string member gives its text, a boolean member sets a flag exactly when
/// it is true, an integer member gives its value cut to an `i32`, a member
/// of another kind gives nothing, and a key that the object lacks gives
/// nothing and sets no flag.
pub proof fn law_arguments_by_key(
    members: Seq<(Seq<char>, Json)>,
    key: Seq<char>,
    text: Seq<char>,
    b: bool,
    n: i64,
)
    ensures
        arg_str(Json::Object(members.push((key, Json::Str(text)))), key) == Some(text),
        arg_flag(Json::Object(members.push((key, Json::Str(text)))), key) == false,
        arg_int(Json::Object(members.push((key, Json::Str(text)))), key) is None,
        arg_flag(Json::Object(members.push((key, Json::Bool(b)))), key) == b,
        arg_str(Json::Object(members.push((key, Json::Bool(b)))), key) is None,
        arg_int(Json::Object(members.push((key, Json::Bool(b)))), key) is None,
        i32::MIN <= n <= i32::MAX ==> arg_int(
            Json::Object(
                members.push(
                    (
                        key,
                        Json::Number(
                            if n >= 0 {
                                JsonNumber::PosInt(n as u64)
                            } else {
                                JsonNumber::NegInt(n)
                            },
                        ),
                    ),
                ),
            ),
            key,
        ) == Some(n as i32),
        !has_key(members, key) ==> arg_str(Json::Object(members), key) is None && !arg_flag(
            Json::Object(members),
            key,
        ) && arg_int(Json::Object(members), key) is None,
{
    if !has_key(members, key) {
        lemma_absent_key(members, key);
    }
}

/// The number that a string of decimal digits reads as.
pub open spec fn digits_value(s: Seq<char>) -> int
    decreases s.len(),
{
    if s.len() == 0 {
        0
    } else {
        digits_value(s.drop_last()) * 10 + ((s.last() as u32) as int - 48)
    }
}

/// Whether `s` is a nonempty string of the digits `0` to `9` that starts
/// with `0` only where it is `0` itself.
pub open spec fn is_numeral(s: Seq<char>) -> bool {
    &&& s.len() > 0
    &&& forall|i: int| 0 <= i < s.len() ==> '0' <= #[trigger] s[i] <= '9'
    &&& (s[0] == '0' ==> s.len() == 1)
}

proof fn lemma_nat_numeral(n: nat)
    ensures
        is_numeral(nat_decimal(n)),
        digits_value(nat_decimal(n)) == n,
    decreases n,
{
    let s = nat_decimal(n);
    if n < 10 {
        assert(s == seq![digit_char(n)]);
        assert((digit_char(n) as u32) as int == 48 + n);
        assert(s.drop_last() =~= Seq::<char>::empty());
        assert(digits_value(s.drop_last()) == 0);
        assert(s.last() == digit_char(n));
    } else {
        lemma_nat_numeral(n / 10);
        let front = nat_decimal(n / 10);
        assert(s == front + seq![digit_char(n % 10)]);
        assert(s.drop_last() =~= front);
        assert((digit_char(n % 10) as u32) as int == 48 + n % 10);
        assert(s.last() == digit_char(n % 10));
        assert(digits_value(s) == digits_value(front) * 10 + n % 10);
        assert((n / 10) * 10 + n % 10 == n) by (nonlinear_arith);
        assert forall|i: int| 0 <= i < s.len() implies '0' <= #[trigger] s[i] <= '9' by {
            if i < front.len() {
                assert(s[i] == front[i]);
            }
        }
        assert(s[0] == front[0]);
        if front[0] == '0' {
            // Then `front` is "0", which reads as 0 and not as `n / 10`.
            assert(front.len() == 1);
            assert(front.drop_last().len() == 0);
            assert(digits_value(front) == digits_value(front.drop_last()) * 10 + ((front[0] as u32)
                as int - 48));
        }
    }
}

/// The numeral that an integer option carries reads back as the integer:
/// decimal digits without a leading zero, after a `-` where it is negative.
pub proof fn law_numerals_read_back(n: int)
    ensures
        n >= 0 ==> is_numeral(int_decimal(n)) && digits_value(int_decimal(n)) == n,
        n < 0 ==> int_decimal(n)[0] == '-' && is_numeral(int_decimal(n).drop_first())
            && digits_value(int_decimal(n).drop_first()) == -n,
{
    if n >= 0 {
        lemma_nat_numeral(n as nat);
    } else {
        lemma_nat_numeral((-n) as nat);
        assert(int_decimal(n).drop_first() =~= nat_decimal((-n) as nat));
    }
}

} // verus!
