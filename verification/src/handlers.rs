//! The tools' handlers: for each tool, the `talosctl` command lines that a
//! call with given arguments runs, or the message that stops the call.

use vstd::prelude::*;

use crate::args::{
    add_context_flag, add_context_to_args, arg_str, context_args, flag_args, get_optional_string,
    get_required_string, int_args, missing_param, opt_text, option_pair, push_flag, push_int,
    push_text, push_value, strs, value_args,
};
use crate::json::{
    json_as_array, json_as_str, json_get, json_of, json_seq, lemma_json_seq, Json, JsonValue,
};
use crate::text::concat;

verus! {

/// The texts of a command line, or the message of the error that stopped it.
pub open spec fn cmd_result(r: Result<Vec<String>, String>) -> Result<Seq<Seq<char>>, Seq<char>> {
    match r {
        Ok(c) => Ok(strs(c@)),
        Err(e) => Err(e@),
    }
}

/// The texts of several command lines.
pub open spec fn argvs(v: Seq<Vec<String>>) -> Seq<Seq<Seq<char>>> {
    v.map_values(|c: Vec<String>| strs(c@))
}

pub open spec fn cmds_result(r: Result<Vec<Vec<String>>, String>) -> Result<
    Seq<Seq<Seq<char>>>,
    Seq<char>,
> {
    match r {
        Ok(c) => Ok(argvs(c@)),
        Err(e) => Err(e@),
    }
}

/// The command line of `containers`, or the message of the argument that is missing.
pub open spec fn containers_command(args: Json) -> Result<Seq<Seq<char>>, Seq<char>> {
    match arg_str(args, "node"@) {
        None => Err(missing_param("node"@)),
        Some(node) => Ok(seq!["--nodes"@, node, "containers"@] + context_args(args)
            + flag_args(args, "kubernetes"@, "--kubernetes"@)
            + value_args(args, "namespace"@, "--namespace"@)),
    }
}

/// The command line that the tool `containers` runs, built from its arguments.
pub fn handle_containers(args: &JsonValue) -> (r: Result<Vec<String>, String>)
    ensures
        cmd_result(r) == containers_command(args@),
{
    let node = match get_required_string(args, "node") {
        Ok(s) => s,
        Err(e) => return Err(e),
    };
    let ghost node_t = node@;
    let mut cmd: Vec<String> = Vec::new();
    push_text(&mut cmd, String::from_str("--nodes"));
    push_text(&mut cmd, node);
    push_text(&mut cmd, String::from_str("containers"));
    add_context_flag(args, &mut cmd);
    push_flag(args, "kubernetes", "--kubernetes", &mut cmd);
    push_value(args, "namespace", "--namespace", &mut cmd);
    assert(strs(cmd@) =~= seq!["--nodes"@, node_t, "containers"@] + context_args(args@)
        + flag_args(args@, "kubernetes"@, "--kubernetes"@)
        + value_args(args@, "namespace"@, "--namespace"@));
    Ok(cmd)
}

/// The command line of `stats`, or the message of the argument that is missing.
pub open spec fn stats_command(args: Json) -> Result<Seq<Seq<char>>, Seq<char>> {
    match arg_str(args, "node"@) {
        None => Err(missing_param("node"@)),
        Some(node) => Ok(seq!["--nodes"@, node, "stats"@] + context_args(args)
            + flag_args(args, "kubernetes"@, "--kubernetes"@)),
    }
}

/// The command line that the tool `stats` runs, built from its arguments.
pub fn handle_stats(args: &JsonValue) -> (r: Result<Vec<String>, String>)
    ensures
        cmd_result(r) == stats_command(args@),
{
    let node = match get_required_string(args, "node") {
        Ok(s) => s,
        Err(e) => return Err(e),
    };
    let ghost node_t = node@;
    let mut cmd: Vec<String> = Vec::new();
    push_text(&mut cmd, String::from_str("--nodes"));
    push_text(&mut cmd, node);
    push_text(&mut cmd, String::from_str("stats"));
    add_context_flag(args, &mut cmd);
    push_flag(args, "kubernetes", "--kubernetes", &mut cmd);
    assert(strs(cmd@) =~= seq!["--nodes"@, node_t, "stats"@] + context_args(args@)
        + flag_args(args@, "kubernetes"@, "--kubernetes"@));
    Ok(cmd)
}

/// The command line of `get_processes`, or the message of the argument that is missing.
pub open spec fn get_processes_command(args: Json) -> Result<Seq<Seq<char>>, Seq<char>> {
    match arg_str(args, "node"@) {
        None => Err(missing_param("node"@)),
        Some(node) => Ok(seq!["--nodes"@, node, "processes"@] + context_args(args)
            + value_args(args, "sort"@, "--sort"@)),
    }
}

/// The command line that the tool `get_processes` runs, built from its arguments.
pub fn handle_get_processes(args: &JsonValue) -> (r: Result<Vec<String>, String>)
    ensures
        cmd_result(r) == get_processes_command(args@),
{
    let node = match get_required_string(args, "node") {
        Ok(s) => s,
        Err(e) => return Err(e),
    };
    let ghost node_t = node@;
    let mut cmd: Vec<String> = Vec::new();
    push_text(&mut cmd, String::from_str("--nodes"));
    push_text(&mut cmd, node);
    push_text(&mut cmd, String::from_str("processes"));
    add_context_flag(args, &mut cmd);
    push_value(args, "sort", "--sort", &mut cmd);
    assert(strs(cmd@) =~= seq!["--nodes"@, node_t, "processes"@] + context_args(args@)
        + value_args(args@, "sort"@, "--sort"@));
    Ok(cmd)
}

/// The command line of `memory_verbose`, or the message of the argument that is missing.
pub open spec fn memory_verbose_command(args: Json) -> Result<Seq<Seq<char>>, Seq<char>> {
    match arg_str(args, "node"@) {
        None => Err(missing_param("node"@)),
        Some(node) => Ok(seq!["--nodes"@, node, "memory"@, "--verbose"@] + context_args(args)),
    }
}

/// The command line that the tool `memory_verbose` runs, built from its arguments.
pub fn handle_memory_verbose(args: &JsonValue) -> (r: Result<Vec<String>, String>)
    ensures
        cmd_result(r) == memory_verbose_command(args@),
{
    let node = match get_required_string(args, "node") {
        Ok(s) => s,
        Err(e) => return Err(e),
    };
    let ghost node_t = node@;
    let mut cmd: Vec<String> = Vec::new();
    push_text(&mut cmd, String::from_str("--nodes"));
    push_text(&mut cmd, node);
    push_text(&mut cmd, String::from_str("memory"));
    push_text(&mut cmd, String::from_str("--verbose"));
    add_context_flag(args, &mut cmd);
    assert(strs(cmd@) =~= seq!["--nodes"@, node_t, "memory"@, "--verbose"@] + context_args(args@));
    Ok(cmd)
}

/// The command line of `read`, or the message of the argument that is missing.
pub open spec fn read_command(args: Json) -> Result<Seq<Seq<char>>, Seq<char>> {
    match arg_str(args, "node"@) {
        None => Err(missing_param("node"@)),
        Some(node) => match arg_str(args, "path"@) {
            None => Err(missing_param("path"@)),
            Some(path) => Ok(seq!["--nodes"@, node, "read"@, path] + context_args(args)),
        },
    }
}

/// The command line that the tool `read` runs, built from its arguments.
pub fn handle_read(args: &JsonValue) -> (r: Result<Vec<String>, String>)
    ensures
        cmd_result(r) == read_command(args@),
{
    let node = match get_required_string(args, "node") {
        Ok(s) => s,
        Err(e) => return Err(e),
    };
    let ghost node_t = node@;
    let path = match get_required_string(args, "path") {
        Ok(s) => s,
        Err(e) => return Err(e),
    };
    let ghost path_t = path@;
    let mut cmd: Vec<String> = Vec::new();
    push_text(&mut cmd, String::from_str("--nodes"));
    push_text(&mut cmd, node);
    push_text(&mut cmd, String::from_str("read"));
    push_text(&mut cmd, path);
    add_context_flag(args, &mut cmd);
    assert(strs(cmd@) =~= seq!["--nodes"@, node_t, "read"@, path_t] + context_args(args@));
    Ok(cmd)
}

/// The command line of `get_mounts`, or the message of the argument that is missing.
pub open spec fn get_mounts_command(args: Json) -> Result<Seq<Seq<char>>, Seq<char>> {
    match arg_str(args, "node"@) {
        None => Err(missing_param("node"@)),
        Some(node) => Ok(seq!["--nodes"@, node, "mounts"@] + context_args(args)),
    }
}

/// The command line that the tool `get_mounts` runs, built from its arguments.
pub fn handle_get_mounts(args: &JsonValue) -> (r: Result<Vec<String>, String>)
    ensures
        cmd_result(r) == get_mounts_command(args@),
{
    let node = match get_required_string(args, "node") {
        Ok(s) => s,
        Err(e) => return Err(e),
    };
    let ghost node_t = node@;
    let mut cmd: Vec<String> = Vec::new();
    push_text(&mut cmd, String::from_str("--nodes"));
    push_text(&mut cmd, node);
    push_text(&mut cmd, String::from_str("mounts"));
    add_context_flag(args, &mut cmd);
    assert(strs(cmd@) =~= seq!["--nodes"@, node_t, "mounts"@] + context_args(args@));
    Ok(cmd)
}

/// The command line of `interfaces`, or the message of the argument that is missing.
pub open spec fn interfaces_command(args: Json) -> Result<Seq<Seq<char>>, Seq<char>> {
    match arg_str(args, "node"@) {
        None => Err(missing_param("node"@)),
        Some(node) => Ok(seq!["--nodes"@, node, "get"@, "interfaces"@]
            + value_args(args, "namespace"@, "--namespace"@) + value_args(args, "output"@, "-o"@)
            + context_args(args)),
    }
}

/// The command line that the tool `interfaces` runs, built from its arguments.
pub fn handle_interfaces(args: &JsonValue) -> (r: Result<Vec<String>, String>)
    ensures
        cmd_result(r) == interfaces_command(args@),
{
    let node = match get_required_string(args, "node") {
        Ok(s) => s,
        Err(e) => return Err(e),
    };
    let ghost node_t = node@;
    let mut cmd: Vec<String> = Vec::new();
    push_text(&mut cmd, String::from_str("--nodes"));
    push_text(&mut cmd, node);
    push_text(&mut cmd, String::from_str("get"));
    push_text(&mut cmd, String::from_str("interfaces"));
    push_value(args, "namespace", "--namespace", &mut cmd);
    push_value(args, "output", "-o", &mut cmd);
    add_context_flag(args, &mut cmd);
    assert(strs(cmd@) =~= seq!["--nodes"@, node_t, "get"@, "interfaces"@]
        + value_args(args@, "namespace"@, "--namespace"@) + value_args(args@, "output"@, "-o"@)
        + context_args(args@));
    Ok(cmd)
}

/// The command line of `routes`, or the message of the argument that is missing.
pub open spec fn routes_command(args: Json) -> Result<Seq<Seq<char>>, Seq<char>> {
    match arg_str(args, "node"@) {
        None => Err(missing_param("node"@)),
        Some(node) => Ok(seq!["--nodes"@, node, "get"@, "routes"@]
            + value_args(args, "namespace"@, "--namespace"@) + value_args(args, "output"@, "-o"@)
            + context_args(args)),
    }
}

/// The command line that the tool `routes` runs, built from its arguments.
pub fn handle_routes(args: &JsonValue) -> (r: Result<Vec<String>, String>)
    ensures
        cmd_result(r) == routes_command(args@),
{
    let node = match get_required_string(args, "node") {
        Ok(s) => s,
        Err(e) => return Err(e),
    };
    let ghost node_t = node@;
    let mut cmd: Vec<String> = Vec::new();
    push_text(&mut cmd, String::from_str("--nodes"));
    push_text(&mut cmd, node);
    push_text(&mut cmd, String::from_str("get"));
    push_text(&mut cmd, String::from_str("routes"));
    push_value(args, "namespace", "--namespace", &mut cmd);
    push_value(args, "output", "-o", &mut cmd);
    add_context_flag(args, &mut cmd);
    assert(strs(cmd@) =~= seq!["--nodes"@, node_t, "get"@, "routes"@]
        + value_args(args@, "namespace"@, "--namespace"@) + value_args(args@, "output"@, "-o"@)
        + context_args(args@));
    Ok(cmd)
}

/// The command line of `get_netstat`, or the message of the argument that is missing.
pub open spec fn get_netstat_command(args: Json) -> Result<Seq<Seq<char>>, Seq<char>> {
    match arg_str(args, "node"@) {
        None => Err(missing_param("node"@)),
        Some(node) => Ok(seq!["--nodes"@, node, "netstat"@] + context_args(args)),
    }
}

/// The command line that the tool `get_netstat` runs, built from its arguments.
pub fn handle_get_netstat(args: &JsonValue) -> (r: Result<Vec<String>, String>)
    ensures
        cmd_result(r) == get_netstat_command(args@),
{
    let node = match get_required_string(args, "node") {
        Ok(s) => s,
        Err(e) => return Err(e),
    };
    let ghost node_t = node@;
    let mut cmd: Vec<String> = Vec::new();
    push_text(&mut cmd, String::from_str("--nodes"));
    push_text(&mut cmd, node);
    push_text(&mut cmd, String::from_str("netstat"));
    add_context_flag(args, &mut cmd);
    assert(strs(cmd@) =~= seq!["--nodes"@, node_t, "netstat"@] + context_args(args@));
    Ok(cmd)
}

/// The command line of `capture_packets`, or the message of the argument that is missing.
pub open spec fn capture_packets_command(args: Json) -> Result<Seq<Seq<char>>, Seq<char>> {
    match arg_str(args, "node"@) {
        None => Err(missing_param("node"@)),
        Some(node) => match arg_str(args, "interface"@) {
            None => Err(missing_param("interface"@)),
            Some(interface) => Ok(seq!["--nodes"@, node, "pcap"@, "-i"@, interface]
                + int_args(args, "duration"@, "--duration"@) + context_args(args)),
        },
    }
}

/// The command line that the tool `capture_packets` runs, built from its arguments.
pub fn handle_capture_packets(args: &JsonValue) -> (r: Result<Vec<String>, String>)
    ensures
        cmd_result(r) == capture_packets_command(args@),
{
    let node = match get_required_string(args, "node") {
        Ok(s) => s,
        Err(e) => return Err(e),
    };
    let ghost node_t = node@;
    let interface = match get_required_string(args, "interface") {
        Ok(s) => s,
        Err(e) => return Err(e),
    };
    let ghost interface_t = interface@;
    let mut cmd: Vec<String> = Vec::new();
    push_text(&mut cmd, String::from_str("--nodes"));
    push_text(&mut cmd, node);
    push_text(&mut cmd, String::from_str("pcap"));
    push_text(&mut cmd, String::from_str("-i"));
    push_text(&mut cmd, interface);
    push_int(args, "duration", "--duration", &mut cmd);
    add_context_flag(args, &mut cmd);
    assert(strs(cmd@) =~= seq!["--nodes"@, node_t, "pcap"@, "-i"@, interface_t]
        + int_args(args@, "duration"@, "--duration"@) + context_args(args@));
    Ok(cmd)
}

/// The command line of `get_network_io_cgroups`, or the message of the argument that is missing.
pub open spec fn get_network_io_cgroups_command(args: Json) -> Result<Seq<Seq<char>>, Seq<char>> {
    match arg_str(args, "node"@) {
        None => Err(missing_param("node"@)),
        Some(node) => Ok(seq!["--nodes"@, node, "cgroups"@, "--type"@, "network"@]
            + context_args(args)),
    }
}

/// The command line that the tool `get_network_io_cgroups` runs, built from its arguments.
pub fn handle_get_network_io_cgroups(args: &JsonValue) -> (r: Result<Vec<String>, String>)
    ensures
        cmd_result(r) == get_network_io_cgroups_command(args@),
{
    let node = match get_required_string(args, "node") {
        Ok(s) => s,
        Err(e) => return Err(e),
    };
    let ghost node_t = node@;
    let mut cmd: Vec<String> = Vec::new();
    push_text(&mut cmd, String::from_str("--nodes"));
    push_text(&mut cmd, node);
    push_text(&mut cmd, String::from_str("cgroups"));
    push_text(&mut cmd, String::from_str("--type"));
    push_text(&mut cmd, String::from_str("network"));
    add_context_flag(args, &mut cmd);
    assert(strs(cmd@) =~= seq!["--nodes"@, node_t, "cgroups"@, "--type"@, "network"@]
        + context_args(args@));
    Ok(cmd)
}

/// The command line of `list_network_interfaces`, or the message of the argument that is missing.
pub open spec fn list_network_interfaces_command(args: Json) -> Result<Seq<Seq<char>>, Seq<char>> {
    match arg_str(args, "node"@) {
        None => Err(missing_param("node"@)),
        Some(node) => Ok(seq!["--nodes"@, node, "interfaces"@] + context_args(args)),
    }
}

/// The command line that the tool `list_network_interfaces` runs, built from its arguments.
pub fn handle_list_network_interfaces(args: &JsonValue) -> (r: Result<Vec<String>, String>)
    ensures
        cmd_result(r) == list_network_interfaces_command(args@),
{
    let node = match get_required_string(args, "node") {
        Ok(s) => s,
        Err(e) => return Err(e),
    };
    let ghost node_t = node@;
    let mut cmd: Vec<String> = Vec::new();
    push_text(&mut cmd, String::from_str("--nodes"));
    push_text(&mut cmd, node);
    push_text(&mut cmd, String::from_str("interfaces"));
    add_context_flag(args, &mut cmd);
    assert(strs(cmd@) =~= seq!["--nodes"@, node_t, "interfaces"@] + context_args(args@));
    Ok(cmd)
}

/// The command line of `dmesg`, or the message of the argument that is missing.
pub open spec fn dmesg_command(args: Json) -> Result<Seq<Seq<char>>, Seq<char>> {
    match arg_str(args, "node"@) {
        None => Err(missing_param("node"@)),
        Some(node) => Ok(seq!["--nodes"@, node, "dmesg"@] + context_args(args)
            + flag_args(args, "tail"@, "--tail"@)),
    }
}

/// The command line that the tool `dmesg` runs, built from its arguments.
pub fn handle_dmesg(args: &JsonValue) -> (r: Result<Vec<String>, String>)
    ensures
        cmd_result(r) == dmesg_command(args@),
{
    let node = match get_required_string(args, "node") {
        Ok(s) => s,
        Err(e) => return Err(e),
    };
    let ghost node_t = node@;
    let mut cmd: Vec<String> = Vec::new();
    push_text(&mut cmd, String::from_str("--nodes"));
    push_text(&mut cmd, node);
    push_text(&mut cmd, String::from_str("dmesg"));
    add_context_flag(args, &mut cmd);
    push_flag(args, "tail", "--tail", &mut cmd);
    assert(strs(cmd@) =~= seq!["--nodes"@, node_t, "dmesg"@] + context_args(args@)
        + flag_args(args@, "tail"@, "--tail"@));
    Ok(cmd)
}

/// The command line of `restart`, or the message of the argument that is missing.
pub open spec fn restart_command(args: Json) -> Result<Seq<Seq<char>>, Seq<char>> {
    match arg_str(args, "node"@) {
        None => Err(missing_param("node"@)),
        Some(node) => match arg_str(args, "service"@) {
            None => Err(missing_param("service"@)),
            Some(service) => Ok(seq!["--nodes"@, node, "service"@, service, "restart"@]
                + context_args(args)),
        },
    }
}

/// The command line that the tool `restart` runs, built from its arguments.
pub fn handle_restart(args: &JsonValue) -> (r: Result<Vec<String>, String>)
    ensures
        cmd_result(r) == restart_command(args@),
{
    let node = match get_required_string(args, "node") {
        Ok(s) => s,
        Err(e) => return Err(e),
    };
    let ghost node_t = node@;
    let service = match get_required_string(args, "service") {
        Ok(s) => s,
        Err(e) => return Err(e),
    };
    let ghost service_t = service@;
    let mut cmd: Vec<String> = Vec::new();
    push_text(&mut cmd, String::from_str("--nodes"));
    push_text(&mut cmd, node);
    push_text(&mut cmd, String::from_str("service"));
    push_text(&mut cmd, service);
    push_text(&mut cmd, String::from_str("restart"));
    add_context_flag(args, &mut cmd);
    assert(strs(cmd@) =~= seq!["--nodes"@, node_t, "service"@, service_t, "restart"@]
        + context_args(args@));
    Ok(cmd)
}

/// The command line of `get_logs`, or the message of the argument that is missing.
pub open spec fn get_logs_command(args: Json) -> Result<Seq<Seq<char>>, Seq<char>> {
    match arg_str(args, "node"@) {
        None => Err(missing_param("node"@)),
        Some(node) => match arg_str(args, "service"@) {
            None => Err(missing_param("service"@)),
            Some(service) => Ok(seq!["--nodes"@, node, "logs"@, service] + context_args(args)
                + int_args(args, "tail"@, "--tail"@) + flag_args(args, "kubernetes"@, "-k"@)
                + value_args(args, "namespace"@, "-n"@)),
        },
    }
}

/// The command line that the tool `get_logs` runs, built from its arguments.
pub fn handle_get_logs(args: &JsonValue) -> (r: Result<Vec<String>, String>)
    ensures
        cmd_result(r) == get_logs_command(args@),
{
    let node = match get_required_string(args, "node") {
        Ok(s) => s,
        Err(e) => return Err(e),
    };
    let ghost node_t = node@;
    let service = match get_required_string(args, "service") {
        Ok(s) => s,
        Err(e) => return Err(e),
    };
    let ghost service_t = service@;
    let mut cmd: Vec<String> = Vec::new();
    push_text(&mut cmd, String::from_str("--nodes"));
    push_text(&mut cmd, node);
    push_text(&mut cmd, String::from_str("logs"));
    push_text(&mut cmd, service);
    add_context_flag(args, &mut cmd);
    push_int(args, "tail", "--tail", &mut cmd);
    push_flag(args, "kubernetes", "-k", &mut cmd);
    push_value(args, "namespace", "-n", &mut cmd);
    assert(strs(cmd@) =~= seq!["--nodes"@, node_t, "logs"@, service_t] + context_args(args@)
        + int_args(args@, "tail"@, "--tail"@) + flag_args(args@, "kubernetes"@, "-k"@)
        + value_args(args@, "namespace"@, "-n"@));
    Ok(cmd)
}

/// The command line of `get_events`, or the message of the argument that is missing.
pub open spec fn get_events_command(args: Json) -> Result<Seq<Seq<char>>, Seq<char>> {
    match arg_str(args, "node"@) {
        None => Err(missing_param("node"@)),
        Some(node) => Ok(seq!["--nodes"@, node, "events"@] + context_args(args)
            + int_args(args, "tail"@, "--tail"@)),
    }
}

/// The command line that the tool `get_events` runs, built from its arguments.
pub fn handle_get_events(args: &JsonValue) -> (r: Result<Vec<String>, String>)
    ensures
        cmd_result(r) == get_events_command(args@),
{
    let node = match get_required_string(args, "node") {
        Ok(s) => s,
        Err(e) => return Err(e),
    };
    let ghost node_t = node@;
    let mut cmd: Vec<String> = Vec::new();
    push_text(&mut cmd, String::from_str("--nodes"));
    push_text(&mut cmd, node);
    push_text(&mut cmd, String::from_str("events"));
    add_context_flag(args, &mut cmd);
    push_int(args, "tail", "--tail", &mut cmd);
    assert(strs(cmd@) =~= seq!["--nodes"@, node_t, "events"@] + context_args(args@)
        + int_args(args@, "tail"@, "--tail"@));
    Ok(cmd)
}

/// The command line of `disks`, or the message of the argument that is missing.
pub open spec fn disks_command(args: Json) -> Result<Seq<Seq<char>>, Seq<char>> {
    match arg_str(args, "node"@) {
        None => Err(missing_param("node"@)),
        Some(node) => Ok(seq!["--nodes"@, node, "get"@, "disks"@] + context_args(args)
            + value_args(args, "namespace"@, "--namespace"@) + value_args(args, "output"@, "-o"@)),
    }
}

/// The command line that the tool `disks` runs, built from its arguments.
pub fn handle_disks(args: &JsonValue) -> (r: Result<Vec<String>, String>)
    ensures
        cmd_result(r) == disks_command(args@),
{
    let node = match get_required_string(args, "node") {
        Ok(s) => s,
        Err(e) => return Err(e),
    };
    let ghost node_t = node@;
    let mut cmd: Vec<String> = Vec::new();
    push_text(&mut cmd, String::from_str("--nodes"));
    push_text(&mut cmd, node);
    push_text(&mut cmd, String::from_str("get"));
    push_text(&mut cmd, String::from_str("disks"));
    add_context_flag(args, &mut cmd);
    push_value(args, "namespace", "--namespace", &mut cmd);
    push_value(args, "output", "-o", &mut cmd);
    assert(strs(cmd@) =~= seq!["--nodes"@, node_t, "get"@, "disks"@] + context_args(args@)
        + value_args(args@, "namespace"@, "--namespace"@) + value_args(args@, "output"@, "-o"@));
    Ok(cmd)
}

/// The command line of `list_disks`, or the message of the argument that is missing.
pub open spec fn list_disks_command(args: Json) -> Result<Seq<Seq<char>>, Seq<char>> {
    match arg_str(args, "node"@) {
        None => Err(missing_param("node"@)),
        Some(node) => Ok(seq!["--nodes"@, node, "disks"@]),
    }
}

/// The command line that the tool `list_disks` runs, built from its arguments.
pub fn handle_list_disks(args: &JsonValue) -> (r: Result<Vec<String>, String>)
    ensures
        cmd_result(r) == list_disks_command(args@),
{
    let node = match get_required_string(args, "node") {
        Ok(s) => s,
        Err(e) => return Err(e),
    };
    let ghost node_t = node@;
    let mut cmd: Vec<String> = Vec::new();
    push_text(&mut cmd, String::from_str("--nodes"));
    push_text(&mut cmd, node);
    push_text(&mut cmd, String::from_str("disks"));
    assert(strs(cmd@) =~= seq!["--nodes"@, node_t, "disks"@]);
    Ok(cmd)
}

/// The command line of `get_health`, or the message of the argument that is missing.
pub open spec fn get_health_command(args: Json) -> Result<Seq<Seq<char>>, Seq<char>> {
    Ok(seq!["health"@] + value_args(args, "node"@, "--nodes"@))
}

/// The command line that the tool `get_health` runs, built from its arguments.
pub fn handle_get_health(args: &JsonValue) -> (r: Result<Vec<String>, String>)
    ensures
        cmd_result(r) == get_health_command(args@),
{
    let mut cmd: Vec<String> = Vec::new();
    push_text(&mut cmd, String::from_str("health"));
    push_value(args, "node", "--nodes", &mut cmd);
    assert(strs(cmd@) =~= seq!["health"@] + value_args(args@, "node"@, "--nodes"@));
    Ok(cmd)
}

/// The command line of `get_version`, or the message of the argument that is missing.
pub open spec fn get_version_command(args: Json) -> Result<Seq<Seq<char>>, Seq<char>> {
    match arg_str(args, "node"@) {
        None => Err(missing_param("node"@)),
        Some(node) => Ok(seq!["--nodes"@, node, "version"@]
            + flag_args(args, "short"@, "--short"@)),
    }
}

/// The command line that the tool `get_version` runs, built from its arguments.
pub fn handle_get_version(args: &JsonValue) -> (r: Result<Vec<String>, String>)
    ensures
        cmd_result(r) == get_version_command(args@),
{
    let node = match get_required_string(args, "node") {
        Ok(s) => s,
        Err(e) => return Err(e),
    };
    let ghost node_t = node@;
    let mut cmd: Vec<String> = Vec::new();
    push_text(&mut cmd, String::from_str("--nodes"));
    push_text(&mut cmd, node);
    push_text(&mut cmd, String::from_str("version"));
    push_flag(args, "short", "--short", &mut cmd);
    assert(strs(cmd@) =~= seq!["--nodes"@, node_t, "version"@]
        + flag_args(args@, "short"@, "--short"@));
    Ok(cmd)
}

/// The command line of `get_time`, or the message of the argument that is missing.
pub open spec fn get_time_command(args: Json) -> Result<Seq<Seq<char>>, Seq<char>> {
    match arg_str(args, "node"@) {
        None => Err(missing_param("node"@)),
        Some(node) => Ok(seq!["--nodes"@, node, "time"@] + value_args(args, "check"@, "--check"@)),
    }
}

/// The command line that the tool `get_time` runs, built from its arguments.
pub fn handle_get_time(args: &JsonValue) -> (r: Result<Vec<String>, String>)
    ensures
        cmd_result(r) == get_time_command(args@),
{
    let node = match get_required_string(args, "node") {
        Ok(s) => s,
        Err(e) => return Err(e),
    };
    let ghost node_t = node@;
    let mut cmd: Vec<String> = Vec::new();
    push_text(&mut cmd, String::from_str("--nodes"));
    push_text(&mut cmd, node);
    push_text(&mut cmd, String::from_str("time"));
    push_value(args, "check", "--check", &mut cmd);
    assert(strs(cmd@) =~= seq!["--nodes"@, node_t, "time"@]
        + value_args(args@, "check"@, "--check"@));
    Ok(cmd)
}

/// The command line of `reboot_node`, or the message of the argument that is missing.
pub open spec fn reboot_node_command(args: Json) -> Result<Seq<Seq<char>>, Seq<char>> {
    match arg_str(args, "node"@) {
        None => Err(missing_param("node"@)),
        Some(node) => Ok(seq!["--nodes"@, node, "reboot"@] + value_args(args, "mode"@, "--mode"@)),
    }
}

/// The command line that the tool `reboot_node` runs, built from its arguments.
pub fn handle_reboot_node(args: &JsonValue) -> (r: Result<Vec<String>, String>)
    ensures
        cmd_result(r) == reboot_node_command(args@),
{
    let node = match get_required_string(args, "node") {
        Ok(s) => s,
        Err(e) => return Err(e),
    };
    let ghost node_t = node@;
    let mut cmd: Vec<String> = Vec::new();
    push_text(&mut cmd, String::from_str("--nodes"));
    push_text(&mut cmd, node);
    push_text(&mut cmd, String::from_str("reboot"));
    push_value(args, "mode", "--mode", &mut cmd);
    assert(strs(cmd@) =~= seq!["--nodes"@, node_t, "reboot"@]
        + value_args(args@, "mode"@, "--mode"@));
    Ok(cmd)
}

/// The command line of `shutdown_node`, or the message of the argument that is missing.
pub open spec fn shutdown_node_command(args: Json) -> Result<Seq<Seq<char>>, Seq<char>> {
    match arg_str(args, "node"@) {
        None => Err(missing_param("node"@)),
        Some(node) => Ok(seq!["--nodes"@, node, "shutdown"@]
            + flag_args(args, "force"@, "--force"@)),
    }
}

/// The command line that the tool `shutdown_node` runs, built from its arguments.
pub fn handle_shutdown_node(args: &JsonValue) -> (r: Result<Vec<String>, String>)
    ensures
        cmd_result(r) == shutdown_node_command(args@),
{
    let node = match get_required_string(args, "node") {
        Ok(s) => s,
        Err(e) => return Err(e),
    };
    let ghost node_t = node@;
    let mut cmd: Vec<String> = Vec::new();
    push_text(&mut cmd, String::from_str("--nodes"));
    push_text(&mut cmd, node);
    push_text(&mut cmd, String::from_str("shutdown"));
    push_flag(args, "force", "--force", &mut cmd);
    assert(strs(cmd@) =~= seq!["--nodes"@, node_t, "shutdown"@]
        + flag_args(args@, "force"@, "--force"@));
    Ok(cmd)
}

/// The command line of `reset_node`, or the message of the argument that is missing.
pub open spec fn reset_node_command(args: Json) -> Result<Seq<Seq<char>>, Seq<char>> {
    match arg_str(args, "node"@) {
        None => Err(missing_param("node"@)),
        Some(node) => Ok(seq!["--nodes"@, node, "reset"@]
            + flag_args(args, "graceful"@, "--graceful"@)
            + flag_args(args, "reboot"@, "--reboot"@)),
    }
}

/// The command line that the tool `reset_node` runs, built from its arguments.
pub fn handle_reset_node(args: &JsonValue) -> (r: Result<Vec<String>, String>)
    ensures
        cmd_result(r) == reset_node_command(args@),
{
    let node = match get_required_string(args, "node") {
        Ok(s) => s,
        Err(e) => return Err(e),
    };
    let ghost node_t = node@;
    let mut cmd: Vec<String> = Vec::new();
    push_text(&mut cmd, String::from_str("--nodes"));
    push_text(&mut cmd, node);
    push_text(&mut cmd, String::from_str("reset"));
    push_flag(args, "graceful", "--graceful", &mut cmd);
    push_flag(args, "reboot", "--reboot", &mut cmd);
    assert(strs(cmd@) =~= seq!["--nodes"@, node_t, "reset"@]
        + flag_args(args@, "graceful"@, "--graceful"@) + flag_args(args@, "reboot"@, "--reboot"@));
    Ok(cmd)
}

/// The command line of `upgrade_node`, or the message of the argument that is missing.
pub open spec fn upgrade_node_command(args: Json) -> Result<Seq<Seq<char>>, Seq<char>> {
    match arg_str(args, "node"@) {
        None => Err(missing_param("node"@)),
        Some(node) => match arg_str(args, "image"@) {
            None => Err(missing_param("image"@)),
            Some(image) => Ok(seq!["--nodes"@, node, "upgrade"@, "--image"@, image]
                + flag_args(args, "preserve"@, "--preserve"@)
                + flag_args(args, "stage"@, "--stage"@)),
        },
    }
}

/// The command line that the tool `upgrade_node` runs, built from its arguments.
pub fn handle_upgrade_node(args: &JsonValue) -> (r: Result<Vec<String>, String>)
    ensures
        cmd_result(r) == upgrade_node_command(args@),
{
    let node = match get_required_string(args, "node") {
        Ok(s) => s,
        Err(e) => return Err(e),
    };
    let ghost node_t = node@;
    let image = match get_required_string(args, "image") {
        Ok(s) => s,
        Err(e) => return Err(e),
    };
    let ghost image_t = image@;
    let mut cmd: Vec<String> = Vec::new();
    push_text(&mut cmd, String::from_str("--nodes"));
    push_text(&mut cmd, node);
    push_text(&mut cmd, String::from_str("upgrade"));
    push_text(&mut cmd, String::from_str("--image"));
    push_text(&mut cmd, image);
    push_flag(args, "preserve", "--preserve", &mut cmd);
    push_flag(args, "stage", "--stage", &mut cmd);
    assert(strs(cmd@) =~= seq!["--nodes"@, node_t, "upgrade"@, "--image"@, image_t]
        + flag_args(args@, "preserve"@, "--preserve"@) + flag_args(args@, "stage"@, "--stage"@));
    Ok(cmd)
}

/// The command line of `upgrade_k8s`, or the message of the argument that is missing.
pub open spec fn upgrade_k8s_command(args: Json) -> Result<Seq<Seq<char>>, Seq<char>> {
    match arg_str(args, "node"@) {
        None => Err(missing_param("node"@)),
        Some(node) => match arg_str(args, "version"@) {
            None => Err(missing_param("version"@)),
            Some(version) => Ok(seq!["--nodes"@, node, "upgrade-k8s"@, "--to"@, version]),
        },
    }
}

/// The command line that the tool `upgrade_k8s` runs, built from its arguments.
pub fn handle_upgrade_k8s(args: &JsonValue) -> (r: Result<Vec<String>, String>)
    ensures
        cmd_result(r) == upgrade_k8s_command(args@),
{
    let node = match get_required_string(args, "node") {
        Ok(s) => s,
        Err(e) => return Err(e),
    };
    let ghost node_t = node@;
    let version = match get_required_string(args, "version") {
        Ok(s) => s,
        Err(e) => return Err(e),
    };
    let ghost version_t = version@;
    let mut cmd: Vec<String> = Vec::new();
    push_text(&mut cmd, String::from_str("--nodes"));
    push_text(&mut cmd, node);
    push_text(&mut cmd, String::from_str("upgrade-k8s"));
    push_text(&mut cmd, String::from_str("--to"));
    push_text(&mut cmd, version);
    assert(strs(cmd@) =~= seq!["--nodes"@, node_t, "upgrade-k8s"@, "--to"@, version_t]);
    Ok(cmd)
}

/// The command line of `apply_config`, or the message of the argument that is missing.
pub open spec fn apply_config_command(args: Json) -> Result<Seq<Seq<char>>, Seq<char>> {
    match arg_str(args, "node"@) {
        None => Err(missing_param("node"@)),
        Some(node) => match arg_str(args, "file"@) {
            None => Err(missing_param("file"@)),
            Some(file) => Ok(seq!["--nodes"@, node, "apply-config"@, "--file"@, file]
                + value_args(args, "mode"@, "--mode"@)),
        },
    }
}

/// The command line that the tool `apply_config` runs, built from its arguments.
pub fn handle_apply_config(args: &JsonValue) -> (r: Result<Vec<String>, String>)
    ensures
        cmd_result(r) == apply_config_command(args@),
{
    let node = match get_required_string(args, "node") {
        Ok(s) => s,
        Err(e) => return Err(e),
    };
    let ghost node_t = node@;
    let file = match get_required_string(args, "file") {
        Ok(s) => s,
        Err(e) => return Err(e),
    };
    let ghost file_t = file@;
    let mut cmd: Vec<String> = Vec::new();
    push_text(&mut cmd, String::from_str("--nodes"));
    push_text(&mut cmd, node);
    push_text(&mut cmd, String::from_str("apply-config"));
    push_text(&mut cmd, String::from_str("--file"));
    push_text(&mut cmd, file);
    push_value(args, "mode", "--mode", &mut cmd);
    assert(strs(cmd@) =~= seq!["--nodes"@, node_t, "apply-config"@, "--file"@, file_t]
        + value_args(args@, "mode"@, "--mode"@));
    Ok(cmd)
}

/// The command line of `validate_config`, or the message of the argument that is missing.
pub open spec fn validate_config_command(args: Json) -> Result<Seq<Seq<char>>, Seq<char>> {
    match arg_str(args, "file"@) {
        None => Err(missing_param("file"@)),
        Some(file) => Ok(seq!["validate-config"@, "--file"@, file]
            + value_args(args, "mode"@, "--mode"@)),
    }
}

/// The command line that the tool `validate_config` runs, built from its arguments.
pub fn handle_validate_config(args: &JsonValue) -> (r: Result<Vec<String>, String>)
    ensures
        cmd_result(r) == validate_config_command(args@),
{
    let file = match get_required_string(args, "file") {
        Ok(s) => s,
        Err(e) => return Err(e),
    };
    let ghost file_t = file@;
    let mut cmd: Vec<String> = Vec::new();
    push_text(&mut cmd, String::from_str("validate-config"));
    push_text(&mut cmd, String::from_str("--file"));
    push_text(&mut cmd, file);
    push_value(args, "mode", "--mode", &mut cmd);
    assert(strs(cmd@) =~= seq!["validate-config"@, "--file"@, file_t]
        + value_args(args@, "mode"@, "--mode"@));
    Ok(cmd)
}

/// The command line of `get_etcd_status`, or the message of the argument that is missing.
pub open spec fn get_etcd_status_command(args: Json) -> Result<Seq<Seq<char>>, Seq<char>> {
    match arg_str(args, "node"@) {
        None => Err(missing_param("node"@)),
        Some(node) => Ok(seq!["--nodes"@, node] + context_args(args) + seq!["etcd"@, "status"@]),
    }
}

/// The command line that the tool `get_etcd_status` runs, built from its arguments.
pub fn handle_get_etcd_status(args: &JsonValue) -> (r: Result<Vec<String>, String>)
    ensures
        cmd_result(r) == get_etcd_status_command(args@),
{
    let node = match get_required_string(args, "node") {
        Ok(s) => s,
        Err(e) => return Err(e),
    };
    let ghost node_t = node@;
    let context = get_optional_string(args, "context");
    let mut cmd: Vec<String> = Vec::new();
    push_text(&mut cmd, String::from_str("--nodes"));
    push_text(&mut cmd, node);
    add_context_to_args(&context, &mut cmd);
    push_text(&mut cmd, String::from_str("etcd"));
    push_text(&mut cmd, String::from_str("status"));
    assert(strs(cmd@) =~= seq!["--nodes"@, node_t] + context_args(args@)
        + seq!["etcd"@, "status"@]);
    Ok(cmd)
}

/// The command line of `get_etcd_members`, or the message of the argument that is missing.
pub open spec fn get_etcd_members_command(args: Json) -> Result<Seq<Seq<char>>, Seq<char>> {
    match arg_str(args, "node"@) {
        None => Err(missing_param("node"@)),
        Some(node) => Ok(seq!["--nodes"@, node] + context_args(args) + seq!["etcd"@, "members"@]),
    }
}

/// The command line that the tool `get_etcd_members` runs, built from its arguments.
pub fn handle_get_etcd_members(args: &JsonValue) -> (r: Result<Vec<String>, String>)
    ensures
        cmd_result(r) == get_etcd_members_command(args@),
{
    let node = match get_required_string(args, "node") {
        Ok(s) => s,
        Err(e) => return Err(e),
    };
    let ghost node_t = node@;
    let context = get_optional_string(args, "context");
    let mut cmd: Vec<String> = Vec::new();
    push_text(&mut cmd, String::from_str("--nodes"));
    push_text(&mut cmd, node);
    add_context_to_args(&context, &mut cmd);
    push_text(&mut cmd, String::from_str("etcd"));
    push_text(&mut cmd, String::from_str("members"));
    assert(strs(cmd@) =~= seq!["--nodes"@, node_t] + context_args(args@)
        + seq!["etcd"@, "members"@]);
    Ok(cmd)
}

/// The command line of `bootstrap_etcd`, or the message of the argument that is missing.
pub open spec fn bootstrap_etcd_command(args: Json) -> Result<Seq<Seq<char>>, Seq<char>> {
    match arg_str(args, "node"@) {
        None => Err(missing_param("node"@)),
        Some(node) => Ok(seq!["--nodes"@, node] + context_args(args) + seq!["bootstrap"@]),
    }
}

/// The command line that the tool `bootstrap_etcd` runs, built from its arguments.
pub fn handle_bootstrap_etcd(args: &JsonValue) -> (r: Result<Vec<String>, String>)
    ensures
        cmd_result(r) == bootstrap_etcd_command(args@),
{
    let node = match get_required_string(args, "node") {
        Ok(s) => s,
        Err(e) => return Err(e),
    };
    let ghost node_t = node@;
    let context = get_optional_string(args, "context");
    let mut cmd: Vec<String> = Vec::new();
    push_text(&mut cmd, String::from_str("--nodes"));
    push_text(&mut cmd, node);
    add_context_to_args(&context, &mut cmd);
    push_text(&mut cmd, String::from_str("bootstrap"));
    assert(strs(cmd@) =~= seq!["--nodes"@, node_t] + context_args(args@) + seq!["bootstrap"@]);
    Ok(cmd)
}

/// The command line of `defrag_etcd`, or the message of the argument that is missing.
pub open spec fn defrag_etcd_command(args: Json) -> Result<Seq<Seq<char>>, Seq<char>> {
    match arg_str(args, "node"@) {
        None => Err(missing_param("node"@)),
        Some(node) => Ok(seq!["--nodes"@, node] + context_args(args) + seq!["etcd"@, "defrag"@]),
    }
}

/// The command line that the tool `defrag_etcd` runs, built from its arguments.
pub fn handle_defrag_etcd(args: &JsonValue) -> (r: Result<Vec<String>, String>)
    ensures
        cmd_result(r) == defrag_etcd_command(args@),
{
    let node = match get_required_string(args, "node") {
        Ok(s) => s,
        Err(e) => return Err(e),
    };
    let ghost node_t = node@;
    let context = get_optional_string(args, "context");
    let mut cmd: Vec<String> = Vec::new();
    push_text(&mut cmd, String::from_str("--nodes"));
    push_text(&mut cmd, node);
    add_context_to_args(&context, &mut cmd);
    push_text(&mut cmd, String::from_str("etcd"));
    push_text(&mut cmd, String::from_str("defrag"));
    assert(strs(cmd@) =~= seq!["--nodes"@, node_t] + context_args(args@)
        + seq!["etcd"@, "defrag"@]);
    Ok(cmd)
}

/// The command lines of `get_cpu_memory_usage`: one for the CPU and one for
/// the memory, both with the context where one is named.
pub open spec fn get_cpu_memory_usage_commands(args: Json) -> Result<
    Seq<Seq<Seq<char>>>,
    Seq<char>,
> {
    match arg_str(args, "node"@) {
        None => Err(missing_param("node"@)),
        Some(node) => {
            let ctx = option_pair("--context"@, arg_str(args, "context"@));
            Ok(seq![seq!["--nodes"@, node, "cpu"@] + ctx, seq!["--nodes"@, node, "memory"@] + ctx])
        },
    }
}

/// The two command lines that the tool `get_cpu_memory_usage` runs.
pub fn handle_get_cpu_memory_usage(args: &JsonValue) -> (r: Result<Vec<Vec<String>>, String>)
    ensures
        cmds_result(r) == get_cpu_memory_usage_commands(args@),
{
    let node = match get_required_string(args, "node") {
        Ok(s) => s,
        Err(e) => return Err(e),
    };
    let ghost node_t = node@;
    let context = get_optional_string(args, "context");
    let ghost ctx = option_pair("--context"@, opt_text(context));
    let mut cpu_args: Vec<String> = Vec::new();
    push_text(&mut cpu_args, String::from_str("--nodes"));
    push_text(&mut cpu_args, node.clone());
    push_text(&mut cpu_args, String::from_str("cpu"));
    add_context_to_args(&context, &mut cpu_args);
    let mut mem_args: Vec<String> = Vec::new();
    push_text(&mut mem_args, String::from_str("--nodes"));
    push_text(&mut mem_args, node);
    push_text(&mut mem_args, String::from_str("memory"));
    add_context_to_args(&context, &mut mem_args);
    assert(strs(cpu_args@) =~= seq!["--nodes"@, node_t, "cpu"@] + ctx);
    assert(strs(mem_args@) =~= seq!["--nodes"@, node_t, "memory"@] + ctx);
    let mut cmds: Vec<Vec<String>> = Vec::new();
    cmds.push(cpu_args);
    cmds.push(mem_args);
    assert(argvs(cmds@) =~= seq![strs(cpu_args@), strs(mem_args@)]);
    Ok(cmds)
}

/// `-t <type>` for each string among the requested file types.
pub open spec fn type_flags(items: Seq<Json>) -> Seq<Seq<char>>
    decreases items.len(),
{
    if items.len() == 0 {
        Seq::empty()
    } else {
        type_flags(items.drop_last()) + match json_as_str(items.last()) {
            Some(t) => seq!["-t"@, t],
            None => Seq::empty(),
        }
    }
}

/// The file-type filters of `list`, where the argument `type` is an array.
pub open spec fn type_args(args: Json) -> Seq<Seq<char>> {
    match json_get(args, "type"@) {
        Some(v) => match json_as_array(v) {
            Some(items) => type_flags(items),
            None => Seq::empty(),
        },
        None => Seq::empty(),
    }
}

/// The path argument, and `/` where it is missing.
pub open spec fn path_or_root(args: Json) -> Seq<char> {
    match arg_str(args, "path"@) {
        Some(p) => p,
        None => "/"@,
    }
}

/// The command line of `list`, or the message of the argument that is missing.
pub open spec fn list_command(args: Json) -> Result<Seq<Seq<char>>, Seq<char>> {
    match arg_str(args, "node"@) {
        None => Err(missing_param("node"@)),
        Some(node) => Ok(seq!["--nodes"@, node, "ls"@, path_or_root(args)] + context_args(args)
            + flag_args(args, "long"@, "-l"@) + flag_args(args, "humanize"@, "-H"@) + flag_args(
            args,
            "recurse"@,
            "-R"@,
        ) + int_args(args, "depth"@, "--depth"@) + type_args(args)),
    }
}

fn get_path_or_root(args: &JsonValue) -> (r: String)
    ensures
        r@ == path_or_root(args@),
{
    match get_optional_string(args, "path") {
        Some(p) => p,
        None => String::from_str("/"),
    }
}

/// Appends `-t <type>` for each string among the file types asked for.
fn push_types(args: &JsonValue, cmd: &mut Vec<String>)
    ensures
        strs(final(cmd)@) == strs(old(cmd)@) + type_args(args@),
{
    let ghost start = strs(cmd@);
    match args.get("type") {
        Some(types) => match types.as_array() {
            Some(items) => {
                let ghost js = json_seq(items@);
                proof {
                    lemma_json_seq(items@);
                    assert(js.take(0) =~= Seq::<Json>::empty());
                    assert(strs(cmd@) =~= start + type_flags(js.take(0)));
                }
                let n = items.len();
                for i in 0..n
                    invariant
                        n == items@.len(),
                        js == json_seq(items@),
                        js.len() == n,
                        forall|j: int| 0 <= j < n ==> #[trigger] js[j] == json_of(items@[j]),
                        strs(cmd@) == start + type_flags(js.take(i as int)),
                {
                    assert(js.take(i + 1).drop_last() =~= js.take(i as int));
                    assert(js.take(i + 1).last() == js[i as int]);
                    match items[i].as_str() {
                        Some(t) => {
                            push_text(cmd, String::from_str("-t"));
                            push_text(cmd, t.clone());
                        },
                        None => {},
                    }
                    assert(strs(cmd@) =~= start + type_flags(js.take(i + 1)));
                }
                assert(js.take(n as int) =~= js);
            },
            None => {
                assert(strs(cmd@) =~= start + type_args(args@));
            },
        },
        None => {
            assert(strs(cmd@) =~= start + type_args(args@));
        },
    }
}

/// The command line that the tool `list` runs, built from its arguments.
pub fn handle_list(args: &JsonValue) -> (r: Result<Vec<String>, String>)
    ensures
        cmd_result(r) == list_command(args@),
{
    let node = match get_required_string(args, "node") {
        Ok(s) => s,
        Err(e) => return Err(e),
    };
    let ghost node_t = node@;
    let path = get_path_or_root(args);
    let ghost path_t = path@;
    let mut cmd: Vec<String> = Vec::new();
    push_text(&mut cmd, String::from_str("--nodes"));
    push_text(&mut cmd, node);
    push_text(&mut cmd, String::from_str("ls"));
    push_text(&mut cmd, path);
    add_context_flag(args, &mut cmd);
    push_flag(args, "long", "-l", &mut cmd);
    push_flag(args, "humanize", "-H", &mut cmd);
    push_flag(args, "recurse", "-R", &mut cmd);
    push_int(args, "depth", "--depth", &mut cmd);
    push_types(args, &mut cmd);
    assert(strs(cmd@) =~= seq!["--nodes"@, node_t, "ls"@, path_t] + context_args(args@)
        + flag_args(args@, "long"@, "-l"@) + flag_args(args@, "humanize"@, "-H"@) + flag_args(
        args@,
        "recurse"@,
        "-R"@,
    ) + int_args(args@, "depth"@, "--depth"@) + type_args(args@));
    Ok(cmd)
}

/// The command line of `copy`, or the message of the argument that is missing.
pub open spec fn copy_command(args: Json) -> Result<Seq<Seq<char>>, Seq<char>> {
    match arg_str(args, "node"@) {
        None => Err(missing_param("node"@)),
        Some(node) => match arg_str(args, "source"@) {
            None => Err(missing_param("source"@)),
            Some(source) => match arg_str(args, "destination"@) {
                None => Err(missing_param("destination"@)),
                Some(destination) => Ok(
                    seq!["cp"@, node + ":"@ + source, destination] + context_args(args),
                ),
            },
        },
    }
}

/// The command line that the tool `copy` runs, built from its arguments.
pub fn handle_copy(args: &JsonValue) -> (r: Result<Vec<String>, String>)
    ensures
        cmd_result(r) == copy_command(args@),
{
    let node = match get_required_string(args, "node") {
        Ok(s) => s,
        Err(e) => return Err(e),
    };
    let source = match get_required_string(args, "source") {
        Ok(s) => s,
        Err(e) => return Err(e),
    };
    let destination = match get_required_string(args, "destination") {
        Ok(s) => s,
        Err(e) => return Err(e),
    };
    let ghost destination_t = destination@;
    let mut src_path = concat(node.as_str(), ":");
    src_path.append(source.as_str());
    let ghost src_t = src_path@;
    let mut cmd: Vec<String> = Vec::new();
    push_text(&mut cmd, String::from_str("cp"));
    push_text(&mut cmd, src_path);
    push_text(&mut cmd, destination);
    add_context_flag(args, &mut cmd);
    assert(strs(cmd@) =~= seq!["cp"@, src_t, destination_t] + context_args(args@));
    Ok(cmd)
}

/// The command line of `get_usage`, or the message of the argument that is
/// missing.
pub open spec fn get_usage_command(args: Json) -> Result<Seq<Seq<char>>, Seq<char>> {
    match arg_str(args, "node"@) {
        None => Err(missing_param("node"@)),
        Some(node) => Ok(seq!["--nodes"@, node, "usage"@, path_or_root(args)] + context_args(args)),
    }
}

/// The command line that the tool `get_usage` runs, built from its arguments.
pub fn handle_get_usage(args: &JsonValue) -> (r: Result<Vec<String>, String>)
    ensures
        cmd_result(r) == get_usage_command(args@),
{
    let node = match get_required_string(args, "node") {
        Ok(s) => s,
        Err(e) => return Err(e),
    };
    let ghost node_t = node@;
    let path = get_path_or_root(args);
    let ghost path_t = path@;
    let mut cmd: Vec<String> = Vec::new();
    push_text(&mut cmd, String::from_str("--nodes"));
    push_text(&mut cmd, node);
    push_text(&mut cmd, String::from_str("usage"));
    push_text(&mut cmd, path);
    add_context_flag(args, &mut cmd);
    assert(strs(cmd@) =~= seq!["--nodes"@, node_t, "usage"@, path_t] + context_args(args@));
    Ok(cmd)
}

/// The actions that the tool `service` accepts.
pub open spec fn is_service_action(action: Seq<char>) -> bool {
    action == "start"@ || action == "stop"@ || action == "restart"@ || action == "status"@
}

/// The command line of `service`, the message of the argument that is
/// missing, or the message that the action is not one that it accepts.
pub open spec fn service_command(args: Json) -> Result<Seq<Seq<char>>, Seq<char>> {
    match arg_str(args, "node"@) {
        None => Err(missing_param("node"@)),
        Some(node) => match arg_str(args, "service"@) {
            None => Err(missing_param("service"@)),
            Some(service) => match arg_str(args, "action"@) {
                None => Err(missing_param("action"@)),
                Some(action) => if is_service_action(action) {
                    Ok(seq!["--nodes"@, node, "service"@, service, action] + context_args(args))
                } else {
                    Err("Invalid service action: "@ + action)
                },
            },
        },
    }
}

/// Whether `s` reads `lit`.
pub fn text_is(s: &String, lit: &str) -> (r: bool)
    ensures
        r == (s@ == lit@),
{
    *s == String::from_str(lit)
}

/// The command line that the tool `service` runs, built from its arguments.
pub fn handle_service(args: &JsonValue) -> (r: Result<Vec<String>, String>)
    ensures
        cmd_result(r) == service_command(args@),
{
    let node = match get_required_string(args, "node") {
        Ok(s) => s,
        Err(e) => return Err(e),
    };
    let ghost node_t = node@;
    let service = match get_required_string(args, "service") {
        Ok(s) => s,
        Err(e) => return Err(e),
    };
    let ghost service_t = service@;
    let action = match get_required_string(args, "action") {
        Ok(s) => s,
        Err(e) => return Err(e),
    };
    let ghost action_t = action@;
    if !(text_is(&action, "start") || text_is(&action, "stop") || text_is(&action, "restart")
        || text_is(&action, "status")) {
        return Err(concat("Invalid service action: ", action.as_str()));
    }
    let mut cmd: Vec<String> = Vec::new();
    push_text(&mut cmd, String::from_str("--nodes"));
    push_text(&mut cmd, node);
    push_text(&mut cmd, String::from_str("service"));
    push_text(&mut cmd, service);
    push_text(&mut cmd, action);
    add_context_flag(args, &mut cmd);
    assert(strs(cmd@) =~= seq!["--nodes"@, node_t, "service"@, service_t, action_t]
        + context_args(args@));
    Ok(cmd)
}

/// A single command line, as a list of one.
pub open spec fn single(r: Result<Seq<Seq<char>>, Seq<char>>) -> Result<
    Seq<Seq<Seq<char>>>,
    Seq<char>,
> {
    match r {
        Ok(c) => Ok(seq![c]),
        Err(e) => Err(e),
    }
}

fn one(r: Result<Vec<String>, String>) -> (o: Result<Vec<Vec<String>>, String>)
    ensures
        cmds_result(o) == single(cmd_result(r)),
{
    match r {
        Ok(c) => {
            let mut v: Vec<Vec<String>> = Vec::new();
            v.push(c);
            assert(argvs(v@) =~= seq![strs(v@[0]@)]);
            Ok(v)
        },
        Err(e) => Err(e),
    }
}

/// The names of the tools, in the order in which they are listed.
pub open spec fn tool_names() -> Seq<Seq<char>> {
    seq![

        "containers"@,
        "stats"@,
        "get_processes"@,
        "memory_verbose"@,
        "get_cpu_memory_usage"@,
        "list"@,
        "read"@,
        "copy"@,
        "get_usage"@,
        "get_mounts"@,
        "interfaces"@,
        "routes"@,
        "get_netstat"@,
        "capture_packets"@,
        "get_network_io_cgroups"@,
        "list_network_interfaces"@,
        "dmesg"@,
        "service"@,
        "restart"@,
        "get_logs"@,
        "get_events"@,
        "disks"@,
        "list_disks"@,
        "get_health"@,
        "get_version"@,
        "get_time"@,
        "reboot_node"@,
        "shutdown_node"@,
        "reset_node"@,
        "upgrade_node"@,
        "upgrade_k8s"@,
        "apply_config"@,
        "validate_config"@,
        "get_etcd_status"@,
        "get_etcd_members"@,
        "bootstrap_etcd"@,
        "defrag_etcd"@,
    ]
}

/// The command lines that the tool `name` runs with `args` (or the message
/// that stops it), and `None` where there is no tool of that name.
pub open spec fn tool_commands(name: Seq<char>, args: Json) -> Option<
    Result<Seq<Seq<Seq<char>>>, Seq<char>>,
> {
    if name == "containers"@ {
        Some(single(containers_command(args)))
    } else if name == "stats"@ {
        Some(single(stats_command(args)))
    } else if name == "get_processes"@ {
        Some(single(get_processes_command(args)))
    } else if name == "memory_verbose"@ {
        Some(single(memory_verbose_command(args)))
    } else if name == "get_cpu_memory_usage"@ {
        Some(get_cpu_memory_usage_commands(args))
    } else if name == "list"@ {
        Some(single(list_command(args)))
    } else if name == "read"@ {
        Some(single(read_command(args)))
    } else if name == "copy"@ {
        Some(single(copy_command(args)))
    } else if name == "get_usage"@ {
        Some(single(get_usage_command(args)))
    } else if name == "get_mounts"@ {
        Some(single(get_mounts_command(args)))
    } else if name == "interfaces"@ {
        Some(single(interfaces_command(args)))
    } else if name == "routes"@ {
        Some(single(routes_command(args)))
    } else if name == "get_netstat"@ {
        Some(single(get_netstat_command(args)))
    } else if name == "capture_packets"@ {
        Some(single(capture_packets_command(args)))
    } else if name == "get_network_io_cgroups"@ {
        Some(single(get_network_io_cgroups_command(args)))
    } else if name == "list_network_interfaces"@ {
        Some(single(list_network_interfaces_command(args)))
    } else if name == "dmesg"@ {
        Some(single(dmesg_command(args)))
    } else if name == "service"@ {
        Some(single(service_command(args)))
    } else if name == "restart"@ {
        Some(single(restart_command(args)))
    } else if name == "get_logs"@ {
        Some(single(get_logs_command(args)))
    } else if name == "get_events"@ {
        Some(single(get_events_command(args)))
    } else if name == "disks"@ {
        Some(single(disks_command(args)))
    } else if name == "list_disks"@ {
        Some(single(list_disks_command(args)))
    } else if name == "get_health"@ {
        Some(single(get_health_command(args)))
    } else if name == "get_version"@ {
        Some(single(get_version_command(args)))
    } else if name == "get_time"@ {
        Some(single(get_time_command(args)))
    } else if name == "reboot_node"@ {
        Some(single(reboot_node_command(args)))
    } else if name == "shutdown_node"@ {
        Some(single(shutdown_node_command(args)))
    } else if name == "reset_node"@ {
        Some(single(reset_node_command(args)))
    } else if name == "upgrade_node"@ {
        Some(single(upgrade_node_command(args)))
    } else if name == "upgrade_k8s"@ {
        Some(single(upgrade_k8s_command(args)))
    } else if name == "apply_config"@ {
        Some(single(apply_config_command(args)))
    } else if name == "validate_config"@ {
        Some(single(validate_config_command(args)))
    } else if name == "get_etcd_status"@ {
        Some(single(get_etcd_status_command(args)))
    } else if name == "get_etcd_members"@ {
        Some(single(get_etcd_members_command(args)))
    } else if name == "bootstrap_etcd"@ {
        Some(single(bootstrap_etcd_command(args)))
    } else if name == "defrag_etcd"@ {
        Some(single(defrag_etcd_command(args)))
    } else {
        None
    }
}

/// The command lines that the tool `name` runs with `args`, the message of
/// the error that stops it, or `None` where no tool has that name.
pub fn dispatch_tool(name: &String, args: &JsonValue) -> (r: Option<
    Result<Vec<Vec<String>>, String>,
>)
    ensures
        match r {
            Some(c) => tool_commands(name@, args@) == Some(cmds_result(c)),
            None => tool_commands(name@, args@) is None,
        },
{
    reveal(tool_commands);
    if text_is(name, "containers") {
        Some(one(handle_containers(args)))
    } else if text_is(name, "stats") {
        Some(one(handle_stats(args)))
    } else if text_is(name, "get_processes") {
        Some(one(handle_get_processes(args)))
    } else if text_is(name, "memory_verbose") {
        Some(one(handle_memory_verbose(args)))
    } else if text_is(name, "get_cpu_memory_usage") {
        Some(handle_get_cpu_memory_usage(args))
    } else if text_is(name, "list") {
        Some(one(handle_list(args)))
    } else if text_is(name, "read") {
        Some(one(handle_read(args)))
    } else if text_is(name, "copy") {
        Some(one(handle_copy(args)))
    } else if text_is(name, "get_usage") {
        Some(one(handle_get_usage(args)))
    } else if text_is(name, "get_mounts") {
        Some(one(handle_get_mounts(args)))
    } else if text_is(name, "interfaces") {
        Some(one(handle_interfaces(args)))
    } else if text_is(name, "routes") {
        Some(one(handle_routes(args)))
    } else if text_is(name, "get_netstat") {
        Some(one(handle_get_netstat(args)))
    } else if text_is(name, "capture_packets") {
        Some(one(handle_capture_packets(args)))
    } else if text_is(name, "get_network_io_cgroups") {
        Some(one(handle_get_network_io_cgroups(args)))
    } else if text_is(name, "list_network_interfaces") {
        Some(one(handle_list_network_interfaces(args)))
    } else if text_is(name, "dmesg") {
        Some(one(handle_dmesg(args)))
    } else if text_is(name, "service") {
        Some(one(handle_service(args)))
    } else if text_is(name, "restart") {
        Some(one(handle_restart(args)))
    } else if text_is(name, "get_logs") {
        Some(one(handle_get_logs(args)))
    } else if text_is(name, "get_events") {
        Some(one(handle_get_events(args)))
    } else if text_is(name, "disks") {
        Some(one(handle_disks(args)))
    } else if text_is(name, "list_disks") {
        Some(one(handle_list_disks(args)))
    } else if text_is(name, "get_health") {
        Some(one(handle_get_health(args)))
    } else if text_is(name, "get_version") {
        Some(one(handle_get_version(args)))
    } else if text_is(name, "get_time") {
        Some(one(handle_get_time(args)))
    } else if text_is(name, "reboot_node") {
        Some(one(handle_reboot_node(args)))
    } else if text_is(name, "shutdown_node") {
        Some(one(handle_shutdown_node(args)))
    } else if text_is(name, "reset_node") {
        Some(one(handle_reset_node(args)))
    } else if text_is(name, "upgrade_node") {
        Some(one(handle_upgrade_node(args)))
    } else if text_is(name, "upgrade_k8s") {
        Some(one(handle_upgrade_k8s(args)))
    } else if text_is(name, "apply_config") {
        Some(one(handle_apply_config(args)))
    } else if text_is(name, "validate_config") {
        Some(one(handle_validate_config(args)))
    } else if text_is(name, "get_etcd_status") {
        Some(one(handle_get_etcd_status(args)))
    } else if text_is(name, "get_etcd_members") {
        Some(one(handle_get_etcd_members(args)))
    } else if text_is(name, "bootstrap_etcd") {
        Some(one(handle_bootstrap_etcd(args)))
    } else if text_is(name, "defrag_etcd") {
        Some(one(handle_defrag_etcd(args)))
    } else {
        None
    }
}


} // verus!
