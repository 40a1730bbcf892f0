//! The server's answers: which method gets which reply, and how a tool call
//! runs `talosctl` and turns what it printed into the reply.
//!
//! A tool call is a small state machine. `handle_tool_call` either answers
//! at once or returns a `ToolCall` that asks for a command to be run; the
//! caller runs it and hands the outcome to `ToolCall::resume`, which asks for
//! the next command or answers.

use vstd::prelude::*;
use vstd::utf8::{decode_utf8, valid_utf8};

use crate::args::strs;
use crate::handlers::{argvs, dispatch_tool, tool_commands};
use crate::json::{
    array1, json_as_str, json_get, json_seq, lemma_members1, lemma_members2,
    lemma_members3, object, text, Json, JsonValue,
};
use crate::mcp::{
    clone_opt, error_reply, opt_json, plain_error, success_reply, JsonRpcError, JsonRpcRequest,
    JsonRpcResponse, RpcRequest, RpcResponse, INVALID_PARAMS, METHOD_NOT_FOUND, PARSE_ERROR,
    TOOL_ERROR,
};
use crate::text::{concat, trim, trim_text};
use crate::tools::{get_all_tool_schemas, schema_json, tool_defs, ToolDef};

verus! {

/// The text of `bytes` as `String::from_utf8_lossy` reads them.
pub uninterp spec fn utf8_lossy(bytes: Seq<u8>) -> Seq<char>;

/// Calls `String::from_utf8_lossy`. Its documentation says that it reads
/// valid UTF-8 as it is and replaces each invalid sequence with U+FFFD;
/// the contract states the first and names the result for the rest.
#[verifier::external_body]
fn decode_lossy(bytes: &[u8]) -> (r: String)
    ensures
        r@ == utf8_lossy(bytes@),
        valid_utf8(bytes@) ==> r@ == decode_utf8(bytes@),
{
    String::from_utf8_lossy(bytes).into_owned()
}

/// What came of running `talosctl`: it ran and exited (successfully or
/// not) with the bytes it printed, or it could not be started.
pub enum CommandOutcome {
    Finished { success: bool, stdout: Vec<u8>, stderr: Vec<u8> },
    NotStarted,
}

pub enum Outcome {
    Finished { success: bool, stdout: Seq<u8>, stderr: Seq<u8> },
    NotStarted,
}

impl View for CommandOutcome {
    type V = Outcome;

    open spec fn view(&self) -> Outcome {
        match self {
            CommandOutcome::Finished { success, stdout, stderr } => Outcome::Finished {
                success: *success,
                stdout: stdout@,
                stderr: stderr@,
            },
            CommandOutcome::NotStarted => Outcome::NotStarted,
        }
    }
}

/// What a run of `talosctl` that exited gives: on success what it printed
/// on standard output (or, where that is empty, on standard error); on
/// failure a message with what it printed on standard error (or, where that
/// is empty, on standard output).
pub open spec fn finished_result(success: bool, stdout: Seq<char>, stderr: Seq<char>) -> Result<
    Seq<char>,
    Seq<char>,
> {
    if !success {
        Err(
            "talosctl failed: "@ + if stderr.len() == 0 {
                stdout
            } else {
                stderr
            },
        )
    } else if stdout.len() == 0 {
        Ok(stderr)
    } else {
        Ok(stdout)
    }
}

/// What a run of `talosctl` gives, its output read as text.
pub open spec fn outcome_result(o: Outcome) -> Result<Seq<char>, Seq<char>> {
    match o {
        Outcome::NotStarted => Err("Failed to execute talosctl"@),
        Outcome::Finished { success, stdout, stderr } => finished_result(
            success,
            utf8_lossy(stdout),
            utf8_lossy(stderr),
        ),
    }
}

/// Whether `talosctl` ran and printed valid UTF-8 on both streams.
pub open spec fn valid_output(o: Outcome) -> bool {
    match o {
        Outcome::Finished { stdout, stderr, .. } => valid_utf8(stdout) && valid_utf8(stderr),
        Outcome::NotStarted => true,
    }
}

/// What a run of `talosctl` gives where what it printed is valid UTF-8.
pub open spec fn decoded_result(o: Outcome) -> Result<Seq<char>, Seq<char>> {
    match o {
        Outcome::NotStarted => Err("Failed to execute talosctl"@),
        Outcome::Finished { success, stdout, stderr } => finished_result(
            success,
            decode_utf8(stdout),
            decode_utf8(stderr),
        ),
    }
}

pub open spec fn text_result(r: Result<String, String>) -> Result<Seq<char>, Seq<char>> {
    match r {
        Ok(s) => Ok(s@),
        Err(e) => Err(e@),
    }
}

/// The output of a run of `talosctl` that exited, or the message of its
/// failure.
pub fn talosctl_result(success: bool, stdout: String, stderr: String) -> (r: Result<String, String>)
    ensures
        text_result(r) == finished_result(success, stdout@, stderr@),
{
    if !success {
        if stderr.as_str().is_empty() {
            Err(concat("talosctl failed: ", stdout.as_str()))
        } else {
            Err(concat("talosctl failed: ", stderr.as_str()))
        }
    } else if stdout.as_str().is_empty() {
        Ok(stderr)
    } else {
        Ok(stdout)
    }
}

/// The output of `talosctl`, or the message of its failure.
pub fn command_result(outcome: CommandOutcome) -> (r: Result<String, String>)
    ensures
        text_result(r) == outcome_result(outcome@),
        valid_output(outcome@) ==> text_result(r) == decoded_result(outcome@),
{
    match outcome {
        CommandOutcome::NotStarted => Err(String::from_str("Failed to execute talosctl")),
        CommandOutcome::Finished { success, stdout, stderr } => {
            let out = decode_lossy(stdout.as_slice());
            let err = decode_lossy(stderr.as_slice());
            talosctl_result(success, out, err)
        },
    }
}

/// How the outputs of a tool's commands make up its text.
#[derive(Debug, Clone, Copy, PartialEq, Eq)]
pub enum OutputForm {
    /// The output of its one command.
    Single,
    /// The outputs of a CPU command and a memory command, under headings.
    CpuAndMemory,
}

/// How many commands a tool with this form runs.
pub open spec fn form_len(form: OutputForm) -> nat {
    match form {
        OutputForm::Single => 1,
        OutputForm::CpuAndMemory => 2,
    }
}

/// The form of the tool `name`.
pub open spec fn form_of(name: Seq<char>) -> OutputForm {
    if name == "get_cpu_memory_usage"@ {
        OutputForm::CpuAndMemory
    } else {
        OutputForm::Single
    }
}

/// The text of a tool from the outputs of its commands.
pub open spec fn tool_output(form: OutputForm, outputs: Seq<Seq<char>>) -> Seq<char> {
    match form {
        OutputForm::Single => outputs[0],
        OutputForm::CpuAndMemory => "=== CPU ===\n"@ + trim(outputs[0]) + "\n\n=== Memory ===\n"@
            + trim(outputs[1]),
    }
}

/// A text item of the content of a tool result.
pub open spec fn text_item(t: Seq<char>) -> Json {
    Json::Object(seq![("type"@, Json::Str("text"@)), ("text"@, Json::Str(t))])
}

/// The result of a tool call: its text, or the message of its error marked
/// as an error.
pub open spec fn tool_reply_json(r: Result<Seq<char>, Seq<char>>) -> Json {
    match r {
        Ok(t) => Json::Object(seq![("content"@, Json::Array(seq![text_item(t)]))]),
        Err(m) => Json::Object(
            seq![
                ("content"@, Json::Array(seq![text_item("Error: "@ + m)])),
                ("isError"@, Json::Bool(true)),
            ],
        ),
    }
}

fn text_item_value(t: String) -> (r: JsonValue)
    ensures
        r@ == text_item(t@),
{
    let a = (String::from_str("type"), text("text"));
    let b = (String::from_str("text"), JsonValue::String(t));
    proof {
        lemma_members2(a, b);
    }
    object(vec![a, b])
}

/// The result of a tool call.
pub fn tool_reply(r: Result<String, String>) -> (v: JsonValue)
    ensures
        v@ == tool_reply_json(text_result(r)),
{
    match r {
        Ok(t) => {
            let ghost tv = t@;
            let item = text_item_value(t);
            let a = (String::from_str("content"), array1(item));
            proof {
                lemma_members1(a);
            }
            let v = vec![a];
            assert(v@ == seq![a]);
            let o = object(v);
            assert(o@ == tool_reply_json(Ok(tv)));
            o
        },
        Err(m) => {
            let a = (
                String::from_str("content"),
                array1(text_item_value(concat("Error: ", m.as_str()))),
            );
            let b = (String::from_str("isError"), JsonValue::Bool(true));
            proof {
                lemma_members2(a, b);
            }
            object(vec![a, b])
        },
    }
}

/// The text of a tool from the outputs of its commands.
pub fn tool_output_text(form: OutputForm, outputs: &Vec<String>) -> (r: String)
    requires
        outputs@.len() == form_len(form),
    ensures
        r@ == tool_output(form, strs(outputs@)),
{
    match form {
        OutputForm::Single => outputs[0].clone(),
        OutputForm::CpuAndMemory => {
            let mut out = String::from_str("=== CPU ===\n");
            let cpu = trim_text(outputs[0].as_str());
            out.append(cpu.as_str());
            out.append("\n\n=== Memory ===\n");
            let memory = trim_text(outputs[1].as_str());
            out.append(memory.as_str());
            out
        },
    }
}

/// A tool call under way: the commands that it runs and the outputs of
/// those that have run.
pub struct ToolCall {
    id: Option<JsonValue>,
    form: OutputForm,
    commands: Vec<Vec<String>>,
    outputs: Vec<String>,
}

/// The state of a tool call under way.
pub struct CallState {
    pub id: Option<Json>,
    pub form: OutputForm,
    pub commands: Seq<Seq<Seq<char>>>,
    pub outputs: Seq<Seq<char>>,
}

impl ToolCall {
    #[verifier::type_invariant]
    spec fn inv(self) -> bool {
        &&& self.commands@.len() == form_len(self.form)
        &&& self.outputs@.len() < self.commands@.len()
    }
}

impl View for ToolCall {
    type V = CallState;

    closed spec fn view(&self) -> CallState {
        CallState {
            id: opt_json(self.id),
            form: self.form,
            commands: argvs(self.commands@),
            outputs: strs(self.outputs@),
        }
    }
}

/// What the server does next: reply, or run a command for a tool call.
pub enum Step {
    Reply(JsonRpcResponse),
    Run(ToolCall),
}

pub enum Next {
    Reply(RpcResponse),
    Run(CallState),
}

impl View for Step {
    type V = Next;

    open spec fn view(&self) -> Next {
        match self {
            Step::Reply(r) => Next::Reply(r@),
            Step::Run(c) => Next::Run(c@),
        }
    }
}

/// What follows when the command that a call is waiting for comes back
/// with `r`: the first failure ends the call with an error result; after
/// the last command the call ends with the tool's text.
pub open spec fn resume_next(c: CallState, r: Result<Seq<char>, Seq<char>>) -> Next {
    match r {
        Err(m) => Next::Reply(success_reply(c.id, tool_reply_json(Err(m)))),
        Ok(out) => {
            let outputs = c.outputs.push(out);
            if outputs.len() < c.commands.len() {
                Next::Run(CallState { outputs, ..c })
            } else {
                Next::Reply(success_reply(c.id, tool_reply_json(Ok(tool_output(c.form, outputs)))))
            }
        },
    }
}

impl ToolCall {
    /// The command line to run next.
    pub fn command(&self) -> (r: &Vec<String>)
        ensures
            self@.outputs.len() < self@.commands.len(),
            strs(r@) == self@.commands[self@.outputs.len() as int],
    {
        proof {
            use_type_invariant(self);
        }
        &self.commands[self.outputs.len()]
    }

    /// Goes on after the command returned by `command` came back with
    /// `outcome`.
    pub fn resume(self, outcome: CommandOutcome) -> (r: Step)
        ensures
            r@ == resume_next(self@, outcome_result(outcome@)),
            valid_output(outcome@) ==> r@ == resume_next(self@, decoded_result(outcome@)),
    {
        proof {
            use_type_invariant(&self);
        }
        let ToolCall { id, form, commands, outputs } = self;
        match command_result(outcome) {
            Err(m) => Step::Reply(JsonRpcResponse::success(id, tool_reply(Err(m)))),
            Ok(out) => {
                let mut outputs = outputs;
                proof {
                    crate::args::lemma_strs_push(outputs@, out);
                }
                outputs.push(out);
                if outputs.len() < commands.len() {
                    Step::Run(ToolCall { id, form, commands, outputs })
                } else {
                    let t = tool_output_text(form, &outputs);
                    Step::Reply(JsonRpcResponse::success(id, tool_reply(Ok(t))))
                }
            },
        }
    }
}

/// How many command lines a known tool runs: two for the CPU and memory
/// tool, one for any other.
pub proof fn lemma_command_count(name: Seq<char>, args: Json)
    ensures
        tool_commands(name, args) matches Some(Ok(c)) ==> c.len() == form_len(form_of(name)),
{
    reveal(tool_commands);
    if name == "get_cpu_memory_usage"@ {
        reveal_strlit("get_cpu_memory_usage");
        reveal_strlit("containers");
        reveal_strlit("stats");
        reveal_strlit("get_processes");
        reveal_strlit("memory_verbose");
        assert(name.len() == 20);
        assert("containers"@.len() == 10);
        assert("stats"@.len() == 5);
        assert("get_processes"@.len() == 13);
        assert("memory_verbose"@.len() == 14);
    }
}

/// The reply to a `tools/call` request, or the first command it runs.
pub open spec fn tool_call_next(req: RpcRequest) -> Next {
    match req.params {
        None => Next::Reply(
            error_reply(req.id, plain_error(INVALID_PARAMS, "Invalid params: "@ + "Missing params"@)),
        ),
        Some(params) => {
            let name = tool_name_of(params);
            let args = tool_args_of(params);
            match tool_commands(name, args) {
                None => Next::Reply(
                    error_reply(req.id, plain_error(TOOL_ERROR, "Unknown tool: "@ + name)),
                ),
                Some(Err(m)) => Next::Reply(success_reply(req.id, tool_reply_json(Err(m)))),
                Some(Ok(commands)) => Next::Run(
                    CallState { id: req.id, form: form_of(name), commands, outputs: Seq::empty() },
                ),
            }
        },
    }
}

/// The tool that a call names: the string `name`, and the empty name where
/// there is none.
pub open spec fn tool_name_of(params: Json) -> Seq<char> {
    match json_get(params, "name"@) {
        Some(v) => match json_as_str(v) {
            Some(s) => s,
            None => Seq::empty(),
        },
        None => Seq::empty(),
    }
}

/// The arguments of a call, and the empty object where there are none.
pub open spec fn tool_args_of(params: Json) -> Json {
    match json_get(params, "arguments"@) {
        Some(a) => a,
        None => Json::Object(Seq::empty()),
    }
}

/// Answers a `tools/call` request, or starts the tool call it asks for.
pub fn handle_tool_call(request: &JsonRpcRequest) -> (r: Step)
    ensures
        r@ == tool_call_next(request@),
{
    let params = match &request.params {
        Some(p) => p,
        None => {
            return Step::Reply(
                JsonRpcResponse::error(
                    clone_opt(&request.id),
                    JsonRpcError::invalid_params("Missing params"),
                ),
            );
        },
    };
    let tool_name: String = match params.get("name") {
        Some(n) => match n.as_str() {
            Some(s) => s.clone(),
            None => String::new(),
        },
        None => String::new(),
    };
    let arguments = match params.get("arguments") {
        Some(a) => a.clone(),
        None => {
            let empty: Vec<(String, JsonValue)> = Vec::new();
            assert(crate::json::json_members(empty@) =~= Seq::empty());
            JsonValue::Object(empty)
        },
    };
    match dispatch_tool(&tool_name, &arguments) {
        None => {
            let message = concat("Unknown tool: ", tool_name.as_str());
            Step::Reply(
                JsonRpcResponse::error(
                    clone_opt(&request.id),
                    JsonRpcError::tool_error(message.as_str()),
                ),
            )
        },
        Some(Err(m)) => Step::Reply(JsonRpcResponse::success(clone_opt(&request.id), tool_reply(Err(m)))),
        Some(Ok(commands)) => {
            let form = if crate::handlers::text_is(&tool_name, "get_cpu_memory_usage") {
                OutputForm::CpuAndMemory
            } else {
                OutputForm::Single
            };
            proof {
                lemma_command_count(tool_name@, arguments@);
            }
            let outputs: Vec<String> = Vec::new();
            assert(strs(outputs@) =~= Seq::empty());
            Step::Run(ToolCall { id: clone_opt(&request.id), form, commands, outputs })
        },
    }
}

/// The result of `initialize`: the protocol version, the capabilities (tools
/// whose list does not change), and the server's name and version.
pub open spec fn initialize_result() -> Json {
    Json::Object(
        seq![
            ("protocolVersion"@, Json::Str("2024-11-05"@)),
            (
                "capabilities"@,
                Json::Object(
                    seq![
                        ("tools"@, Json::Object(seq![("listChanged"@, Json::Bool(false))])),
                    ],
                ),
            ),
            (
                "serverInfo"@,
                Json::Object(
                    seq![("name"@, Json::Str("talos-mcp"@)), ("version"@, Json::Str("1.0.0"@))],
                ),
            ),
        ],
    )
}

/// The result of `tools/list`: the schema of every tool.
pub open spec fn tools_list_result() -> Json {
    Json::Object(
        seq![("tools"@, Json::Array(tool_defs().map_values(|t: ToolDef| schema_json(t))))],
    )
}

/// What the server does with a request.
pub open spec fn request_next(req: RpcRequest) -> Next {
    if req.method == "initialize"@ {
        Next::Reply(success_reply(req.id, initialize_result()))
    } else if req.method == "initialized"@ {
        Next::Reply(success_reply(req.id, Json::Null))
    } else if req.method == "tools/list"@ {
        Next::Reply(success_reply(req.id, tools_list_result()))
    } else if req.method == "tools/call"@ {
        tool_call_next(req)
    } else if req.method == "ping"@ {
        Next::Reply(success_reply(req.id, Json::Object(Seq::empty())))
    } else {
        Next::Reply(
            error_reply(req.id, plain_error(METHOD_NOT_FOUND, "Method not found: "@ + req.method)),
        )
    }
}

/// The reply to `initialize`.
pub fn handle_initialize(request: &JsonRpcRequest) -> (r: JsonRpcResponse)
    ensures
        r@ == success_reply(request@.id, initialize_result()),
{
    let listed = (String::from_str("listChanged"), JsonValue::Bool(false));
    proof {
        lemma_members1(listed);
    }
    let v1 = vec![listed];
    assert(v1@ == seq![listed]);
    let tools = (String::from_str("tools"), object(v1));
    proof {
        lemma_members1(tools);
    }
    let name = (String::from_str("name"), text("talos-mcp"));
    let version = (String::from_str("version"), text("1.0.0"));
    proof {
        lemma_members2(name, version);
    }
    let a = (String::from_str("protocolVersion"), text("2024-11-05"));
    let v2 = vec![tools];
    assert(v2@ == seq![tools]);
    let b = (String::from_str("capabilities"), object(v2));
    let v3 = vec![name, version];
    assert(v3@ == seq![name, version]);
    let c = (String::from_str("serverInfo"), object(v3));
    proof {
        lemma_members3(a, b, c);
    }
    let v4 = vec![a, b, c];
    assert(v4@ == seq![a, b, c]);
    let result = object(v4);
    assert(result@ == initialize_result());
    JsonRpcResponse::success(clone_opt(&request.id), result)
}

/// The reply to `tools/list`.
pub fn handle_tools_list(request: &JsonRpcRequest) -> (r: JsonRpcResponse)
    ensures
        r@ == success_reply(request@.id, tools_list_result()),
{
    let tools = get_all_tool_schemas();
    let ghost tv = json_seq(tools@);
    let a = (String::from_str("tools"), JsonValue::Array(tools));
    proof {
        lemma_members1(a);
    }
    let v = vec![a];
    assert(v@ == seq![a]);
    let result = object(v);
    assert(result@ == tools_list_result());
    JsonRpcResponse::success(clone_opt(&request.id), result)
}

/// Answers a request, or starts the tool call it asks for.
pub fn handle_request(request: &JsonRpcRequest) -> (r: Step)
    ensures
        r@ == request_next(request@),
{
    let method = &request.method;
    if crate::handlers::text_is(method, "initialize") {
        Step::Reply(handle_initialize(request))
    } else if crate::handlers::text_is(method, "initialized") {
        Step::Reply(JsonRpcResponse::success(clone_opt(&request.id), JsonValue::Null))
    } else if crate::handlers::text_is(method, "tools/list") {
        Step::Reply(handle_tools_list(request))
    } else if crate::handlers::text_is(method, "tools/call") {
        handle_tool_call(request)
    } else if crate::handlers::text_is(method, "ping") {
        let empty: Vec<(String, JsonValue)> = Vec::new();
        assert(crate::json::json_members(empty@) =~= Seq::empty());
        Step::Reply(JsonRpcResponse::success(clone_opt(&request.id), JsonValue::Object(empty)))
    } else {
        Step::Reply(
            JsonRpcResponse::error(
                clone_opt(&request.id),
                JsonRpcError::method_not_found(method.as_str()),
            ),
        )
    }
}

/// What the server does with a line of input: the request that it read,
/// or `None` where the line was not a request.
pub open spec fn incoming_next(req: Option<RpcRequest>) -> Next {
    match req {
        Some(r) => request_next(r),
        None => Next::Reply(error_reply(None, plain_error(PARSE_ERROR, "Parse error"@))),
    }
}

pub open spec fn opt_request(o: Option<JsonRpcRequest>) -> Option<RpcRequest> {
    match o {
        Some(r) => Some(r@),
        None => None,
    }
}

/// Answers a line of input, given as the request read from it, or `None`
/// where it could not be read as one.
pub fn handle_incoming(request: Option<JsonRpcRequest>) -> (r: Step)
    ensures
        r@ == incoming_next(opt_request(request)),
{
    match request {
        Some(req) => handle_request(&req),
        None => Step::Reply(JsonRpcResponse::error(None, JsonRpcError::parse_error())),
    }
}

} // verus!
