//! The protocol bridge: reads a JSON-RPC request, answers what can be
//! answered at once, and says what has to be asked of the daemons for the rest.
//!
//! The bridge never talks to a daemon itself. Whoever runs it hands over what
//! the daemons said, and gets back the response to write.

use crate::daemon::{
    outcome_view, probe_views, Probe, ProbeView, ServiceProbe, ServiceProbeView,
};
use crate::json::{
    json_array, json_error_message, json_get, json_model, json_object, json_parse,
    json_parsed, json_pretty_text, json_set, json_string, json_to_string_pretty, optional_model,
    text_member, Json,
};
use crate::monitor::{service_state, ServiceState};
use crate::rpc::{
    error_envelope, error_object, error_text, json_rpc_error, json_rpc_response,
    lemma_error_envelope_members, success_text, text_content, text_content_value,
    INTERNAL_ERROR, INVALID_PARAMS, METHOD_NOT_FOUND,
};
use crate::text::{appended, lemma_first_index, same_text, single_line};
use crate::tool_name::{decode_tool_name, decoded, tool_body};
use vstd::prelude::*;
use vstd::string::*;

verus! {

/// A line of input that is no JSON document.
#[derive(Debug, PartialEq, Eq)]
pub struct ParseFailure {
    /// What the parser said of the line.
    pub detail: String,
}

/// A tool call that is passed on to a daemon.
#[derive(Debug, PartialEq, Eq)]
pub struct Invocation {
    /// The id of the request.
    pub id: Option<serde_json::Value>,
    /// The service whose daemon is called.
    pub daemon: String,
    /// The method of the daemon, in dotted form.
    pub method: String,
    /// The arguments of the call.
    pub arguments: serde_json::Value,
}

/// The content of an `Invocation`.
pub struct InvocationView {
    pub id: Option<Json>,
    pub daemon: Seq<char>,
    pub method: Seq<char>,
    pub arguments: Json,
}

impl View for Invocation {
    type V = InvocationView;

    open spec fn view(&self) -> InvocationView {
        InvocationView {
            id: optional_model(self.id),
            daemon: self.daemon@,
            method: self.method@,
            arguments: json_model(self.arguments),
        }
    }
}

/// What a request asks of whoever runs the bridge.
#[derive(Debug, PartialEq, Eq)]
pub enum Dispatch {
    /// Nothing: the response is ready.
    Respond(String),
    /// To ask every reachable daemon for its methods; `handle_tools_list`
    /// makes the response.
    ListTools,
    /// To ask every daemon for its health; `handle_list_daemons` makes the
    /// response.
    ListDaemons { id: Option<serde_json::Value> },
    /// To start the daemon of a service; `handle_start_daemon` makes the
    /// response.
    StartDaemon { id: Option<serde_json::Value>, name: String },
    /// To stop the daemon of a service; `handle_stop_daemon` makes the
    /// response.
    StopDaemon { id: Option<serde_json::Value>, name: String },
    /// To call a daemon, as the invocation directs step by step.
    Invoke(Invocation),
}

/// The content of a `Dispatch`.
pub enum DispatchView {
    Respond(Seq<char>),
    ListTools,
    ListDaemons { id: Option<Json> },
    StartDaemon { id: Option<Json>, name: Seq<char> },
    StopDaemon { id: Option<Json>, name: Seq<char> },
    Invoke(InvocationView),
}

impl View for Dispatch {
    type V = DispatchView;

    open spec fn view(&self) -> DispatchView {
        match self {
            Dispatch::Respond(text) => DispatchView::Respond(text@),
            Dispatch::ListTools => DispatchView::ListTools,
            Dispatch::ListDaemons { id } => DispatchView::ListDaemons { id: optional_model(*id) },
            Dispatch::StartDaemon { id, name } => DispatchView::StartDaemon {
                id: optional_model(*id),
                name: name@,
            },
            Dispatch::StopDaemon { id, name } => DispatchView::StopDaemon {
                id: optional_model(*id),
                name: name@,
            },
            Dispatch::Invoke(invocation) => DispatchView::Invoke(invocation@),
        }
    }
}

/// The id of a request, if it has one.
pub open spec fn request_id(request: Json) -> Option<Json> {
    request.member("id"@)
}

/// The method of a request; a request without one has the empty method.
pub open spec fn request_method(request: Json) -> Seq<char> {
    request.text_at("method"@, ""@)
}

/// The name of the tool that a `tools/call` request calls.
pub open spec fn called_tool(request: Json) -> Seq<char> {
    match request.member("params"@) {
        Some(params) => params.text_at("name"@, ""@),
        None => ""@,
    }
}

/// The arguments of a `tools/call` request: an empty object where it gives none.
pub open spec fn call_arguments(request: Json) -> Json {
    match request.member("params"@) {
        Some(params) => match params.member("arguments"@) {
            Some(arguments) => arguments,
            None => Json::empty_object(),
        },
        None => Json::empty_object(),
    }
}

/// The daemon that the arguments of a lifecycle tool name.
pub open spec fn named_daemon(arguments: Json) -> Seq<char> {
    arguments.text_at("name"@, ""@)
}

/// The result of an `initialize` request.
pub open spec fn initialize_result(version: Seq<char>) -> Json {
    Json::empty_object().with("protocolVersion"@, Json::Text("2024-11-05"@)).with(
        "serverInfo"@,
        Json::empty_object().with("name"@, Json::Text("fgp-mcp-bridge"@)).with(
            "version"@,
            Json::Text(version),
        ),
    ).with("capabilities"@, Json::empty_object().with("tools"@, Json::empty_object()))
}

/// The response to an `initialize` request.
pub open spec fn initialize_text(request: Json, version: Seq<char>) -> Seq<char> {
    success_text(request_id(request), initialize_result(version))
}

/// The response to a request whose method the bridge does not serve.
pub open spec fn unknown_method_text(request: Json) -> Seq<char> {
    error_text(request_id(request), METHOD_NOT_FOUND as int, "Method not found"@)
}

/// The response to a call of a tool whose name cannot be read.
pub open spec fn invalid_tool_text(request: Json) -> Seq<char> {
    error_text(request_id(request), INVALID_PARAMS as int, "Invalid tool name format"@)
}

/// What a `tools/call` request asks for. The three tools of the bridge are
/// known by name; any other name is read as daemon and method, and is
/// rejected where it cannot be.
pub open spec fn tool_dispatch(request: Json) -> DispatchView {
    let id = request_id(request);
    let tool = called_tool(request);
    let arguments = call_arguments(request);
    if tool == "fgp_list_daemons"@ {
        DispatchView::ListDaemons { id }
    } else if tool == "fgp_start_daemon"@ {
        DispatchView::StartDaemon { id, name: named_daemon(arguments) }
    } else if tool == "fgp_stop_daemon"@ {
        DispatchView::StopDaemon { id, name: named_daemon(arguments) }
    } else {
        match decoded(tool) {
            Some((daemon, method)) => DispatchView::Invoke(
                InvocationView { id, daemon, method, arguments },
            ),
            None => DispatchView::Respond(invalid_tool_text(request)),
        }
    }
}

/// What a request asks for, by its method.
pub open spec fn dispatched(request: Json, version: Seq<char>) -> DispatchView {
    let method = request_method(request);
    if method == "initialize"@ {
        DispatchView::Respond(initialize_text(request, version))
    } else if method == "tools/list"@ {
        DispatchView::ListTools
    } else if method == "tools/call"@ {
        tool_dispatch(request)
    } else {
        DispatchView::Respond(unknown_method_text(request))
    }
}

/// The word for the condition of a daemon in the list of daemons: a daemon
/// without endpoint is stopped, one whose health query is answered with
/// success is running, and one whose health query fails is in error, whether
/// no answer came or the answer reports a failure.
pub open spec fn daemon_status(probe: ProbeView) -> Seq<char> {
    match probe {
        ProbeView::Unreachable => "stopped"@,
        ProbeView::Answered(reply) => if reply.ok {
            "running"@
        } else {
            "error"@
        },
        _ => "error"@,
    }
}

/// The entry of a service in the list of daemons.
pub open spec fn daemon_entry(service: ServiceProbeView) -> Json {
    Json::empty_object().with("name"@, Json::Text(service.name)).with(
        "status"@,
        Json::Text(daemon_status(service.probe)),
    )
}

/// The list of daemons.
pub open spec fn daemon_list(services: Seq<ServiceProbeView>) -> Json {
    Json::List(Seq::new(services.len(), |i: int| daemon_entry(services[i])))
}

/// The response to a call of `fgp_list_daemons`.
pub open spec fn list_daemons_text(id: Option<Json>, services: Seq<ServiceProbeView>) -> Seq<
    char,
> {
    success_text(id, text_content(json_pretty_text(daemon_list(services))))
}

/// The response to a call of a lifecycle tool: a confirmation that names the
/// daemon, or the failure with what went wrong.
pub open spec fn lifecycle_text(
    id: Option<Json>,
    done: Seq<char>,
    failed: Seq<char>,
    name: Seq<char>,
    outcome: Result<(), Seq<char>>,
) -> Seq<char> {
    match outcome {
        Ok(_) => success_text(id, text_content(done + name)),
        Err(e) => error_text(id, INTERNAL_ERROR as int, failed + e),
    }
}

/// The list of daemons and the watchdog read a health query alike: a daemon
/// is listed as stopped exactly when the watchdog takes it for stopped, as in
/// error exactly when the watchdog takes it for failed, and as running
/// exactly when the watchdog takes it for running or for degraded.
pub proof fn lemma_status_agrees_with_watchdog(probe: ProbeView)
    ensures
        daemon_status(probe) == "stopped"@ <==> service_state(probe) == ServiceState::Stopped,
        daemon_status(probe) == "error"@ <==> service_state(probe) == ServiceState::Error,
        daemon_status(probe) == "running"@ <==> (service_state(probe) == ServiceState::Running
            || service_state(probe) == ServiceState::Unhealthy),
{
    reveal_strlit("stopped");
    reveal_strlit("error");
    reveal_strlit("running");
    assert("stopped"@.len() == 7 && "error"@.len() == 5);
    assert("running"@[0] == 'r' && "stopped"@[0] == 's');
}

/// A request with a method other than `initialize`, `tools/list` and
/// `tools/call` is answered with an error whose code is -32601 and whose id
/// is that of the request, null where the request has none.
pub proof fn lemma_unknown_method(request: Json, version: Seq<char>)
    requires
        request_method(request) != "initialize"@,
        request_method(request) != "tools/list"@,
        request_method(request) != "tools/call"@,
    ensures
        ({
            let id = match request_id(request) {
                Some(id) => id,
                None => Json::Null,
            };
            let envelope = error_envelope(id, -32601, "Method not found"@);
            &&& dispatched(request, version) == DispatchView::Respond(
                crate::json::json_text(envelope),
            )
            &&& envelope.member("id"@) == Some(id)
            &&& envelope.member("error"@) == Some(error_object(-32601, "Method not found"@))
            &&& error_object(-32601, "Method not found"@).member("code"@) == Some(
                Json::Int(-32601),
            )
        }),
{
    let id = match request_id(request) {
        Some(id) => id,
        None => Json::Null,
    };
    lemma_error_envelope_members(id, -32601, "Method not found"@);
}

/// A call of a tool is rejected exactly when the name of the tool, without
/// its prefix, holds no underscore; it is then answered with an error whose
/// code is -32602 and whose id is that of the request.
pub proof fn lemma_invalid_tool_name(request: Json)
    ensures
        tool_dispatch(request) is Respond <==> !tool_body(called_tool(request)).contains('_'),
        tool_dispatch(request) is Respond ==> ({
            let id = match request_id(request) {
                Some(id) => id,
                None => Json::Null,
            };
            let envelope = error_envelope(id, -32602, "Invalid tool name format"@);
            &&& tool_dispatch(request) == DispatchView::Respond(crate::json::json_text(envelope))
            &&& envelope.member("id"@) == Some(id)
            &&& envelope.member("error"@) == Some(
                error_object(-32602, "Invalid tool name format"@),
            )
            &&& error_object(-32602, "Invalid tool name format"@).member("code"@) == Some(
                Json::Int(-32602),
            )
        }),
{
    let id = match request_id(request) {
        Some(id) => id,
        None => Json::Null,
    };
    lemma_error_envelope_members(id, -32602, "Invalid tool name format"@);
    let tool = called_tool(request);
    let body = tool_body(tool);
    lemma_first_index(body, '_');
    reveal_strlit("fgp_");
    reveal_strlit("fgp_list_daemons");
    reveal_strlit("fgp_start_daemon");
    reveal_strlit("fgp_stop_daemon");
    if tool == "fgp_list_daemons"@ || tool == "fgp_stop_daemon"@ {
        assert(tool.take(4) == "fgp_"@);
        assert(body[4] == '_');
    } else if tool == "fgp_start_daemon"@ {
        assert(tool.take(4) == "fgp_"@);
        assert(body[5] == '_');
    }
}

/// The id of a request, if it has one.
pub fn id_of(request: &serde_json::Value) -> (id: Option<serde_json::Value>)
    ensures
        optional_model(id) == request_id(json_model(*request)),
{
    match json_get(request, "id") {
        Some(id) => Some(id.clone()),
        None => None,
    }
}

/// Reads one line of input. An empty line is no request; any other line has
/// to be a JSON document.
pub fn read_request(line: &str) -> (request: Result<Option<serde_json::Value>, ParseFailure>)
    ensures
        match request {
            Ok(None) => line@.len() == 0,
            Ok(Some(v)) => line@.len() > 0 && json_parsed(line@) == Some(json_model(v)),
            Err(_) => line@.len() > 0 && json_parsed(line@) is None,
        },
{
    if line.is_empty() {
        return Ok(None);
    }
    match json_parse(line) {
        Ok(v) => Ok(Some(v)),
        Err(e) => Err(ParseFailure { detail: json_error_message(&e) }),
    }
}

/// Answers an `initialize` request: the protocol version, the name and
/// `version` of the bridge, and that it serves tools.
pub fn handle_initialize(request: &serde_json::Value, version: &str) -> (response: String)
    ensures
        response@ == initialize_text(json_model(*request), version@),
        single_line(response@),
{
    let mut server = json_object();
    json_set(&mut server, "name", json_string("fgp-mcp-bridge"));
    json_set(&mut server, "version", json_string(version));
    let mut capabilities = json_object();
    json_set(&mut capabilities, "tools", json_object());
    let mut result = json_object();
    json_set(&mut result, "protocolVersion", json_string("2024-11-05"));
    json_set(&mut result, "serverInfo", server);
    json_set(&mut result, "capabilities", capabilities);
    json_rpc_response(id_of(request), result)
}

/// The arguments of a `tools/call` request.
fn arguments_of(request: &serde_json::Value) -> (arguments: serde_json::Value)
    ensures
        json_model(arguments) == call_arguments(json_model(*request)),
{
    match json_get(request, "params") {
        Some(params) => match json_get(params, "arguments") {
            Some(arguments) => arguments.clone(),
            None => json_object(),
        },
        None => json_object(),
    }
}

/// The name of the tool that a `tools/call` request calls.
fn tool_of<'a>(request: &'a serde_json::Value) -> (tool: &'a str)
    ensures
        tool@ == called_tool(json_model(*request)),
{
    match json_get(request, "params") {
        Some(params) => text_member(params, "name", ""),
        None => "",
    }
}

/// Reads a `tools/call` request: which tool it calls, and what is to be done
/// for it. A name that cannot be read as daemon and method is answered with
/// the error -32602.
pub fn handle_tools_call(request: &serde_json::Value) -> (dispatch: Dispatch)
    ensures
        dispatch@ == tool_dispatch(json_model(*request)),
        dispatch matches Dispatch::Respond(response) ==> single_line(response@),
{
    let id = id_of(request);
    let tool = tool_of(request);
    let arguments = arguments_of(request);
    if same_text(tool, "fgp_list_daemons") {
        Dispatch::ListDaemons { id }
    } else if same_text(tool, "fgp_start_daemon") {
        Dispatch::StartDaemon { id, name: text_member(&arguments, "name", "").to_owned() }
    } else if same_text(tool, "fgp_stop_daemon") {
        Dispatch::StopDaemon { id, name: text_member(&arguments, "name", "").to_owned() }
    } else {
        match decode_tool_name(tool) {
            Some(target) => Dispatch::Invoke(
                Invocation { id, daemon: target.daemon, method: target.method, arguments },
            ),
            None => Dispatch::Respond(
                json_rpc_error(id, INVALID_PARAMS, "Invalid tool name format"),
            ),
        }
    }
}

/// Reads a request and answers it, or says what has to be done to answer it.
/// `version` is the version that the bridge reports of itself.
pub fn dispatch(request: &serde_json::Value, version: &str) -> (dispatch: Dispatch)
    ensures
        dispatch@ == dispatched(json_model(*request), version@),
        dispatch matches Dispatch::Respond(response) ==> single_line(response@),
{
    let method = text_member(request, "method", "");
    if same_text(method, "initialize") {
        Dispatch::Respond(handle_initialize(request, version))
    } else if same_text(method, "tools/list") {
        Dispatch::ListTools
    } else if same_text(method, "tools/call") {
        handle_tools_call(request)
    } else {
        Dispatch::Respond(json_rpc_error(id_of(request), METHOD_NOT_FOUND, "Method not found"))
    }
}

/// The word for the condition of a daemon in the list of daemons.
pub fn status_word(probe: &Probe) -> (word: &'static str)
    ensures
        word@ == daemon_status(probe@),
{
    match probe {
        Probe::Unreachable => "stopped",
        Probe::Answered(reply) => if reply.ok {
            "running"
        } else {
            "error"
        },
        _ => "error",
    }
}

/// Answers a call of `fgp_list_daemons` from the outcome of the health query
/// of every installed service.
pub fn handle_list_daemons(id: Option<serde_json::Value>, services: &Vec<ServiceProbe>) -> (response:
    String)
    ensures
        response@ == list_daemons_text(optional_model(id), probe_views(services@)),
        single_line(response@),
{
    let ghost views = probe_views(services@);
    let mut daemons: Vec<serde_json::Value> = Vec::new();
    let mut i: usize = 0;
    while i < services.len()
        invariant
            i <= services.len(),
            views == probe_views(services@),
            daemons@.len() == i,
            forall|k: int| 0 <= k < i ==> json_model(#[trigger] daemons@[k]) == daemon_entry(views[k]),
        decreases services.len() - i,
    {
        let service = &services[i];
        let mut entry = json_object();
        json_set(&mut entry, "name", json_string(service.name.as_str()));
        json_set(&mut entry, "status", json_string(status_word(&service.probe)));
        daemons.push(entry);
        i += 1;
    }
    let list = json_array(daemons);
    assert(json_model(list)->List_0 =~= Seq::new(views.len(), |i: int| daemon_entry(views[i])));
    let text = json_to_string_pretty(&list);
    json_rpc_response(id, text_content_value(text.as_str()))
}

/// Answers a call of a lifecycle tool once the lifecycle has done its part.
fn lifecycle_response(
    id: Option<serde_json::Value>,
    done: &str,
    failed: &str,
    name: &str,
    outcome: &Result<(), String>,
) -> (response: String)
    ensures
        response@ == lifecycle_text(
            optional_model(id),
            done@,
            failed@,
            name@,
            outcome_view(*outcome),
        ),
        single_line(response@),
{
    match outcome {
        Ok(_) => {
            let text = appended(done, name);
            json_rpc_response(id, text_content_value(text.as_str()))
        },
        Err(e) => {
            let message = appended(failed, e.as_str());
            json_rpc_error(id, INTERNAL_ERROR, message.as_str())
        },
    }
}

/// Answers a call of `fgp_start_daemon`, given how starting the daemon of
/// `name` ended: with a confirmation, or with the error -32603.
pub fn handle_start_daemon(id: Option<serde_json::Value>, name: &str, outcome: &Result<(), String>)
    -> (response: String)
    ensures
        response@ == lifecycle_text(
            optional_model(id),
            "Started daemon: "@,
            "Failed to start daemon: "@,
            name@,
            outcome_view(*outcome),
        ),
        single_line(response@),
{
    lifecycle_response(id, "Started daemon: ", "Failed to start daemon: ", name, outcome)
}

/// Answers a call of `fgp_stop_daemon`, given how stopping the daemon of
/// `name` ended: with a confirmation, or with the error -32603.
pub fn handle_stop_daemon(id: Option<serde_json::Value>, name: &str, outcome: &Result<(), String>)
    -> (response: String)
    ensures
        response@ == lifecycle_text(
            optional_model(id),
            "Stopped daemon: "@,
            "Failed to stop daemon: "@,
            name@,
            outcome_view(*outcome),
        ),
        single_line(response@),
{
    lifecycle_response(id, "Stopped daemon: ", "Failed to stop daemon: ", name, outcome)
}

} // verus!
