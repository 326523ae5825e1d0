//! The tool catalog: every method that a running daemon advertises becomes a
//! tool, but for the methods that every daemon has for its own management, and
//! three tools of the bridge itself are always there.

use crate::daemon::{probe_views, Probe, ProbeView, ServiceProbe, ServiceProbeView};
use crate::json::{
    json_array, json_as_array, json_get, json_model, json_object, json_set,
    json_string, models, text_member, Json,
};
use crate::rpc::{json_rpc_response, success_text};
use crate::text::{appended, same_text, single_line};
use crate::tool_name::{encode_tool_name, encoded};
use vstd::prelude::*;
use vstd::string::*;

verus! {

/// Whether a method serves the management of a daemon and is therefore kept
/// out of the catalog.
pub open spec fn is_internal_method(name: Seq<char>) -> bool {
    name == "health"@ || name == "stop"@ || name == "methods"@
}

/// The name that a method entry gives itself.
pub open spec fn method_name(method: Json) -> Seq<char> {
    method.text_at("name"@, "unknown"@)
}

/// The description that a method entry gives of itself.
pub open spec fn method_description(method: Json) -> Seq<char> {
    method.text_at("description"@, "No description"@)
}

/// The schema of a tool that takes no arguments.
pub open spec fn empty_schema() -> Json {
    Json::empty_object().with("type"@, Json::Text("object"@)).with(
        "properties"@,
        Json::empty_object(),
    )
}

/// The input schema of a method: its `params`, or the empty schema where the
/// daemon gave none.
pub open spec fn method_schema(method: Json) -> Json {
    match method.member("params"@) {
        Some(params) => params,
        None => empty_schema(),
    }
}

/// The description under which a tool of `service` is shown.
pub open spec fn tool_description(service: Seq<char>, method: Json) -> Seq<char> {
    "[FGP:"@ + service + "] "@ + method_description(method)
}

/// A tool descriptor.
pub open spec fn descriptor(name: Seq<char>, description: Seq<char>, schema: Json) -> Json {
    Json::empty_object().with("name"@, Json::Text(name)).with(
        "description"@,
        Json::Text(description),
    ).with("inputSchema"@, schema)
}

/// The descriptor of the tool that stands for `method` of `service`.
pub open spec fn method_tool(service: Seq<char>, method: Json) -> Json {
    descriptor(
        encoded(service, method_name(method)),
        tool_description(service, method),
        method_schema(method),
    )
}

/// The tools for a list of method entries: one for each entry that is not
/// internal, in the order of the entries.
pub open spec fn advertised(service: Seq<char>, methods: Seq<Json>) -> Seq<Json>
    decreases methods.len(),
{
    if methods.len() == 0 {
        Seq::empty()
    } else {
        let before = advertised(service, methods.drop_last());
        if is_internal_method(method_name(methods.last())) {
            before
        } else {
            before.push(method_tool(service, methods.last()))
        }
    }
}

/// The method entries that a probe brought: those under `methods` in the
/// result of a successful answer. Anything else brings none.
pub open spec fn published_methods(probe: ProbeView) -> Seq<Json> {
    match probe {
        ProbeView::Answered(reply) => if reply.ok {
            match reply.result {
                Some(result) => match result.member("methods"@) {
                    Some(Json::List(methods)) => methods,
                    _ => Seq::empty(),
                },
                None => Seq::empty(),
            }
        } else {
            Seq::empty()
        },
        _ => Seq::empty(),
    }
}

/// The tools of one service.
pub open spec fn service_tools(service: ServiceProbeView) -> Seq<Json> {
    advertised(service.name, published_methods(service.probe))
}

/// The tools of all services, service by service.
pub open spec fn daemon_tools(services: Seq<ServiceProbeView>) -> Seq<Json>
    decreases services.len(),
{
    if services.len() == 0 {
        Seq::empty()
    } else {
        daemon_tools(services.drop_last()) + service_tools(services.last())
    }
}

/// The schema of a tool that takes the name of a daemon.
pub open spec fn daemon_name_schema(purpose: Seq<char>) -> Json {
    Json::empty_object().with("type"@, Json::Text("object"@)).with(
        "properties"@,
        Json::empty_object().with(
            "name"@,
            Json::empty_object().with("type"@, Json::Text("string"@)).with(
                "description"@,
                Json::Text(purpose),
            ),
        ),
    ).with("required"@, Json::List(seq![Json::Text("name"@)]))
}

/// The tool that lists the daemons.
pub open spec fn list_daemons_tool() -> Json {
    descriptor("fgp_list_daemons"@, "List all FGP daemons with their status"@, empty_schema())
}

/// The tool that starts a daemon.
pub open spec fn start_daemon_tool() -> Json {
    descriptor(
        "fgp_start_daemon"@,
        "Start an FGP daemon"@,
        daemon_name_schema("Name of the daemon to start"@),
    )
}

/// The tool that stops a daemon.
pub open spec fn stop_daemon_tool() -> Json {
    descriptor(
        "fgp_stop_daemon"@,
        "Stop an FGP daemon"@,
        daemon_name_schema("Name of the daemon to stop"@),
    )
}

/// The tools of the bridge itself.
pub open spec fn meta_tools() -> Seq<Json> {
    seq![list_daemons_tool(), start_daemon_tool(), stop_daemon_tool()]
}

/// The whole catalog: the tools of the daemons, then those of the bridge.
pub open spec fn catalog(services: Seq<ServiceProbeView>) -> Seq<Json> {
    daemon_tools(services) + meta_tools()
}

/// The result of a `tools/list` request.
pub open spec fn tools_list_result(services: Seq<ServiceProbeView>) -> Json {
    Json::empty_object().with("tools"@, Json::List(catalog(services)))
}

/// Every advertised tool stands for a listed method that is not internal.
pub proof fn lemma_advertised_excludes_internal(service: Seq<char>, methods: Seq<Json>, i: int)
    requires
        0 <= i < advertised(service, methods).len(),
    ensures
        exists|j: int|
            0 <= j < methods.len() && !is_internal_method(method_name(#[trigger] methods[j]))
                && advertised(service, methods)[i] == method_tool(service, methods[j]),
    decreases methods.len(),
{
    let front = methods.drop_last();
    if i < advertised(service, front).len() {
        lemma_advertised_excludes_internal(service, front, i);
        let j = choose|j: int|
            0 <= j < front.len() && !is_internal_method(method_name(#[trigger] front[j]))
                && advertised(service, front)[i] == method_tool(service, front[j]);
        assert(methods[j] == front[j]);
    } else {
        assert(advertised(service, methods)[i] == method_tool(service, methods[methods.len() - 1]));
    }
}

/// Every listed method that is not internal has its tool among the advertised.
pub proof fn lemma_advertised_includes_others(service: Seq<char>, methods: Seq<Json>, j: int)
    requires
        0 <= j < methods.len(),
        !is_internal_method(method_name(methods[j])),
    ensures
        advertised(service, methods).contains(method_tool(service, methods[j])),
    decreases methods.len(),
{
    let front = methods.drop_last();
    let tools = advertised(service, methods);
    if j == methods.len() - 1 {
        assert(tools[tools.len() - 1] == method_tool(service, methods[j]));
    } else {
        lemma_advertised_includes_others(service, front, j);
        let tool = method_tool(service, front[j]);
        let i = choose|i: int|
            0 <= i < advertised(service, front).len() && advertised(service, front)[i] == tool;
        assert(tools[i] == tool);
    }
}

/// The catalog ends with the three tools of the bridge, whatever the daemons
/// advertise and whether or not any of them is reachable.
pub proof fn lemma_catalog_ends_with_meta_tools(services: Seq<ServiceProbeView>)
    ensures
        catalog(services).len() == daemon_tools(services).len() + 3,
        catalog(services).skip(daemon_tools(services).len() as int) == meta_tools(),
        catalog(services).contains(list_daemons_tool()),
        catalog(services).contains(start_daemon_tool()),
        catalog(services).contains(stop_daemon_tool()),
{
    let n = daemon_tools(services).len() as int;
    let all = catalog(services);
    assert(all.skip(n) =~= meta_tools());
    assert(all[n] == list_daemons_tool());
    assert(all[n + 1] == start_daemon_tool());
    assert(all[n + 2] == stop_daemon_tool());
}

/// Tells whether a method is kept out of the catalog.
pub fn is_internal(name: &str) -> (r: bool)
    ensures
        r == is_internal_method(name@),
{
    same_text(name, "health") || same_text(name, "stop") || same_text(name, "methods")
}

/// Builds the schema of a tool that takes no arguments.
fn empty_schema_value() -> (v: serde_json::Value)
    ensures
        json_model(v) == empty_schema(),
{
    let mut schema = json_object();
    json_set(&mut schema, "type", json_string("object"));
    json_set(&mut schema, "properties", json_object());
    schema
}

/// Builds a tool descriptor.
fn descriptor_value(name: &str, description: &str, schema: serde_json::Value) -> (v:
    serde_json::Value)
    ensures
        json_model(v) == descriptor(name@, description@, json_model(schema)),
{
    let mut tool = json_object();
    json_set(&mut tool, "name", json_string(name));
    json_set(&mut tool, "description", json_string(description));
    json_set(&mut tool, "inputSchema", schema);
    tool
}

/// Builds the descriptor of the tool that stands for `method` of `service`.
fn method_tool_value(service: &str, method: &serde_json::Value) -> (v: serde_json::Value)
    ensures
        json_model(v) == method_tool(service@, json_model(*method)),
{
    let name = encode_tool_name(service, text_member(method, "name", "unknown"));
    let mut description = appended("[FGP:", service);
    description.append("] ");
    description.append(text_member(method, "description", "No description"));
    let schema = match json_get(method, "params") {
        Some(params) => params.clone(),
        None => empty_schema_value(),
    };
    descriptor_value(name.as_str(), description.as_str(), schema)
}

/// The method entries that a probe brought, if it brought any.
pub(crate) fn published<'a>(probe: &'a Probe) -> (methods: Option<&'a Vec<serde_json::Value>>)
    ensures
        match methods {
            Some(list) => models(list@) == published_methods(probe@),
            None => published_methods(probe@) == Seq::<Json>::empty(),
        },
{
    match probe {
        Probe::Answered(reply) => {
            if !reply.ok {
                return None;
            }
            match &reply.result {
                Some(result) => match json_get(result, "methods") {
                    Some(listed) => json_as_array(listed),
                    None => None,
                },
                None => None,
            }
        },
        _ => None,
    }
}

/// Appends to `tools` the tools of one service.
fn push_service_tools(tools: &mut Vec<serde_json::Value>, service: &ServiceProbe)
    ensures
        models(final(tools)@) == models(old(tools)@) + service_tools(service@),
{
    let ghost before = models(tools@);
    if let Some(methods) = published(&service.probe) {
        let ghost entries = models(methods@);
        let mut j: usize = 0;
        while j < methods.len()
            invariant
                j <= methods.len(),
                entries == models(methods@),
                models(tools@) == before + advertised(service.name@, entries.take(j as int)),
            decreases methods.len() - j,
        {
            let method = &methods[j];
            proof {
                assert(entries.take(j + 1).drop_last() == entries.take(j as int));
            }
            if !is_internal(text_member(method, "name", "unknown")) {
                let tool = method_tool_value(service.name.as_str(), method);
                let ghost held = models(tools@);
                tools.push(tool);
                assert(models(tools@) == held.push(json_model(tool)));
            }
            j += 1;
        }
        proof {
            assert(entries.take(methods.len() as int) == entries);
        }
    }
}

/// Builds the schema of a tool that takes the name of a daemon.
fn daemon_name_schema_value(purpose: &str) -> (v: serde_json::Value)
    ensures
        json_model(v) == daemon_name_schema(purpose@),
{
    let mut name = json_object();
    json_set(&mut name, "type", json_string("string"));
    json_set(&mut name, "description", json_string(purpose));
    let mut properties = json_object();
    json_set(&mut properties, "name", name);
    let mut required: Vec<serde_json::Value> = Vec::new();
    required.push(json_string("name"));
    let required = json_array(required);
    assert(json_model(required)->List_0 =~= seq![Json::Text("name"@)]);
    let mut schema = json_object();
    json_set(&mut schema, "type", json_string("object"));
    json_set(&mut schema, "properties", properties);
    json_set(&mut schema, "required", required);
    schema
}

/// Appends to `tools` the tools of the bridge itself.
fn push_meta_tools(tools: &mut Vec<serde_json::Value>)
    ensures
        models(final(tools)@) == models(old(tools)@) + meta_tools(),
{
    tools.push(
        descriptor_value(
            "fgp_list_daemons",
            "List all FGP daemons with their status",
            empty_schema_value(),
        ),
    );
    tools.push(
        descriptor_value(
            "fgp_start_daemon",
            "Start an FGP daemon",
            daemon_name_schema_value("Name of the daemon to start"),
        ),
    );
    tools.push(
        descriptor_value(
            "fgp_stop_daemon",
            "Stop an FGP daemon",
            daemon_name_schema_value("Name of the daemon to stop"),
        ),
    );
}

/// Answers a `tools/list` request from what the daemons of the installed
/// services said of their methods. The response carries no request id.
pub fn handle_tools_list(services: &Vec<ServiceProbe>) -> (response: String)
    ensures
        response@ == success_text(None, tools_list_result(probe_views(services@))),
        single_line(response@),
{
    let ghost views = probe_views(services@);
    let mut tools: Vec<serde_json::Value> = Vec::new();
    let mut i: usize = 0;
    while i < services.len()
        invariant
            i <= services.len(),
            views == probe_views(services@),
            models(tools@) == daemon_tools(views.take(i as int)),
        decreases services.len() - i,
    {
        proof {
            assert(views.take(i + 1).drop_last() == views.take(i as int));
        }
        push_service_tools(&mut tools, &services[i]);
        i += 1;
    }
    proof {
        assert(views.take(services.len() as int) == views);
    }
    push_meta_tools(&mut tools);
    let mut result = json_object();
    json_set(&mut result, "tools", json_array(tools));
    json_rpc_response(None, result)
}

} // verus!
