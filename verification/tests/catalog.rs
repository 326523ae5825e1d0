use fgp::catalog::{handle_tools_list, is_internal};
use fgp::daemon::{DaemonReply, Probe, ServiceProbe};
use fgp::report::{tools_report, ReportLine};
use serde_json::Value;

fn json(text: &str) -> Value {
    serde_json::from_str(text).unwrap()
}

fn methods(text: &str) -> Probe {
    Probe::Answered(DaemonReply { ok: true, result: Some(json(text)), error: None })
}

fn service(name: &str, probe: Probe) -> ServiceProbe {
    ServiceProbe { name: name.to_string(), probe }
}

fn tool_names(response: &str) -> Vec<String> {
    let response = json(response);
    response["result"]["tools"]
        .as_array()
        .unwrap()
        .iter()
        .map(|tool| tool["name"].as_str().unwrap().to_string())
        .collect()
}

fn gmail() -> ServiceProbe {
    service(
        "gmail",
        methods(
            "{\"methods\":[\
             {\"name\":\"health\",\"description\":\"Health\"},\
             {\"name\":\"inbox.list\",\"description\":\"List the inbox\",\
              \"params\":{\"type\":\"object\",\"properties\":{\"limit\":{\"type\":\"integer\"}}}},\
             {\"name\":\"stop\"},\
             {\"name\":\"send\"},\
             {\"name\":\"methods\"}]}",
        ),
    )
}

fn tool(name: &str, description: &str) -> ReportLine {
    ReportLine::Tool { name: name.to_string(), description: description.to_string() }
}

fn meta_lines(total: usize) -> Vec<ReportLine> {
    vec![
        ReportLine::MetaTools,
        tool("fgp_list_daemons", "List all FGP daemons with their status"),
        tool("fgp_start_daemon", "Start an FGP daemon"),
        tool("fgp_stop_daemon", "Stop an FGP daemon"),
        ReportLine::Blank,
        ReportLine::Total(total),
    ]
}

#[test]
fn internal_methods_are_health_stop_and_methods() {
    assert!(is_internal("health"));
    assert!(is_internal("stop"));
    assert!(is_internal("methods"));
    assert!(!is_internal("healthy"));
    assert!(!is_internal("gmail.stop"));
    assert!(!is_internal(""));
}

#[test]
fn catalog_without_services_holds_the_three_meta_tools() {
    let response = handle_tools_list(&Vec::new());
    assert_eq!(
        response,
        "{\"id\":null,\"jsonrpc\":\"2.0\",\"result\":{\"tools\":[\
         {\"description\":\"List all FGP daemons with their status\",\
          \"inputSchema\":{\"properties\":{},\"type\":\"object\"},\"name\":\"fgp_list_daemons\"},\
         {\"description\":\"Start an FGP daemon\",\
          \"inputSchema\":{\"properties\":{\"name\":{\"description\":\"Name of the daemon to start\",\
          \"type\":\"string\"}},\"required\":[\"name\"],\"type\":\"object\"},\
          \"name\":\"fgp_start_daemon\"},\
         {\"description\":\"Stop an FGP daemon\",\
          \"inputSchema\":{\"properties\":{\"name\":{\"description\":\"Name of the daemon to stop\",\
          \"type\":\"string\"}},\"required\":[\"name\"],\"type\":\"object\"},\
          \"name\":\"fgp_stop_daemon\"}]}}"
            .replace("          ", "")
            .replace("         ", "")
    );
}

#[test]
fn catalog_excludes_internal_methods_and_ends_with_the_meta_tools() {
    let response = handle_tools_list(&vec![gmail()]);
    assert_eq!(
        tool_names(&response),
        ["fgp_gmail_inbox_list", "fgp_gmail_send", "fgp_list_daemons", "fgp_start_daemon", "fgp_stop_daemon"]
    );
}

#[test]
fn catalog_has_the_meta_tools_whatever_the_daemons_do() {
    let services = vec![
        service("a", Probe::Unreachable),
        service("b", Probe::ConnectFailed),
        service("c", Probe::CallFailed),
        service("d", Probe::Answered(DaemonReply { ok: false, result: Some(json("{\"methods\":[{\"name\":\"x\"}]}")), error: None })),
        service("e", Probe::Answered(DaemonReply { ok: true, result: None, error: None })),
        service("f", methods("{\"methods\":\"none\"}")),
        service("g", methods("[1]")),
    ];
    assert_eq!(
        tool_names(&handle_tools_list(&services)),
        ["fgp_list_daemons", "fgp_start_daemon", "fgp_stop_daemon"]
    );
}

#[test]
fn tool_descriptor_names_service_method_and_schema() {
    let response = json(&handle_tools_list(&vec![gmail()]));
    let tools = response["result"]["tools"].as_array().unwrap();
    assert_eq!(
        tools[0],
        json(
            "{\"name\":\"fgp_gmail_inbox_list\",\"description\":\"[FGP:gmail] List the inbox\",\
             \"inputSchema\":{\"type\":\"object\",\"properties\":{\"limit\":{\"type\":\"integer\"}}}}"
        )
    );
    assert_eq!(
        tools[1],
        json(
            "{\"name\":\"fgp_gmail_send\",\"description\":\"[FGP:gmail] No description\",\
             \"inputSchema\":{\"type\":\"object\",\"properties\":{}}}"
        )
    );
}

#[test]
fn method_entry_without_name_is_called_unknown() {
    let services = vec![service("s", methods("{\"methods\":[{\"description\":\"d\"},7]}"))];
    let names = tool_names(&handle_tools_list(&services));
    assert_eq!(names[0], "fgp_s_unknown");
    assert_eq!(names[1], "fgp_s_unknown");
    assert_eq!(names.len(), 5);
}

#[test]
fn tools_list_does_not_echo_an_id() {
    let response = json(&handle_tools_list(&vec![gmail()]));
    assert_eq!(response["id"], Value::Null);
    assert_eq!(response["jsonrpc"], "2.0");
}

#[test]
fn catalog_keeps_the_order_of_services() {
    let services = vec![
        service("b", methods("{\"methods\":[{\"name\":\"x.y\"}]}")),
        service("a", methods("{\"methods\":[{\"name\":\"z\"}]}")),
    ];
    assert_eq!(
        tool_names(&handle_tools_list(&services)),
        ["fgp_b_x_y", "fgp_a_z", "fgp_list_daemons", "fgp_start_daemon", "fgp_stop_daemon"]
    );
}

#[test]
fn report_without_services_counts_the_meta_tools() {
    assert_eq!(tools_report(&Vec::new()), meta_lines(3));
}

#[test]
fn report_lists_tools_and_troubles_service_by_service() {
    let services = vec![
        gmail(),
        service("cal", Probe::Unreachable),
        service("web", Probe::ConnectFailed),
        service("fs", Probe::CallFailed),
        service("db", Probe::Answered(DaemonReply { ok: false, result: None, error: None })),
        service("idle", Probe::Answered(DaemonReply { ok: true, result: None, error: None })),
    ];
    let mut expected = vec![
        ReportLine::Service("gmail".to_string()),
        tool("fgp_gmail_inbox_list", "List the inbox"),
        tool("fgp_gmail_send", "No description"),
        ReportLine::Blank,
        ReportLine::Service("cal".to_string()),
        ReportLine::NotRunning,
        ReportLine::Service("web".to_string()),
        ReportLine::ConnectionError,
        ReportLine::Blank,
        ReportLine::Service("fs".to_string()),
        ReportLine::FetchError,
        ReportLine::Blank,
        ReportLine::Service("db".to_string()),
        ReportLine::FetchError,
        ReportLine::Blank,
        ReportLine::Service("idle".to_string()),
        ReportLine::Blank,
    ];
    expected.extend(meta_lines(5));
    assert_eq!(tools_report(&services), expected);
}

#[test]
fn report_total_is_the_size_of_the_catalog() {
    let services = vec![gmail(), service("s", methods("{\"methods\":[{\"name\":\"a\"},{\"name\":\"b\"}]}"))];
    let report = tools_report(&services);
    let catalog = tool_names(&handle_tools_list(&services));
    assert_eq!(report.last(), Some(&ReportLine::Total(catalog.len())));
    assert_eq!(catalog.len(), 7);
}
