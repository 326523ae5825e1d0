//! The listing of the available tools for a terminal: what is shown, line by
//! line, and the total that closes it. How a line is coloured is left to
//! whoever prints it.

use crate::catalog::{
    advertised, catalog, daemon_tools, is_internal, is_internal_method, method_description,
    method_name, published, published_methods,
};
use crate::daemon::{probe_views, Probe, ProbeView, ServiceProbe, ServiceProbeView};
use crate::json::{models, text_member, Json};
use crate::tool_name::{encode_tool_name, encoded};
use vstd::prelude::*;
use vstd::string::*;

verus! {

/// One line of the listing.
#[derive(Debug, PartialEq, Eq)]
pub enum ReportLine {
    /// The name of a service; what follows belongs to it.
    Service(String),
    /// The service has no reachable daemon.
    NotRunning,
    /// A tool with its description.
    Tool { name: String, description: String },
    /// The daemon did not say which methods it has.
    FetchError,
    /// The daemon could not be connected to.
    ConnectionError,
    /// An empty line.
    Blank,
    /// The heading of the bridge's own tools.
    MetaTools,
    /// The number of tools in the listing.
    Total(usize),
}

/// The content of a `ReportLine`.
pub enum ReportLineView {
    Service(Seq<char>),
    NotRunning,
    Tool { name: Seq<char>, description: Seq<char> },
    FetchError,
    ConnectionError,
    Blank,
    MetaTools,
    Total(nat),
}

impl View for ReportLine {
    type V = ReportLineView;

    open spec fn view(&self) -> ReportLineView {
        match self {
            ReportLine::Service(name) => ReportLineView::Service(name@),
            ReportLine::NotRunning => ReportLineView::NotRunning,
            ReportLine::Tool { name, description } => ReportLineView::Tool {
                name: name@,
                description: description@,
            },
            ReportLine::FetchError => ReportLineView::FetchError,
            ReportLine::ConnectionError => ReportLineView::ConnectionError,
            ReportLine::Blank => ReportLineView::Blank,
            ReportLine::MetaTools => ReportLineView::MetaTools,
            ReportLine::Total(n) => ReportLineView::Total(*n as nat),
        }
    }
}

/// The contents of a sequence of lines, element by element.
pub open spec fn line_views(lines: Seq<ReportLine>) -> Seq<ReportLineView> {
    Seq::new(lines.len(), |i: int| lines[i]@)
}

/// The line that shows the tool for `method` of `service`.
pub open spec fn tool_line(service: Seq<char>, method: Json) -> ReportLineView {
    ReportLineView::Tool {
        name: encoded(service, method_name(method)),
        description: method_description(method),
    }
}

/// The lines for a list of method entries: one for each entry that is not
/// internal, in the order of the entries.
pub open spec fn tool_lines(service: Seq<char>, methods: Seq<Json>) -> Seq<ReportLineView>
    decreases methods.len(),
{
    if methods.len() == 0 {
        Seq::empty()
    } else {
        let before = tool_lines(service, methods.drop_last());
        if is_internal_method(method_name(methods.last())) {
            before
        } else {
            before.push(tool_line(service, methods.last()))
        }
    }
}

/// What is shown below the name of a service.
pub open spec fn status_lines(service: ServiceProbeView) -> Seq<ReportLineView> {
    match service.probe {
        ProbeView::Unreachable => seq![ReportLineView::NotRunning],
        ProbeView::ConnectFailed => seq![ReportLineView::ConnectionError, ReportLineView::Blank],
        ProbeView::CallFailed => seq![ReportLineView::FetchError, ReportLineView::Blank],
        ProbeView::Answered(reply) => if reply.ok {
            tool_lines(service.name, published_methods(service.probe)).push(
                ReportLineView::Blank,
            )
        } else {
            seq![ReportLineView::FetchError, ReportLineView::Blank]
        },
    }
}

/// The lines of one service: its name, then its tools or why there are none.
pub open spec fn service_lines(service: ServiceProbeView) -> Seq<ReportLineView> {
    seq![ReportLineView::Service(service.name)] + status_lines(service)
}

/// The lines of all services, service by service.
pub open spec fn daemon_lines(services: Seq<ServiceProbeView>) -> Seq<ReportLineView>
    decreases services.len(),
{
    if services.len() == 0 {
        Seq::empty()
    } else {
        daemon_lines(services.drop_last()) + service_lines(services.last())
    }
}

/// The lines of the bridge's own tools.
pub open spec fn meta_lines() -> Seq<ReportLineView> {
    seq![
        ReportLineView::MetaTools,
        ReportLineView::Tool {
            name: "fgp_list_daemons"@,
            description: "List all FGP daemons with their status"@,
        },
        ReportLineView::Tool { name: "fgp_start_daemon"@, description: "Start an FGP daemon"@ },
        ReportLineView::Tool { name: "fgp_stop_daemon"@, description: "Stop an FGP daemon"@ },
        ReportLineView::Blank,
    ]
}

/// The number of tools among some lines.
pub open spec fn tool_count(lines: Seq<ReportLineView>) -> nat
    decreases lines.len(),
{
    if lines.len() == 0 {
        0
    } else {
        tool_count(lines.drop_last()) + if lines.last() is Tool {
            1nat
        } else {
            0nat
        }
    }
}

/// The listing without its closing line.
pub open spec fn report_body(services: Seq<ServiceProbeView>) -> Seq<ReportLineView> {
    daemon_lines(services) + meta_lines()
}

/// The whole listing: the services, the bridge's own tools, and the total.
pub open spec fn report(services: Seq<ServiceProbeView>) -> Seq<ReportLineView> {
    report_body(services).push(ReportLineView::Total(tool_count(report_body(services))))
}

/// The tools of two runs of lines add up.
pub proof fn lemma_tool_count_concat(a: Seq<ReportLineView>, b: Seq<ReportLineView>)
    ensures
        tool_count(a + b) == tool_count(a) + tool_count(b),
    decreases b.len(),
{
    if b.len() > 0 {
        assert((a + b).drop_last() == a + b.drop_last());
        lemma_tool_count_concat(a, b.drop_last());
    }
}

/// There are never more tools than lines.
pub proof fn lemma_tool_count_bound(lines: Seq<ReportLineView>)
    ensures
        tool_count(lines) <= lines.len(),
    decreases lines.len(),
{
    if lines.len() > 0 {
        lemma_tool_count_bound(lines.drop_last());
    }
}

/// A list of methods is shown with as many tool lines as it has tools in the
/// catalog, and with no other lines.
pub proof fn lemma_tool_lines_count(service: Seq<char>, methods: Seq<Json>)
    ensures
        tool_lines(service, methods).len() == advertised(service, methods).len(),
        tool_count(tool_lines(service, methods)) == advertised(service, methods).len(),
    decreases methods.len(),
{
    if methods.len() > 0 {
        lemma_tool_lines_count(service, methods.drop_last());
        let before = tool_lines(service, methods.drop_last());
        if !is_internal_method(method_name(methods.last())) {
            let line = tool_line(service, methods.last());
            assert(before.push(line).drop_last() == before);
        }
    }
}

/// One more line is one more tool exactly when the line shows a tool.
pub proof fn lemma_tool_count_push(lines: Seq<ReportLineView>, line: ReportLineView)
    ensures
        tool_count(lines.push(line)) == tool_count(lines) + if line is Tool {
            1nat
        } else {
            0nat
        },
{
    assert(lines.push(line).drop_last() == lines);
}

/// A line that tells of a trouble, and the empty line after it, show no tool.
proof fn lemma_trouble_shows_no_tool(trouble: ReportLineView)
    requires
        !(trouble is Tool),
    ensures
        tool_count(seq![trouble, ReportLineView::Blank]) == 0,
{
    let none = Seq::<ReportLineView>::empty();
    assert(seq![trouble, ReportLineView::Blank] == none.push(trouble).push(
        ReportLineView::Blank,
    ));
    lemma_tool_count_push(none, trouble);
    lemma_tool_count_push(none.push(trouble), ReportLineView::Blank);
}

/// The lines of a service show as many tools as the service has in the catalog.
pub proof fn lemma_service_lines_count(service: ServiceProbeView)
    ensures
        tool_count(service_lines(service)) == advertised(
            service.name,
            published_methods(service.probe),
        ).len(),
{
    let none = Seq::<ReportLineView>::empty();
    lemma_tool_count_concat(seq![ReportLineView::Service(service.name)], status_lines(service));
    lemma_tool_count_push(none, ReportLineView::Service(service.name));
    match service.probe {
        ProbeView::Unreachable => {
            lemma_tool_count_push(none, ReportLineView::NotRunning);
        },
        ProbeView::ConnectFailed => {
            lemma_trouble_shows_no_tool(ReportLineView::ConnectionError);
        },
        ProbeView::Answered(reply) if reply.ok => {
            let methods = published_methods(service.probe);
            lemma_tool_lines_count(service.name, methods);
            lemma_tool_count_push(tool_lines(service.name, methods), ReportLineView::Blank);
        },
        _ => {
            lemma_trouble_shows_no_tool(ReportLineView::FetchError);
        },
    }
}

/// The bridge's own part of the listing shows three tools.
pub proof fn lemma_meta_lines_count()
    ensures
        tool_count(meta_lines()) == 3,
{
    let meta = meta_lines();
    let m0 = Seq::<ReportLineView>::empty();
    let m1 = m0.push(meta[0]);
    let m2 = m1.push(meta[1]);
    let m3 = m2.push(meta[2]);
    let m4 = m3.push(meta[3]);
    assert(meta == m4.push(meta[4]));
    lemma_tool_count_push(m0, meta[0]);
    lemma_tool_count_push(m1, meta[1]);
    lemma_tool_count_push(m2, meta[2]);
    lemma_tool_count_push(m3, meta[3]);
    lemma_tool_count_push(m4, meta[4]);
}

/// The listing closes with the size of the catalog: the tools of the daemons
/// and the three of the bridge.
pub proof fn lemma_report_total(services: Seq<ServiceProbeView>)
    ensures
        tool_count(daemon_lines(services)) == daemon_tools(services).len(),
        report(services).last() == ReportLineView::Total(catalog(services).len()),
        catalog(services).len() == daemon_tools(services).len() + 3,
    decreases services.len(),
{
    if services.len() > 0 {
        lemma_report_total(services.drop_last());
        lemma_service_lines_count(services.last());
        lemma_tool_count_concat(
            daemon_lines(services.drop_last()),
            service_lines(services.last()),
        );
    }
    lemma_tool_count_concat(daemon_lines(services), meta_lines());
    lemma_meta_lines_count();
}

/// Appends a line and keeps count of the tools.
fn push_line(lines: &mut Vec<ReportLine>, count: &mut usize, line: ReportLine)
    requires
        *old(count) == tool_count(line_views(old(lines)@)),
    ensures
        line_views(final(lines)@) == line_views(old(lines)@).push(line@),
        *final(count) == tool_count(line_views(final(lines)@)),
{
    let ghost before = line_views(lines@);
    let is_tool = match &line {
        ReportLine::Tool { .. } => true,
        _ => false,
    };
    lines.push(line);
    let held = lines.len();
    proof {
        assert(line_views(lines@) == before.push(line@));
        lemma_tool_count_push(before, line@);
        lemma_tool_count_bound(before);
        assert(*count < held);
    }
    if is_tool {
        *count = *count + 1;
    }
}

/// Appends the tool lines of the methods that a daemon listed.
fn push_tool_lines(
    lines: &mut Vec<ReportLine>,
    count: &mut usize,
    service: &str,
    methods: &Vec<serde_json::Value>,
)
    requires
        *old(count) == tool_count(line_views(old(lines)@)),
    ensures
        line_views(final(lines)@) == line_views(old(lines)@) + tool_lines(
            service@,
            models(methods@),
        ),
        *final(count) == tool_count(line_views(final(lines)@)),
{
    let ghost before = line_views(lines@);
    let ghost entries = models(methods@);
    let mut j: usize = 0;
    while j < methods.len()
        invariant
            j <= methods.len(),
            entries == models(methods@),
            line_views(lines@) == before + tool_lines(service@, entries.take(j as int)),
            *count == tool_count(line_views(lines@)),
        decreases methods.len() - j,
    {
        let method = &methods[j];
        proof {
            assert(entries.take(j + 1).drop_last() == entries.take(j as int));
        }
        let name = text_member(method, "name", "unknown");
        if !is_internal(name) {
            let line = ReportLine::Tool {
                name: encode_tool_name(service, name),
                description: text_member(method, "description", "No description").to_owned(),
            };
            push_line(lines, count, line);
        }
        j += 1;
    }
    proof {
        assert(entries.take(methods.len() as int) == entries);
    }
}

/// Appends the lines of one service.
fn push_service_lines(lines: &mut Vec<ReportLine>, count: &mut usize, service: &ServiceProbe)
    requires
        *old(count) == tool_count(line_views(old(lines)@)),
    ensures
        line_views(final(lines)@) == line_views(old(lines)@) + service_lines(service@),
        *final(count) == tool_count(line_views(final(lines)@)),
{
    push_line(lines, count, ReportLine::Service(service.name.clone()));
    match &service.probe {
        Probe::Unreachable => {
            push_line(lines, count, ReportLine::NotRunning);
        },
        Probe::ConnectFailed => {
            push_line(lines, count, ReportLine::ConnectionError);
            push_line(lines, count, ReportLine::Blank);
        },
        Probe::CallFailed => {
            push_line(lines, count, ReportLine::FetchError);
            push_line(lines, count, ReportLine::Blank);
        },
        Probe::Answered(reply) => {
            if reply.ok {
                if let Some(methods) = published(&service.probe) {
                    push_tool_lines(lines, count, service.name.as_str(), methods);
                }
                push_line(lines, count, ReportLine::Blank);
            } else {
                push_line(lines, count, ReportLine::FetchError);
                push_line(lines, count, ReportLine::Blank);
            }
        },
    }
}

/// Lists the tools of the installed services and of the bridge, as the lines
/// of a listing that ends with their number.
pub fn tools_report(services: &Vec<ServiceProbe>) -> (lines: Vec<ReportLine>)
    ensures
        line_views(lines@) == report(probe_views(services@)),
{
    let ghost views = probe_views(services@);
    let mut lines: Vec<ReportLine> = Vec::new();
    let mut count: usize = 0;
    let mut i: usize = 0;
    while i < services.len()
        invariant
            i <= services.len(),
            views == probe_views(services@),
            line_views(lines@) == daemon_lines(views.take(i as int)),
            count == tool_count(line_views(lines@)),
        decreases services.len() - i,
    {
        proof {
            assert(views.take(i + 1).drop_last() == views.take(i as int));
        }
        push_service_lines(&mut lines, &mut count, &services[i]);
        i += 1;
    }
    proof {
        assert(views.take(services.len() as int) == views);
    }
    push_line(&mut lines, &mut count, ReportLine::MetaTools);
    push_line(
        &mut lines,
        &mut count,
        ReportLine::Tool {
            name: "fgp_list_daemons".to_owned(),
            description: "List all FGP daemons with their status".to_owned(),
        },
    );
    push_line(
        &mut lines,
        &mut count,
        ReportLine::Tool {
            name: "fgp_start_daemon".to_owned(),
            description: "Start an FGP daemon".to_owned(),
        },
    );
    push_line(
        &mut lines,
        &mut count,
        ReportLine::Tool {
            name: "fgp_stop_daemon".to_owned(),
            description: "Stop an FGP daemon".to_owned(),
        },
    );
    push_line(&mut lines, &mut count, ReportLine::Blank);
    assert(line_views(lines@) == report_body(views));
    lines.push(ReportLine::Total(count));
    lines
}

} // verus!
