//! What the bridge and the watchdog learn from a daemon: the answer to a call,
//! and the ways in which asking can fail before there is an answer.

use crate::json::{optional_model, Json};
use vstd::prelude::*;

verus! {

/// The answer of a daemon to one call.
#[derive(Debug, PartialEq, Eq)]
pub struct DaemonReply {
    /// Whether the daemon reports success.
    pub ok: bool,
    /// The result data, if the daemon sent any.
    pub result: Option<serde_json::Value>,
    /// The message of the error, if the daemon sent one.
    pub error: Option<String>,
}

/// The content of a `DaemonReply`.
pub struct DaemonReplyView {
    pub ok: bool,
    pub result: Option<Json>,
    pub error: Option<Seq<char>>,
}

impl View for DaemonReply {
    type V = DaemonReplyView;

    open spec fn view(&self) -> DaemonReplyView {
        DaemonReplyView {
            ok: self.ok,
            result: optional_model(self.result),
            error: match self.error {
                Some(e) => Some(e@),
                None => None,
            },
        }
    }
}

/// How an attempt to call a daemon ended.
#[derive(Debug, PartialEq, Eq)]
pub enum Probe {
    /// The daemon's endpoint does not exist.
    Unreachable,
    /// The endpoint exists, but no connection could be set up.
    ConnectFailed,
    /// The connection was set up, but the call brought no answer.
    CallFailed,
    /// The daemon answered.
    Answered(DaemonReply),
}

/// The content of a `Probe`.
pub enum ProbeView {
    Unreachable,
    ConnectFailed,
    CallFailed,
    Answered(DaemonReplyView),
}

impl View for Probe {
    type V = ProbeView;

    open spec fn view(&self) -> ProbeView {
        match self {
            Probe::Unreachable => ProbeView::Unreachable,
            Probe::ConnectFailed => ProbeView::ConnectFailed,
            Probe::CallFailed => ProbeView::CallFailed,
            Probe::Answered(reply) => ProbeView::Answered(reply@),
        }
    }
}

/// How starting or stopping a daemon ended, with the error as characters.
pub open spec fn outcome_view(outcome: Result<(), String>) -> Result<(), Seq<char>> {
    match outcome {
        Ok(_) => Ok(()),
        Err(e) => Err(e@),
    }
}

/// An installed service together with the outcome of one call to its daemon.
#[derive(Debug, PartialEq, Eq)]
pub struct ServiceProbe {
    pub name: String,
    pub probe: Probe,
}

/// The content of a `ServiceProbe`.
pub struct ServiceProbeView {
    pub name: Seq<char>,
    pub probe: ProbeView,
}

impl View for ServiceProbe {
    type V = ServiceProbeView;

    open spec fn view(&self) -> ServiceProbeView {
        ServiceProbeView { name: self.name@, probe: self.probe@ }
    }
}

/// The contents of a sequence of service probes, element by element.
pub open spec fn probe_views(probes: Seq<ServiceProbe>) -> Seq<ServiceProbeView> {
    Seq::new(probes.len(), |i: int| probes[i]@)
}

} // verus!
