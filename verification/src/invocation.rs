//! A tool call on its way to a daemon. The daemon is started first if its
//! endpoint is not there, and is given a fixed time to come up before it is
//! called. Each step says what to do next; the event that is handed back says
//! how it went.

use crate::bridge::Invocation;
use crate::daemon::{DaemonReply, DaemonReplyView};
use crate::json::{
    json_null, json_pretty_text, json_to_string_pretty, optional_model, Json,
};
use crate::rpc::{
    error_text, json_rpc_error, json_rpc_response, success_text, text_content,
    text_content_value, INTERNAL_ERROR,
};
use crate::text::{appended, single_line};
use vstd::prelude::*;
use vstd::string::*;

verus! {

/// How long a daemon that was just started is given to come up, in
/// milliseconds.
pub const GRACE_MILLIS: u64 = 500;

/// What an invocation is waiting to learn.
#[derive(Clone, Copy, Debug, PartialEq, Eq, Structural)]
pub enum CallPhase {
    /// Whether the endpoint of the daemon is there.
    Resolving,
    /// How starting the daemon ended.
    Starting,
    /// That the time given to the daemon has passed.
    Settling,
    /// What the daemon answered.
    Calling,
    /// Nothing: the response is written.
    Done,
}

/// What happened outside the bridge.
#[derive(Debug, PartialEq, Eq)]
pub enum CallEvent {
    /// The endpoint of the daemon is there.
    Reachable,
    /// The endpoint of the daemon is not there.
    Unreachable,
    /// The daemon was started.
    Started,
    /// The daemon could not be started.
    StartFailed(String),
    /// The time given to the daemon has passed.
    Waited,
    /// The daemon answered the call.
    Answered(DaemonReply),
    /// The call brought no answer.
    CallFailed(String),
    /// No connection to the daemon could be set up.
    ConnectFailed(String),
}

/// The content of a `CallEvent`.
pub enum CallEventView {
    Reachable,
    Unreachable,
    Started,
    StartFailed(Seq<char>),
    Waited,
    Answered(DaemonReplyView),
    CallFailed(Seq<char>),
    ConnectFailed(Seq<char>),
}

impl View for CallEvent {
    type V = CallEventView;

    open spec fn view(&self) -> CallEventView {
        match self {
            CallEvent::Reachable => CallEventView::Reachable,
            CallEvent::Unreachable => CallEventView::Unreachable,
            CallEvent::Started => CallEventView::Started,
            CallEvent::StartFailed(e) => CallEventView::StartFailed(e@),
            CallEvent::Waited => CallEventView::Waited,
            CallEvent::Answered(reply) => CallEventView::Answered(reply@),
            CallEvent::CallFailed(e) => CallEventView::CallFailed(e@),
            CallEvent::ConnectFailed(e) => CallEventView::ConnectFailed(e@),
        }
    }
}

/// What is to be done next for an invocation.
#[derive(Debug, PartialEq, Eq)]
pub enum CallAction {
    /// Start the daemon.
    Start,
    /// Let the given time pass.
    Wait { millis: u64 },
    /// Call the method of the daemon with the arguments.
    Call,
    /// Write the response.
    Respond(String),
    /// Nothing: the event was not what the invocation is waiting for.
    Nothing,
}

/// The content of a `CallAction`.
pub enum CallActionView {
    Start,
    Wait { millis: u64 },
    Call,
    Respond(Seq<char>),
    Nothing,
}

impl View for CallAction {
    type V = CallActionView;

    open spec fn view(&self) -> CallActionView {
        match self {
            CallAction::Start => CallActionView::Start,
            CallAction::Wait { millis } => CallActionView::Wait { millis: *millis },
            CallAction::Call => CallActionView::Call,
            CallAction::Respond(text) => CallActionView::Respond(text@),
            CallAction::Nothing => CallActionView::Nothing,
        }
    }
}

/// The document that stands for a result that may be missing.
pub open spec fn result_or_null(result: Option<Json>) -> Json {
    match result {
        Some(j) => j,
        None => Json::Null,
    }
}

/// The response that passes on the answer of a daemon: its result as
/// indented text, or its error message as the error -32603.
pub open spec fn reply_text(id: Option<Json>, reply: DaemonReplyView) -> Seq<char> {
    if reply.ok {
        success_text(id, text_content(json_pretty_text(result_or_null(reply.result))))
    } else {
        error_text(
            id,
            INTERNAL_ERROR as int,
            match reply.error {
                Some(message) => message,
                None => "Unknown error"@,
            },
        )
    }
}

/// The response that reports a failure outside the bridge.
pub open spec fn failure_text(id: Option<Json>, what: Seq<char>, error: Seq<char>) -> Seq<char> {
    error_text(id, INTERNAL_ERROR as int, what + error)
}

/// One step of the invocation of the request `id`: the phase that follows
/// `phase` on `event`, and what is to be done. An event that does not answer
/// what the phase is waiting for changes nothing.
pub open spec fn step(id: Option<Json>, phase: CallPhase, event: CallEventView) -> (
    CallPhase,
    CallActionView,
) {
    match (phase, event) {
        (CallPhase::Resolving, CallEventView::Reachable) => (
            CallPhase::Calling,
            CallActionView::Call,
        ),
        (CallPhase::Resolving, CallEventView::Unreachable) => (
            CallPhase::Starting,
            CallActionView::Start,
        ),
        (CallPhase::Starting, CallEventView::Started) => (
            CallPhase::Settling,
            CallActionView::Wait { millis: GRACE_MILLIS },
        ),
        (CallPhase::Starting, CallEventView::StartFailed(e)) => (
            CallPhase::Done,
            CallActionView::Respond(failure_text(id, "Failed to start daemon: "@, e)),
        ),
        (CallPhase::Settling, CallEventView::Waited) => (CallPhase::Calling, CallActionView::Call),
        (CallPhase::Calling, CallEventView::Answered(reply)) => (
            CallPhase::Done,
            CallActionView::Respond(reply_text(id, reply)),
        ),
        (CallPhase::Calling, CallEventView::CallFailed(e)) => (
            CallPhase::Done,
            CallActionView::Respond(failure_text(id, "Call failed: "@, e)),
        ),
        (CallPhase::Calling, CallEventView::ConnectFailed(e)) => (
            CallPhase::Done,
            CallActionView::Respond(failure_text(id, "Failed to connect to daemon: "@, e)),
        ),
        _ => (phase, CallActionView::Nothing),
    }
}

/// What is to be done, event by event, when the events arrive in the given
/// order at an invocation in the given phase.
pub open spec fn trace(id: Option<Json>, phase: CallPhase, events: Seq<CallEventView>) -> Seq<
    CallActionView,
>
    decreases events.len(),
{
    if events.len() == 0 {
        Seq::empty()
    } else {
        seq![step(id, phase, events[0]).1] + trace(
            id,
            step(id, phase, events[0]).0,
            events.drop_first(),
        )
    }
}

/// The actions among `actions` that ask for something to be done.
pub open spec fn effective(actions: Seq<CallActionView>) -> Seq<CallActionView>
    decreases actions.len(),
{
    if actions.len() == 0 {
        Seq::empty()
    } else if actions[0] is Nothing {
        effective(actions.drop_first())
    } else {
        seq![actions[0]] + effective(actions.drop_first())
    }
}

/// There is one action for each event.
pub proof fn lemma_trace_len(id: Option<Json>, phase: CallPhase, events: Seq<CallEventView>)
    ensures
        trace(id, phase, events).len() == events.len(),
    decreases events.len(),
{
    if events.len() > 0 {
        lemma_trace_len(id, step(id, phase, events[0]).0, events.drop_first());
    }
}

/// How a trace, and a part of it from its beginning, go on after the first event.
proof fn lemma_trace_unfold(
    id: Option<Json>,
    phase: CallPhase,
    events: Seq<CallEventView>,
    k: int,
)
    requires
        0 < k <= events.len(),
    ensures
        trace(id, phase, events).len() == events.len(),
        trace(id, phase, events)[0] == step(id, phase, events[0]).1,
        k < events.len() ==> trace(id, phase, events)[k] == trace(
            id,
            step(id, phase, events[0]).0,
            events.drop_first(),
        )[k - 1],
        trace(id, phase, events).take(k).drop_first() == trace(
            id,
            step(id, phase, events[0]).0,
            events.drop_first(),
        ).take(k - 1),
        trace(id, phase, events).take(k)[0] == step(id, phase, events[0]).1,
{
    lemma_trace_len(id, phase, events);
    lemma_trace_len(id, step(id, phase, events[0]).0, events.drop_first());
}

/// Once the response is written, nothing more is asked for.
pub proof fn lemma_done_is_final(id: Option<Json>, events: Seq<CallEventView>, k: int)
    requires
        0 <= k < events.len(),
    ensures
        trace(id, CallPhase::Done, events)[k] is Nothing,
    decreases events.len(),
{
    lemma_trace_len(id, CallPhase::Done, events);
    if k > 0 {
        lemma_trace_unfold(id, CallPhase::Done, events, k);
        lemma_done_is_final(id, events.drop_first(), k - 1);
    }
}

/// While the daemon's answer is awaited, the daemon is not called again.
pub proof fn lemma_called_once(id: Option<Json>, events: Seq<CallEventView>, k: int)
    requires
        0 <= k < events.len(),
    ensures
        !(trace(id, CallPhase::Calling, events)[k] is Call),
        !(trace(id, CallPhase::Calling, events)[k] is Start),
        !(trace(id, CallPhase::Calling, events)[k] is Wait),
    decreases events.len(),
{
    lemma_trace_len(id, CallPhase::Calling, events);
    if k > 0 {
        lemma_trace_unfold(id, CallPhase::Calling, events, k);
        if step(id, CallPhase::Calling, events[0]).0 == CallPhase::Done {
            lemma_done_is_final(id, events.drop_first(), k - 1);
        } else {
            lemma_called_once(id, events.drop_first(), k - 1);
        }
    }
}

/// After the time given to the daemon, the call is the next thing asked for.
pub proof fn lemma_call_follows_wait(id: Option<Json>, events: Seq<CallEventView>, k: int)
    requires
        0 <= k < events.len(),
        trace(id, CallPhase::Settling, events)[k] is Call,
    ensures
        effective(trace(id, CallPhase::Settling, events).take(k)) == Seq::<
            CallActionView,
        >::empty(),
    decreases events.len(),
{
    lemma_trace_len(id, CallPhase::Settling, events);
    if k > 0 {
        lemma_trace_unfold(id, CallPhase::Settling, events, k);
        if step(id, CallPhase::Settling, events[0]).0 == CallPhase::Calling {
            lemma_called_once(id, events.drop_first(), k - 1);
        } else {
            lemma_call_follows_wait(id, events.drop_first(), k - 1);
        }
    }
}

/// After the start of the daemon, one wait of the fixed time comes before
/// the call, and nothing else.
pub proof fn lemma_wait_follows_start(id: Option<Json>, events: Seq<CallEventView>, k: int)
    requires
        0 <= k < events.len(),
        trace(id, CallPhase::Starting, events)[k] is Call,
    ensures
        effective(trace(id, CallPhase::Starting, events).take(k)) == seq![
            CallActionView::Wait { millis: GRACE_MILLIS },
        ],
    decreases events.len(),
{
    lemma_trace_len(id, CallPhase::Starting, events);
    if k > 0 {
        lemma_trace_unfold(id, CallPhase::Starting, events, k);
        let next = step(id, CallPhase::Starting, events[0]).0;
        if next == CallPhase::Settling {
            lemma_call_follows_wait(id, events.drop_first(), k - 1);
        } else if next == CallPhase::Done {
            lemma_done_is_final(id, events.drop_first(), k - 1);
        } else {
            lemma_wait_follows_start(id, events.drop_first(), k - 1);
        }
    }
}

/// When the endpoint of the daemon is not there, what is asked for before
/// the daemon is first called is exactly this: to start the daemon, once, and
/// then to wait the fixed time, once. This holds whatever events arrive, and
/// in whatever order.
pub proof fn lemma_unreachable_daemon_started_once(
    id: Option<Json>,
    events: Seq<CallEventView>,
    k: int,
)
    requires
        0 <= k < events.len(),
        events[0] == CallEventView::Unreachable,
        trace(id, CallPhase::Resolving, events)[k] is Call,
    ensures
        effective(trace(id, CallPhase::Resolving, events).take(k)) == seq![
            CallActionView::Start,
            CallActionView::Wait { millis: 500 },
        ],
{
    lemma_trace_len(id, CallPhase::Resolving, events);
    lemma_trace_unfold(id, CallPhase::Resolving, events, k);
    lemma_wait_follows_start(id, events.drop_first(), k - 1);
}

/// A daemon whose endpoint is there is called at once, and never started.
pub proof fn lemma_reachable_daemon_called_at_once(
    id: Option<Json>,
    events: Seq<CallEventView>,
    k: int,
)
    requires
        0 <= k < events.len(),
        events[0] == CallEventView::Reachable,
    ensures
        trace(id, CallPhase::Resolving, events)[0] is Call,
        !(trace(id, CallPhase::Resolving, events)[k] is Start),
        !(trace(id, CallPhase::Resolving, events)[k] is Wait),
{
    lemma_trace_len(id, CallPhase::Resolving, events);
    if k > 0 {
        lemma_trace_unfold(id, CallPhase::Resolving, events, k);
        lemma_called_once(id, events.drop_first(), k - 1);
    }
}

/// Makes the response that passes on the answer of a daemon.
pub fn reply_response(id: Option<serde_json::Value>, reply: DaemonReply) -> (response: String)
    ensures
        response@ == reply_text(optional_model(id), reply@),
        single_line(response@),
{
    if reply.ok {
        let result = match reply.result {
            Some(result) => result,
            None => json_null(),
        };
        let text = json_to_string_pretty(&result);
        json_rpc_response(id, text_content_value(text.as_str()))
    } else {
        match reply.error {
            Some(message) => json_rpc_error(id, INTERNAL_ERROR, message.as_str()),
            None => json_rpc_error(id, INTERNAL_ERROR, "Unknown error"),
        }
    }
}

/// Makes the response that reports a failure outside the bridge.
fn failure_response(id: Option<serde_json::Value>, what: &str, error: &str) -> (response: String)
    ensures
        response@ == failure_text(optional_model(id), what@, error@),
        single_line(response@),
{
    let message = appended(what, error);
    json_rpc_error(id, INTERNAL_ERROR, message.as_str())
}

impl Invocation {
    /// The phase in which every invocation begins: whoever runs the bridge
    /// looks whether the endpoint of the daemon is there, and says so.
    pub fn begin(&self) -> (phase: CallPhase)
        ensures
            phase == CallPhase::Resolving,
    {
        CallPhase::Resolving
    }

    /// A copy of the id of the request.
    fn id_copy(&self) -> (id: Option<serde_json::Value>)
        ensures
            optional_model(id) == optional_model(self.id),
    {
        match &self.id {
            Some(id) => Some(id.clone()),
            None => None,
        }
    }

    /// Takes the invocation one step further: given the phase it is in and
    /// what happened, says which phase follows and what is to be done.
    pub fn step(&self, phase: CallPhase, event: CallEvent) -> (next: (CallPhase, CallAction))
        ensures
            (next.0, next.1@) == step(optional_model(self.id), phase, event@),
            next.1 matches CallAction::Respond(response) ==> single_line(response@),
    {
        match phase {
            CallPhase::Resolving => match event {
                CallEvent::Reachable => (CallPhase::Calling, CallAction::Call),
                CallEvent::Unreachable => (CallPhase::Starting, CallAction::Start),
                _ => (phase, CallAction::Nothing),
            },
            CallPhase::Starting => match event {
                CallEvent::Started => (
                    CallPhase::Settling,
                    CallAction::Wait { millis: GRACE_MILLIS },
                ),
                CallEvent::StartFailed(e) => (
                    CallPhase::Done,
                    CallAction::Respond(
                        failure_response(self.id_copy(), "Failed to start daemon: ", e.as_str()),
                    ),
                ),
                _ => (phase, CallAction::Nothing),
            },
            CallPhase::Settling => match event {
                CallEvent::Waited => (CallPhase::Calling, CallAction::Call),
                _ => (phase, CallAction::Nothing),
            },
            CallPhase::Calling => match event {
                CallEvent::Answered(reply) => (
                    CallPhase::Done,
                    CallAction::Respond(reply_response(self.id_copy(), reply)),
                ),
                CallEvent::CallFailed(e) => (
                    CallPhase::Done,
                    CallAction::Respond(
                        failure_response(self.id_copy(), "Call failed: ", e.as_str()),
                    ),
                ),
                CallEvent::ConnectFailed(e) => (
                    CallPhase::Done,
                    CallAction::Respond(
                        failure_response(
                            self.id_copy(),
                            "Failed to connect to daemon: ",
                            e.as_str(),
                        ),
                    ),
                ),
                _ => (phase, CallAction::Nothing),
            },
            CallPhase::Done => (phase, CallAction::Nothing),
        }
    }
}

} // verus!
