use fgp::bridge::Invocation;
use fgp::daemon::DaemonReply;
use fgp::invocation::{reply_response, CallAction, CallEvent, CallPhase, GRACE_MILLIS};
use serde_json::Value;

fn json(text: &str) -> Value {
    serde_json::from_str(text).unwrap()
}

fn invocation() -> Invocation {
    Invocation {
        id: Some(json("8")),
        daemon: "gmail".to_string(),
        method: "inbox.list".to_string(),
        arguments: json("{\"limit\":1}"),
    }
}

fn respond(action: CallAction) -> Value {
    match action {
        CallAction::Respond(text) => json(&text),
        other => panic!("no response: {:?}", other),
    }
}

#[test]
fn grace_period_is_half_a_second() {
    assert_eq!(GRACE_MILLIS, 500);
}

#[test]
fn reachable_daemon_is_called_at_once() {
    let call = invocation();
    let phase = call.begin();
    assert_eq!(phase, CallPhase::Resolving);
    let (phase, action) = call.step(phase, CallEvent::Reachable);
    assert_eq!((phase, action), (CallPhase::Calling, CallAction::Call));
}

#[test]
fn unreachable_daemon_is_started_once_and_given_one_grace_wait_before_the_call() {
    let call = invocation();
    let mut phase = call.begin();
    let mut actions = Vec::new();
    for event in [CallEvent::Unreachable, CallEvent::Started, CallEvent::Waited] {
        let (next, action) = call.step(phase, event);
        phase = next;
        actions.push(action);
    }
    assert_eq!(actions, [CallAction::Start, CallAction::Wait { millis: 500 }, CallAction::Call]);
    assert_eq!(phase, CallPhase::Calling);
}

#[test]
fn repeated_and_stray_events_ask_for_nothing() {
    let call = invocation();
    let mut phase = call.begin();
    let mut actions = Vec::new();
    let events = [
        CallEvent::Waited,
        CallEvent::Unreachable,
        CallEvent::Unreachable,
        CallEvent::Reachable,
        CallEvent::Started,
        CallEvent::Started,
        CallEvent::Unreachable,
        CallEvent::Waited,
        CallEvent::Waited,
        CallEvent::Started,
    ];
    for event in events {
        let (next, action) = call.step(phase, event);
        phase = next;
        if action != CallAction::Nothing {
            actions.push(action);
        }
    }
    assert_eq!(actions, [CallAction::Start, CallAction::Wait { millis: 500 }, CallAction::Call]);
}

#[test]
fn failed_start_is_reported_and_ends_the_invocation() {
    let call = invocation();
    let (phase, _) = call.step(call.begin(), CallEvent::Unreachable);
    let (phase, action) = call.step(phase, CallEvent::StartFailed("no such service".to_string()));
    assert_eq!(phase, CallPhase::Done);
    let response = respond(action);
    assert_eq!(response["error"]["code"], -32603);
    assert_eq!(response["error"]["message"], "Failed to start daemon: no such service");
    assert_eq!(response["id"], 8);
    let (phase, action) = call.step(phase, CallEvent::Waited);
    assert_eq!((phase, action), (CallPhase::Done, CallAction::Nothing));
}

#[test]
fn answer_is_passed_on_as_pretty_text() {
    let call = invocation();
    let reply = DaemonReply { ok: true, result: Some(json("{\"emails\":[1]}")), error: None };
    let (phase, action) = call.step(CallPhase::Calling, CallEvent::Answered(reply));
    assert_eq!(phase, CallPhase::Done);
    let response = respond(action);
    assert_eq!(response["id"], 8);
    assert_eq!(response["result"]["content"][0]["type"], "text");
    assert_eq!(response["result"]["content"][0]["text"], "{\n  \"emails\": [\n    1\n  ]\n}");
}

#[test]
fn answer_without_result_is_passed_on_as_null() {
    let reply = DaemonReply { ok: true, result: None, error: None };
    let response = json(&reply_response(None, reply));
    assert_eq!(response["result"]["content"][0]["text"], "null");
}

#[test]
fn daemon_error_is_passed_on_with_its_message() {
    let reply = DaemonReply { ok: false, result: None, error: Some("quota exceeded".to_string()) };
    let response = json(&reply_response(Some(json("1")), reply));
    assert_eq!(response["error"]["code"], -32603);
    assert_eq!(response["error"]["message"], "quota exceeded");
    let reply = DaemonReply { ok: false, result: Some(json("1")), error: None };
    let response = json(&reply_response(Some(json("1")), reply));
    assert_eq!(response["error"]["message"], "Unknown error");
}

#[test]
fn failures_of_the_call_are_reported() {
    let call = invocation();
    let (phase, action) = call.step(CallPhase::Calling, CallEvent::CallFailed("timed out".to_string()));
    assert_eq!(phase, CallPhase::Done);
    assert_eq!(respond(action)["error"]["message"], "Call failed: timed out");
    let (_, action) = call.step(CallPhase::Calling, CallEvent::ConnectFailed("refused".to_string()));
    let response = respond(action);
    assert_eq!(response["error"]["message"], "Failed to connect to daemon: refused");
    assert_eq!(response["error"]["code"], -32603);
}
