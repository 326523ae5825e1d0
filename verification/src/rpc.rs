//! JSON-RPC 2.0 response envelopes and the error codes the bridge answers with.

use crate::json::{
    json_array, json_int, json_model, json_null, json_object, json_set, json_string, json_text,
    json_to_string, optional_model, Json,
};
use crate::text::single_line;
use vstd::prelude::*;

verus! {

/// The request names a method that the bridge does not serve.
pub const METHOD_NOT_FOUND: i32 = -32601;

/// The request names a tool that cannot be read as daemon and method.
pub const INVALID_PARAMS: i32 = -32602;

/// A daemon or the lifecycle of a daemon failed while the request was served.
pub const INTERNAL_ERROR: i32 = -32603;

/// The `id` member of a response: that of the request, or null where the
/// request had none.
pub open spec fn echoed_id(id: Option<Json>) -> Json {
    match id {
        Some(j) => j,
        None => Json::Null,
    }
}

/// The envelope of a successful response.
pub open spec fn success_envelope(id: Json, result: Json) -> Json {
    Json::empty_object().with("jsonrpc"@, Json::Text("2.0"@)).with("id"@, id).with(
        "result"@,
        result,
    )
}

/// The `error` member of a failed response.
pub open spec fn error_object(code: int, message: Seq<char>) -> Json {
    Json::empty_object().with("code"@, Json::Int(code)).with("message"@, Json::Text(message))
}

/// The envelope of a failed response.
pub open spec fn error_envelope(id: Json, code: int, message: Seq<char>) -> Json {
    Json::empty_object().with("jsonrpc"@, Json::Text("2.0"@)).with("id"@, id).with(
        "error"@,
        error_object(code, message),
    )
}

/// A tool result that holds one piece of text.
pub open spec fn text_content(text: Seq<char>) -> Json {
    Json::empty_object().with(
        "content"@,
        Json::List(
            seq![
                Json::empty_object().with("type"@, Json::Text("text"@)).with(
                    "text"@,
                    Json::Text(text),
                ),
            ],
        ),
    )
}

/// The text of a successful response.
pub open spec fn success_text(id: Option<Json>, result: Json) -> Seq<char> {
    json_text(success_envelope(echoed_id(id), result))
}

/// The text of a failed response.
pub open spec fn error_text(id: Option<Json>, code: int, message: Seq<char>) -> Seq<char> {
    json_text(error_envelope(echoed_id(id), code, message))
}

/// The member names of an envelope differ from one another.
proof fn lemma_envelope_keys()
    ensures
        "jsonrpc"@.len() == 7,
        "result"@.len() == 6,
        "error"@.len() == 5,
        "id"@.len() == 2,
{
    reveal_strlit("jsonrpc");
    reveal_strlit("id");
    reveal_strlit("result");
    reveal_strlit("error");
}

/// A successful response has exactly the members `jsonrpc`, `id` and `result`,
/// and they hold the protocol version, the given id and the given result.
pub proof fn lemma_success_envelope_members(id: Json, result: Json)
    ensures
        success_envelope(id, result).member("jsonrpc"@) == Some(Json::Text("2.0"@)),
        success_envelope(id, result).member("id"@) == Some(id),
        success_envelope(id, result).member("result"@) == Some(result),
        success_envelope(id, result).member("error"@) is None,
{
    lemma_envelope_keys();
}

/// A failed response has exactly the members `jsonrpc`, `id` and `error`; the
/// error holds the given code and message.
pub proof fn lemma_error_envelope_members(id: Json, code: int, message: Seq<char>)
    ensures
        error_envelope(id, code, message).member("jsonrpc"@) == Some(Json::Text("2.0"@)),
        error_envelope(id, code, message).member("id"@) == Some(id),
        error_envelope(id, code, message).member("error"@) == Some(error_object(code, message)),
        error_envelope(id, code, message).member("result"@) is None,
        error_object(code, message).member("code"@) == Some(Json::Int(code)),
        error_object(code, message).member("message"@) == Some(Json::Text(message)),
{
    lemma_envelope_keys();
    reveal_strlit("code");
    reveal_strlit("message");
    assert("code"@.len() == 4 && "message"@.len() == 7);
}

/// The value that stands for a request's id in a response.
pub(crate) fn id_value(id: Option<serde_json::Value>) -> (v: serde_json::Value)
    ensures
        json_model(v) == echoed_id(optional_model(id)),
{
    match id {
        Some(v) => v,
        None => json_null(),
    }
}

/// Builds a tool result that holds `text`.
pub(crate) fn text_content_value(text: &str) -> (v: serde_json::Value)
    ensures
        json_model(v) == text_content(text@),
{
    let mut item = json_object();
    json_set(&mut item, "type", json_string("text"));
    json_set(&mut item, "text", json_string(text));
    let mut items: Vec<serde_json::Value> = Vec::new();
    items.push(item);
    let list = json_array(items);
    assert(json_model(list)->List_0 =~= seq![
        Json::empty_object().with("type"@, Json::Text("text"@)).with("text"@, Json::Text(text@)),
    ]);
    let mut result = json_object();
    json_set(&mut result, "content", list);
    result
}

/// Writes a successful response to the request `id` that carries `result`.
pub fn json_rpc_response(id: Option<serde_json::Value>, result: serde_json::Value) -> (response:
    String)
    ensures
        response@ == success_text(optional_model(id), json_model(result)),
        single_line(response@),
{
    let mut envelope = json_object();
    json_set(&mut envelope, "jsonrpc", json_string("2.0"));
    json_set(&mut envelope, "id", id_value(id));
    json_set(&mut envelope, "result", result);
    json_to_string(&envelope)
}

/// Writes a failed response to the request `id` with `code` and `message`.
pub fn json_rpc_error(id: Option<serde_json::Value>, code: i32, message: &str) -> (response:
    String)
    ensures
        response@ == error_text(optional_model(id), code as int, message@),
        single_line(response@),
{
    let mut error = json_object();
    json_set(&mut error, "code", json_int(code));
    json_set(&mut error, "message", json_string(message));
    let mut envelope = json_object();
    json_set(&mut envelope, "jsonrpc", json_string("2.0"));
    json_set(&mut envelope, "id", id_value(id));
    json_set(&mut envelope, "error", error);
    json_to_string(&envelope)
}

} // verus!
