//! What the host gets back across its boundary: results as JSON text, and
//! failures as an object `{"error": {"code": .., "message": ..}}`.

use crate::client::McpError;
use crate::codec::{encode_resource, encode_response, encode_server_info};
use crate::json::{
    display_json, json_display_text, json_text_value, json_value_text,
    members_view, parse_json, put, render_json, JsonTree, JsonValue,
};
use crate::protocol::{
    resource_tree, response_tree, server_info_tree, JsonMap, McpResource, McpResponse,
    McpServerInfo,
};
use vstd::prelude::*;

verus! {

/// The error object with the given code and message.
pub open spec fn error_payload(code: Seq<char>, message: Seq<char>) -> JsonTree {
    JsonTree::Object(
        Seq::empty().push(
            (
                "error"@,
                JsonTree::Object(
                    Seq::empty().push(("code"@, JsonTree::Text(code))).push(
                        ("message"@, JsonTree::Text(message)),
                    ),
                ),
            ),
        ),
    )
}

/// The text of the error object with the given code and message.
pub open spec fn error_text(code: Seq<char>, message: Seq<char>) -> Seq<char> {
    json_display_text(error_payload(code, message))
}

fn empty_object() -> (r: JsonMap)
    ensures
        members_view(r@) == Seq::<(Seq<char>, JsonTree)>::empty(),
{
    let r: JsonMap = Vec::new();
    proof {
        assert(members_view(r@) =~= Seq::<(Seq<char>, JsonTree)>::empty());
    }
    r
}

/// Writes the error object with the given code and message.
pub fn error_reply(code: &str, message: &str) -> (r: String)
    ensures
        r@ == error_text(code@, message@),
{
    let mut inner = empty_object();
    put(&mut inner, "code", JsonValue::Text(code.to_owned()));
    put(&mut inner, "message", JsonValue::Text(message.to_owned()));
    let mut outer = empty_object();
    put(&mut outer, "error", JsonValue::Object(inner));
    display_json(&JsonValue::Object(outer))
}

/// The reply where no client was set up.
pub fn not_initialized_reply() -> (r: String)
    ensures
        r@ == error_text("client_not_initialized"@, "MCP客户端未初始化"@),
{
    error_reply("client_not_initialized", "MCP客户端未初始化")
}

/// The text that was written, or a `serialization_error` with the given
/// message where none was.
pub fn written_or_error(rendered: Result<String, String>, message: &str) -> (r: String)
    ensures
        match rendered {
            Ok(text) => r == text,
            Err(_) => r@ == error_text("serialization_error"@, message@),
        },
{
    match rendered {
        Ok(text) => text,
        Err(_) => error_reply("serialization_error", message),
    }
}

/// Reads the parameters of a tool call from JSON text. The text must hold
/// an object; any other text gives the `invalid_params` reply.
pub fn parse_tool_parameters(text: &str) -> (r: Result<JsonMap, String>)
    ensures
        match r {
            Ok(p) => json_text_value(text@) == Some(JsonTree::Object(members_view(p@))),
            Err(reply) => !(json_text_value(text@) matches Some(JsonTree::Object(_))) && reply@
                == error_text("invalid_params"@, "无法解析工具参数"@),
        },
{
    match parse_json(text) {
        Ok(JsonValue::Object(members)) => Ok(members),
        _ => Err(error_reply("invalid_params", "无法解析工具参数")),
    }
}

/// The reply to a tool call: the response as JSON text, or the error object
/// with code `tool_call_error` and the error in words.
pub fn tool_call_reply(result: &Result<McpResponse, McpError>) -> (r: String)
    ensures
        match result {
            Ok(response) => match json_value_text(response_tree(response@)) {
                Some(text) => r@ == text,
                None => r@ == error_text("serialization_error"@, "无法序列化响应"@),
            },
            Err(e) => r@ == error_text("tool_call_error"@, e.description()),
        },
{
    match result {
        Ok(response) => written_or_error(
            render_json(&encode_response(response)),
            "无法序列化响应",
        ),
        Err(e) => error_reply("tool_call_error", e.describe().as_str()),
    }
}

/// The reply to a resource request: the resource as JSON text, or the error
/// object with code `resource_request_error` and the error in words.
pub fn resource_reply(result: &Result<McpResource, McpError>) -> (r: String)
    ensures
        match result {
            Ok(resource) => match json_value_text(resource_tree(resource@)) {
                Some(text) => r@ == text,
                None => r@ == error_text("serialization_error"@, "无法序列化资源"@),
            },
            Err(e) => r@ == error_text("resource_request_error"@, e.description()),
        },
{
    match result {
        Ok(resource) => written_or_error(
            render_json(&encode_resource(resource)),
            "无法序列化资源",
        ),
        Err(e) => error_reply("resource_request_error", e.describe().as_str()),
    }
}

/// The reply to a question after the server: its description as JSON text,
/// or `null` where the client has none.
pub fn server_info_reply(info: Option<&McpServerInfo>) -> (r: String)
    ensures
        match info {
            Some(i) => match json_value_text(server_info_tree(i@)) {
                Some(text) => r@ == text,
                None => r@ == error_text("serialization_error"@, "无法序列化服务器信息"@),
            },
            None => r@ == "null"@,
        },
{
    match info {
        Some(i) => written_or_error(
            render_json(&encode_server_info(i)),
            "无法序列化服务器信息",
        ),
        None => "null".to_owned(),
    }
}

} // verus!
