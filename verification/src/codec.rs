//! Writing messages as JSON documents and reading them back.

use crate::json::{
    append_members, clone_members, items_view, lemma_array_view, member, members_view, put,
    text_is, JsonTree, JsonValue,
};
use crate::protocol::{
    DecodeError, JsonMap, McpContent, McpMessage, McpResource, McpResourceContent, McpResponse, McpServerInfo, McpTool, MessageModel, ToolModel, content_of_tree, content_tree, contents_of, contents_view, envelope, known_tag, message_of_tree, message_tree, open_members, opt_map_field, opt_map_view, opt_text_field, opt_text_view, part_of_tree, part_tree, parts_of, parts_view, resource_of_tree, resource_tree, response_of_tree, response_tree, server_info_of_tree, server_info_tree, text_field, tool_of_tree, tool_tree, tools_of, tools_view, variant_of, with_opt_map, with_opt_text, with_text, with_text_or_null,
};
use crate::round_trip::{lemma_message_round_trip, message_wf};
use vstd::prelude::*;

verus! {

fn new_object() -> (r: JsonMap)
    ensures
        members_view(r@) == Seq::<(Seq<char>, JsonTree)>::empty(),
{
    let r: JsonMap = Vec::new();
    proof {
        assert(members_view(r@) =~= Seq::<(Seq<char>, JsonTree)>::empty());
    }
    r
}

fn put_text(out: &mut JsonMap, key: &str, text: &String)
    ensures
        members_view(final(out)@) == with_text(members_view(old(out)@), key@, text@),
{
    put(out, key, JsonValue::Text(text.clone()));
}

fn put_opt_text(out: &mut JsonMap, key: &str, text: &Option<String>)
    ensures
        members_view(final(out)@) == with_opt_text(
            members_view(old(out)@),
            key@,
            opt_text_view(*text),
        ),
{
    match text {
        Some(t) => put(out, key, JsonValue::Text(t.clone())),
        None => {},
    }
}

fn put_text_or_null(out: &mut JsonMap, key: &str, text: &Option<String>)
    ensures
        members_view(final(out)@) == with_text_or_null(
            members_view(old(out)@),
            key@,
            opt_text_view(*text),
        ),
{
    match text {
        Some(t) => put(out, key, JsonValue::Text(t.clone())),
        None => put(out, key, JsonValue::Null),
    }
}

fn put_opt_map(out: &mut JsonMap, key: &str, entries: &Option<JsonMap>)
    ensures
        members_view(final(out)@) == with_opt_map(
            members_view(old(out)@),
            key@,
            opt_map_view(*entries),
        ),
{
    match entries {
        Some(m) => put(out, key, JsonValue::Object(clone_members(m))),
        None => {},
    }
}

/// A content block as a document.
pub fn encode_content(c: &McpContent) -> (r: JsonValue)
    ensures
        r@ == content_tree(c@),
{
    let mut out = new_object();
    put_text(&mut out, "type", &c.content_type);
    put_opt_text(&mut out, "text", &c.text);
    append_members(&mut out, &c.attributes);
    JsonValue::Object(out)
}

/// A tool's response as a document.
pub fn encode_response(r: &McpResponse) -> (out: JsonValue)
    ensures
        out@ == response_tree(r@),
{
    let mut items: Vec<JsonValue> = Vec::new();
    let mut i: usize = 0;
    while i < r.content.len()
        invariant
            i <= r.content.len(),
            items@.len() == i,
            forall|j: int| 0 <= j < i ==> items@[j]@ == content_tree(r.content@[j]@),
        decreases r.content.len() - i,
    {
        items.push(encode_content(&r.content[i]));
        i += 1;
    }
    proof {
        lemma_array_view(items);
        assert(items_view(items@) =~= Seq::new(
            r@.content.len(),
            |i: int| content_tree(r@.content[i]),
        ));
    }
    let mut obj = new_object();
    put(&mut obj, "content", JsonValue::Array(items));
    put_opt_map(&mut obj, "metadata", &r.metadata);
    JsonValue::Object(obj)
}

/// One part of a resource as a document.
pub fn encode_part(p: &McpResourceContent) -> (r: JsonValue)
    ensures
        r@ == part_tree(p@),
{
    let mut out = new_object();
    put_text(&mut out, "uri", &p.uri);
    put_text(&mut out, "text", &p.text);
    put_opt_text(&mut out, "mime_type", &p.mime_type);
    JsonValue::Object(out)
}

/// A resource as a document.
pub fn encode_resource(r: &McpResource) -> (out: JsonValue)
    ensures
        out@ == resource_tree(r@),
{
    let mut items: Vec<JsonValue> = Vec::new();
    let mut i: usize = 0;
    while i < r.contents.len()
        invariant
            i <= r.contents.len(),
            items@.len() == i,
            forall|j: int| 0 <= j < i ==> items@[j]@ == part_tree(r.contents@[j]@),
        decreases r.contents.len() - i,
    {
        items.push(encode_part(&r.contents[i]));
        i += 1;
    }
    proof {
        lemma_array_view(items);
        assert(items_view(items@) =~= Seq::new(
            r@.contents.len(),
            |i: int| part_tree(r@.contents[i]),
        ));
    }
    let mut obj = new_object();
    put(&mut obj, "contents", JsonValue::Array(items));
    put_opt_map(&mut obj, "metadata", &r.metadata);
    JsonValue::Object(obj)
}

/// A tool's description as a document.
pub fn encode_tool(t: &McpTool) -> (r: JsonValue)
    ensures
        r@ == tool_tree(t@),
{
    let mut out = new_object();
    put_text(&mut out, "name", &t.name);
    put_text(&mut out, "description", &t.description);
    put(&mut out, "parameters_schema", t.parameters_schema.clone());
    JsonValue::Object(out)
}

/// A server's description as a document.
pub fn encode_server_info(s: &McpServerInfo) -> (out: JsonValue)
    ensures
        out@ == server_info_tree(s@),
{
    let mut items: Vec<JsonValue> = Vec::new();
    let mut i: usize = 0;
    while i < s.tools.len()
        invariant
            i <= s.tools.len(),
            items@.len() == i,
            forall|j: int| 0 <= j < i ==> items@[j]@ == tool_tree(s.tools@[j]@),
        decreases s.tools.len() - i,
    {
        items.push(encode_tool(&s.tools[i]));
        i += 1;
    }
    proof {
        lemma_array_view(items);
        assert(items_view(items@) =~= Seq::new(s@.tools.len(), |i: int| tool_tree(s@.tools[i])));
    }
    let mut obj = new_object();
    put_text(&mut obj, "name", &s.name);
    put_text(&mut obj, "version", &s.version);
    put(&mut obj, "tools", JsonValue::Array(items));
    JsonValue::Object(obj)
}

/// The envelope of a discriminant and its fields.
fn wrap(tag: &str, data: JsonMap) -> (r: JsonValue)
    ensures
        r@ == envelope(tag@, members_view(data@)),
{
    let mut obj = new_object();
    put(&mut obj, "type", JsonValue::Text(tag.to_owned()));
    put(&mut obj, "data", JsonValue::Object(data));
    JsonValue::Object(obj)
}

/// A message as a document. Where the message is well formed, reading the
/// document gives the message again.
pub fn encode_message(m: &McpMessage) -> (r: JsonValue)
    ensures
        r@ == message_tree(m@),
        message_wf(m@) ==> message_of_tree(r@) == Ok::<MessageModel, DecodeError>(m@),
{
    proof {
        if message_wf(m@) {
            lemma_message_round_trip(m@);
        }
    }
    let mut data = new_object();
    match m {
        McpMessage::ToolCall { call_id, name, parameters } => {
            put_text(&mut data, "call_id", call_id);
            put_text(&mut data, "name", name);
            put(&mut data, "parameters", JsonValue::Object(clone_members(parameters)));
            wrap("tool_call", data)
        },
        McpMessage::ToolResponse { call_id, response } => {
            put_text(&mut data, "call_id", call_id);
            put(&mut data, "response", encode_response(response));
            wrap("tool_response", data)
        },
        McpMessage::ResourceRequest { request_id, uri } => {
            put_text(&mut data, "request_id", request_id);
            put_text(&mut data, "uri", uri);
            wrap("resource_request", data)
        },
        McpMessage::ResourceResponse { request_id, resource } => {
            put_text(&mut data, "request_id", request_id);
            put(&mut data, "resource", encode_resource(resource));
            wrap("resource_response", data)
        },
        McpMessage::Error { code, message, reference_id } => {
            put_text(&mut data, "code", code);
            put_text(&mut data, "message", message);
            put_text_or_null(&mut data, "reference_id", reference_id);
            wrap("error", data)
        },
        McpMessage::Handshake { version, server_info } => {
            put_text(&mut data, "version", version);
            let info = match server_info {
                Some(i) => encode_server_info(i),
                None => JsonValue::Null,
            };
            put(&mut data, "server_info", info);
            wrap("handshake", data)
        },
    }
}

/// The text under `key`, where the member is there and is a text.
fn get_text(obj: &JsonMap, key: &str) -> (r: Option<String>)
    ensures
        opt_text_view(r) == text_field(members_view(obj@), key@),
{
    match member(obj, key) {
        Some(JsonValue::Text(s)) => Some(s.clone()),
        _ => None,
    }
}

/// The text under `key`, or none where the member is missing or null; no
/// result where it is of another kind.
fn get_opt_text(obj: &JsonMap, key: &str) -> (r: Option<Option<String>>)
    ensures
        match r {
            Some(t) => opt_text_field(members_view(obj@), key@) == Some(opt_text_view(t)),
            None => opt_text_field(members_view(obj@), key@) is None,
        },
{
    match member(obj, key) {
        None => Some(None),
        Some(JsonValue::Null) => Some(None),
        Some(JsonValue::Text(s)) => Some(Some(s.clone())),
        _ => None,
    }
}

/// The object under `key`, or none where the member is missing or null; no
/// result where it is of another kind.
fn get_opt_map(obj: &JsonMap, key: &str) -> (r: Option<Option<JsonMap>>)
    ensures
        match r {
            Some(m) => opt_map_field(members_view(obj@), key@) == Some(opt_map_view(m)),
            None => opt_map_field(members_view(obj@), key@) is None,
        },
{
    match member(obj, key) {
        None => Some(None),
        Some(JsonValue::Null) => Some(None),
        Some(JsonValue::Object(m)) => Some(Some(clone_members(m))),
        _ => None,
    }
}

/// Copies of the members whose keys a content block does not read itself.
fn open_entries(obj: &JsonMap) -> (r: JsonMap)
    ensures
        members_view(r@) == open_members(members_view(obj@)),
{
    let ghost all = members_view(obj@);
    let mut out = new_object();
    let mut i: usize = 0;
    while i < obj.len()
        invariant
            i <= obj.len(),
            all == members_view(obj@),
            members_view(out@) == open_members(all.subrange(0, i as int)),
        decreases obj.len() - i,
    {
        proof {
            assert(all.subrange(0, i + 1).drop_last() =~= all.subrange(0, i as int));
        }
        if !text_is(&obj[i].0, "type") && !text_is(&obj[i].0, "text") {
            put(&mut out, obj[i].0.as_str(), obj[i].1.clone());
        }
        i += 1;
    }
    proof {
        assert(all.subrange(0, i as int) =~= all);
    }
    out
}

/// Reads a content block.
pub fn decode_content(v: &JsonValue) -> (r: Option<McpContent>)
    ensures
        match r {
            Some(c) => content_of_tree(v@) == Some(c@),
            None => content_of_tree(v@) is None,
        },
{
    match v {
        JsonValue::Object(obj) => {
            match (get_text(obj, "type"), get_opt_text(obj, "text")) {
                (Some(content_type), Some(text)) => Some(
                    McpContent { content_type, text, attributes: open_entries(obj) },
                ),
                _ => None,
            }
        },
        _ => None,
    }
}

/// Reads one part of a resource.
pub fn decode_part(v: &JsonValue) -> (r: Option<McpResourceContent>)
    ensures
        match r {
            Some(p) => part_of_tree(v@) == Some(p@),
            None => part_of_tree(v@) is None,
        },
{
    match v {
        JsonValue::Object(obj) => {
            match (get_text(obj, "uri"), get_text(obj, "text"), get_opt_text(obj, "mime_type")) {
                (Some(uri), Some(text), Some(mime_type)) => Some(
                    McpResourceContent { uri, text, mime_type },
                ),
                _ => None,
            }
        },
        _ => None,
    }
}

/// Reads a tool's description.
pub fn decode_tool(v: &JsonValue) -> (r: Option<McpTool>)
    ensures
        match r {
            Some(t) => tool_of_tree(v@) == Some(t@),
            None => tool_of_tree(v@) is None,
        },
{
    match v {
        JsonValue::Object(obj) => {
            match (
                get_text(obj, "name"),
                get_text(obj, "description"),
                member(obj, "parameters_schema"),
            ) {
                (Some(name), Some(description), Some(schema)) => Some(
                    McpTool { name, description, parameters_schema: schema.clone() },
                ),
                _ => None,
            }
        },
        _ => None,
    }
}

/// Reads every item of an array as a content block.
fn decode_contents(items: &Vec<JsonValue>) -> (r: Option<Vec<McpContent>>)
    ensures
        match r {
            Some(list) => contents_of(items_view(items@)) == Some(
                contents_view(list@),
            ),
            None => contents_of(items_view(items@)) is None,
        },
{
    let mut out: Vec<McpContent> = Vec::new();
    let mut i: usize = 0;
    while i < items.len()
        invariant
            i <= items.len(),
            out@.len() == i,
            forall|j: int| 0 <= j < i ==> content_of_tree(items@[j]@) == Some(#[trigger] out@[j]@),
        decreases items.len() - i,
    {
        match decode_content(&items[i]) {
            Some(c) => out.push(c),
            None => {
                proof {
                    assert(content_of_tree(items_view(items@)[i as int]) is None);
                }
                return None;
            },
        }
        i += 1;
    }
    proof {
        assert forall|j: int| 0 <= j < items@.len() implies (#[trigger] content_of_tree(
            items_view(items@)[j],
        )) is Some by {
            assert(content_of_tree(items@[j]@) == Some(out@[j]@));
        }
        assert(contents_of(items_view(items@))->Some_0 =~= contents_view(out@)) by {
            assert forall|j: int| 0 <= j < items@.len() implies content_of_tree(items_view(items@)[j])->Some_0
                == contents_view(out@)[j] by {
                assert(content_of_tree(items@[j]@) == Some(out@[j]@));
            }
        }
    }
    Some(out)
}

/// Reads every item of an array as a part of a resource.
fn decode_parts(items: &Vec<JsonValue>) -> (r: Option<Vec<McpResourceContent>>)
    ensures
        match r {
            Some(list) => parts_of(items_view(items@)) == Some(
                parts_view(list@),
            ),
            None => parts_of(items_view(items@)) is None,
        },
{
    let mut out: Vec<McpResourceContent> = Vec::new();
    let mut i: usize = 0;
    while i < items.len()
        invariant
            i <= items.len(),
            out@.len() == i,
            forall|j: int| 0 <= j < i ==> part_of_tree(items@[j]@) == Some(#[trigger] out@[j]@),
        decreases items.len() - i,
    {
        match decode_part(&items[i]) {
            Some(c) => out.push(c),
            None => {
                proof {
                    assert(part_of_tree(items_view(items@)[i as int]) is None);
                }
                return None;
            },
        }
        i += 1;
    }
    proof {
        assert forall|j: int| 0 <= j < items@.len() implies (#[trigger] part_of_tree(
            items_view(items@)[j],
        )) is Some by {
            assert(part_of_tree(items@[j]@) == Some(out@[j]@));
        }
        assert(parts_of(items_view(items@))->Some_0 =~= parts_view(out@)) by {
            assert forall|j: int| 0 <= j < items@.len() implies part_of_tree(items_view(items@)[j])->Some_0
                == parts_view(out@)[j] by {
                assert(part_of_tree(items@[j]@) == Some(out@[j]@));
            }
        }
    }
    Some(out)
}

/// Reads every item of an array as a tool's description.
fn decode_tools(items: &Vec<JsonValue>) -> (r: Option<Vec<McpTool>>)
    ensures
        match r {
            Some(list) => tools_of(items_view(items@)) == Some(
                tools_view(list@),
            ),
            None => tools_of(items_view(items@)) is None,
        },
{
    let mut out: Vec<McpTool> = Vec::new();
    let mut i: usize = 0;
    while i < items.len()
        invariant
            i <= items.len(),
            out@.len() == i,
            forall|j: int| 0 <= j < i ==> tool_of_tree(items@[j]@) == Some(#[trigger] out@[j]@),
        decreases items.len() - i,
    {
        match decode_tool(&items[i]) {
            Some(c) => out.push(c),
            None => {
                proof {
                    assert(tool_of_tree(items_view(items@)[i as int]) is None);
                }
                return None;
            },
        }
        i += 1;
    }
    proof {
        assert forall|j: int| 0 <= j < items@.len() implies (#[trigger] tool_of_tree(
            items_view(items@)[j],
        )) is Some by {
            assert(tool_of_tree(items@[j]@) == Some(out@[j]@));
        }
        assert(tools_of(items_view(items@))->Some_0 =~= tools_view(out@)) by {
            assert forall|j: int| 0 <= j < items@.len() implies tool_of_tree(items_view(items@)[j])->Some_0
                == tools_view(out@)[j] by {
                assert(tool_of_tree(items@[j]@) == Some(out@[j]@));
            }
        }
    }
    Some(out)
}

/// Reads a tool's response.
pub fn decode_response(v: &JsonValue) -> (r: Option<McpResponse>)
    ensures
        match r {
            Some(x) => response_of_tree(v@) == Some(x@),
            None => response_of_tree(v@) is None,
        },
{
    match v {
        JsonValue::Object(obj) => {
            let content = match member(obj, "content") {
                Some(JsonValue::Array(items)) => {
                    proof {
                        lemma_array_view(*items);
                    }
                    decode_contents(items)
                },
                _ => None,
            };
            match (content, get_opt_map(obj, "metadata")) {
                (Some(content), Some(metadata)) => Some(McpResponse { content, metadata }),
                _ => None,
            }
        },
        _ => None,
    }
}

/// Reads a resource.
pub fn decode_resource(v: &JsonValue) -> (r: Option<McpResource>)
    ensures
        match r {
            Some(x) => resource_of_tree(v@) == Some(x@),
            None => resource_of_tree(v@) is None,
        },
{
    match v {
        JsonValue::Object(obj) => {
            let contents = match member(obj, "contents") {
                Some(JsonValue::Array(items)) => {
                    proof {
                        lemma_array_view(*items);
                    }
                    decode_parts(items)
                },
                _ => None,
            };
            match (contents, get_opt_map(obj, "metadata")) {
                (Some(contents), Some(metadata)) => Some(McpResource { contents, metadata }),
                _ => None,
            }
        },
        _ => None,
    }
}

/// Reads a server's description.
pub fn decode_server_info(v: &JsonValue) -> (r: Option<McpServerInfo>)
    ensures
        match r {
            Some(x) => server_info_of_tree(v@) == Some(x@),
            None => server_info_of_tree(v@) is None,
        },
{
    match v {
        JsonValue::Object(obj) => {
            let tools = match member(obj, "tools") {
                None => {
                    let empty: Vec<McpTool> = Vec::new();
                    proof {
                        assert(tools_view(empty@) =~= Seq::<ToolModel>::empty());
                    }
                    Some(empty)
                },
                Some(JsonValue::Array(items)) => {
                    proof {
                        lemma_array_view(*items);
                    }
                    decode_tools(items)
                },
                _ => None,
            };
            match (get_text(obj, "name"), get_text(obj, "version"), tools) {
                (Some(name), Some(version), Some(tools)) => Some(
                    McpServerInfo { name, version, tools },
                ),
                _ => None,
            }
        },
        _ => None,
    }
}

/// Reads the fields of the variant that a discriminant names.
fn decode_variant(tag: &String, data: &JsonMap) -> (r: Option<McpMessage>)
    ensures
        match r {
            Some(m) => variant_of(tag@, members_view(data@)) == Some(m@),
            None => variant_of(tag@, members_view(data@)) is None,
        },
{
    if text_is(tag, "tool_call") {
        let parameters = match member(data, "parameters") {
            None => Some(new_object()),
            Some(JsonValue::Object(m)) => Some(clone_members(m)),
            _ => None,
        };
        match (get_text(data, "call_id"), get_text(data, "name"), parameters) {
            (Some(call_id), Some(name), Some(parameters)) => Some(
                McpMessage::ToolCall { call_id, name, parameters },
            ),
            _ => None,
        }
    } else if text_is(tag, "tool_response") {
        match (get_text(data, "call_id"), member(data, "response")) {
            (Some(call_id), Some(t)) => match decode_response(t) {
                Some(response) => Some(McpMessage::ToolResponse { call_id, response }),
                None => None,
            },
            _ => None,
        }
    } else if text_is(tag, "resource_request") {
        match (get_text(data, "request_id"), get_text(data, "uri")) {
            (Some(request_id), Some(uri)) => Some(McpMessage::ResourceRequest { request_id, uri }),
            _ => None,
        }
    } else if text_is(tag, "resource_response") {
        match (get_text(data, "request_id"), member(data, "resource")) {
            (Some(request_id), Some(t)) => match decode_resource(t) {
                Some(resource) => Some(McpMessage::ResourceResponse { request_id, resource }),
                None => None,
            },
            _ => None,
        }
    } else if text_is(tag, "error") {
        match (get_text(data, "code"), get_text(data, "message"), get_opt_text(data, "reference_id")) {
            (Some(code), Some(message), Some(reference_id)) => Some(
                McpMessage::Error { code, message, reference_id },
            ),
            _ => None,
        }
    } else if text_is(tag, "handshake") {
        let info = match member(data, "server_info") {
            None => Some(None),
            Some(JsonValue::Null) => Some(None),
            Some(t) => match decode_server_info(t) {
                Some(i) => Some(Some(i)),
                None => None,
            },
        };
        match (get_text(data, "version"), info) {
            (Some(version), Some(server_info)) => Some(
                McpMessage::Handshake { version, server_info },
            ),
            _ => None,
        }
    } else {
        None
    }
}

/// Whether a text is one of the six discriminants.
fn is_known_tag(tag: &String) -> (r: bool)
    ensures
        r == known_tag(tag@),
{
    text_is(tag, "tool_call") || text_is(tag, "tool_response") || text_is(tag, "resource_request")
        || text_is(tag, "resource_response") || text_is(tag, "error") || text_is(tag, "handshake")
}

/// Reads a message from its document: the message that the document means,
/// `UnknownType` for a discriminant that is none of the six, and `Malformed`
/// for every other document.
pub fn decode_message(v: &JsonValue) -> (r: Result<McpMessage, DecodeError>)
    ensures
        match r {
            Ok(m) => message_of_tree(v@) == Ok::<MessageModel, DecodeError>(m@),
            Err(e) => message_of_tree(v@) == Err::<MessageModel, DecodeError>(e),
        },
{
    match v {
        JsonValue::Object(obj) => match member(obj, "type") {
            Some(JsonValue::Text(tag)) => {
                if !is_known_tag(tag) {
                    Err(DecodeError::UnknownType)
                } else {
                    match member(obj, "data") {
                        Some(JsonValue::Object(data)) => match decode_variant(tag, data) {
                            Some(m) => Ok(m),
                            None => Err(DecodeError::Malformed),
                        },
                        _ => Err(DecodeError::Malformed),
                    }
                }
            },
            _ => Err(DecodeError::Malformed),
        },
        _ => Err(DecodeError::Malformed),
    }
}

} // verus!
