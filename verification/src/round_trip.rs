//! Reading is the inverse of writing: the document that a message is written
//! as means that message again.

use crate::json::{
    find_member, json_text_value, json_value_text, lacks_key, lemma_find_append, lemma_find_empty, lemma_find_last, lemma_find_skip,
    JsonTree,
};
use crate::protocol::{
    content_of_tree, content_tree, contents_of, message_data, message_of_text, message_of_tree,
    message_tag,
    message_tree, open_members, part_of_tree, part_tree, parts_of, reserved_key, resource_of_tree,
    resource_tree, response_of_tree, response_tree, server_info_of_tree, server_info_tree,
    tool_of_tree, tool_tree, tools_of, variant_of, ContentModel, DecodeError, MapModel,
    MessageModel, ResourceContentModel, ResourceModel, ResponseModel, ServerInfoModel, ToolModel,
};
use vstd::prelude::*;

verus! {

/// A content block whose attributes use neither of the two names that the
/// block itself is written under.
pub open spec fn content_wf(c: ContentModel) -> bool {
    lacks_key(c.attributes, "type"@) && lacks_key(c.attributes, "text"@)
}

/// A response all of whose content blocks are well formed.
pub open spec fn response_wf(r: ResponseModel) -> bool {
    forall|i: int| 0 <= i < r.content.len() ==> content_wf(#[trigger] r.content[i])
}

/// A message whose content blocks, where it has any, are well formed.
pub open spec fn message_wf(m: MessageModel) -> bool {
    match m {
        MessageModel::ToolResponse { response, .. } => response_wf(response),
        _ => true,
    }
}

/// The names of the fields differ from each other.
pub proof fn lemma_keys_differ()
    ensures
        "type"@ != "text"@,
        "type"@ != "data"@,
        "content"@ != "metadata"@,
        "contents"@ != "metadata"@,
        "uri"@ != "text"@,
        "uri"@ != "mime_type"@,
        "text"@ != "mime_type"@,
        "name"@ != "description"@,
        "name"@ != "parameters_schema"@,
        "description"@ != "parameters_schema"@,
        "name"@ != "version"@,
        "name"@ != "tools"@,
        "version"@ != "tools"@,
        "call_id"@ != "name"@,
        "call_id"@ != "parameters"@,
        "name"@ != "parameters"@,
        "call_id"@ != "response"@,
        "request_id"@ != "uri"@,
        "request_id"@ != "resource"@,
        "code"@ != "message"@,
        "code"@ != "reference_id"@,
        "message"@ != "reference_id"@,
        "version"@ != "server_info"@,
{
    reveal_strlit("type");
    reveal_strlit("text");
    reveal_strlit("data");
    reveal_strlit("content");
    reveal_strlit("metadata");
    reveal_strlit("contents");
    reveal_strlit("uri");
    reveal_strlit("mime_type");
    reveal_strlit("name");
    reveal_strlit("description");
    reveal_strlit("parameters_schema");
    reveal_strlit("version");
    reveal_strlit("tools");
    reveal_strlit("call_id");
    reveal_strlit("parameters");
    reveal_strlit("response");
    reveal_strlit("request_id");
    reveal_strlit("resource");
    reveal_strlit("code");
    reveal_strlit("message");
    reveal_strlit("reference_id");
    reveal_strlit("server_info");
    assert("type"@[1] != "text"@[1]);
    assert("type"@[0] != "data"@[0]);
    assert("content"@.len() != "metadata"@.len());
    assert("contents"@[0] != "metadata"@[0]);
    assert("uri"@.len() != "text"@.len());
    assert("uri"@.len() != "mime_type"@.len());
    assert("text"@.len() != "mime_type"@.len());
    assert("name"@.len() != "description"@.len());
    assert("name"@.len() != "parameters_schema"@.len());
    assert("description"@.len() != "parameters_schema"@.len());
    assert("name"@.len() != "version"@.len());
    assert("name"@.len() != "tools"@.len());
    assert("version"@.len() != "tools"@.len());
    assert("call_id"@.len() != "name"@.len());
    assert("call_id"@.len() != "parameters"@.len());
    assert("name"@.len() != "parameters"@.len());
    assert("call_id"@.len() != "response"@.len());
    assert("request_id"@.len() != "uri"@.len());
    assert("request_id"@.len() != "resource"@.len());
    assert("code"@.len() != "message"@.len());
    assert("code"@.len() != "reference_id"@.len());
    assert("message"@.len() != "reference_id"@.len());
    assert("version"@.len() != "server_info"@.len());
}

/// The six discriminants differ from each other.
pub proof fn lemma_tags_differ()
    ensures
        "tool_call"@ != "tool_response"@,
        "tool_call"@ != "resource_request"@,
        "tool_call"@ != "resource_response"@,
        "tool_call"@ != "error"@,
        "tool_call"@ != "handshake"@,
        "tool_response"@ != "resource_request"@,
        "tool_response"@ != "resource_response"@,
        "tool_response"@ != "error"@,
        "tool_response"@ != "handshake"@,
        "resource_request"@ != "resource_response"@,
        "resource_request"@ != "error"@,
        "resource_request"@ != "handshake"@,
        "resource_response"@ != "error"@,
        "resource_response"@ != "handshake"@,
        "error"@ != "handshake"@,
{
    reveal_strlit("tool_call");
    reveal_strlit("tool_response");
    reveal_strlit("resource_request");
    reveal_strlit("resource_response");
    reveal_strlit("error");
    reveal_strlit("handshake");
    assert("tool_call"@.len() != "tool_response"@.len());
    assert("tool_call"@.len() != "resource_request"@.len());
    assert("tool_call"@.len() != "resource_response"@.len());
    assert("tool_call"@.len() != "error"@.len());
    assert("tool_call"@[0] != "handshake"@[0]);
    assert("tool_response"@.len() != "resource_request"@.len());
    assert("tool_response"@.len() != "resource_response"@.len());
    assert("tool_response"@.len() != "error"@.len());
    assert("tool_response"@.len() != "handshake"@.len());
    assert("resource_request"@.len() != "resource_response"@.len());
    assert("resource_request"@.len() != "error"@.len());
    assert("resource_request"@.len() != "handshake"@.len());
    assert("resource_response"@.len() != "error"@.len());
    assert("resource_response"@.len() != "handshake"@.len());
    assert("error"@.len() != "handshake"@.len());
}

/// A member with a reserved key at the end adds nothing to the open members.
proof fn lemma_open_push_reserved(obj: MapModel, key: Seq<char>, value: JsonTree)
    requires
        reserved_key(key),
    ensures
        open_members(obj.push((key, value))) == open_members(obj),
{
    assert(obj.push((key, value)).drop_last() =~= obj);
}

/// Members without reserved keys, appended behind an object, are all open.
proof fn lemma_open_append(head: MapModel, tail: MapModel)
    requires
        lacks_key(tail, "type"@),
        lacks_key(tail, "text"@),
    ensures
        open_members(head + tail) == open_members(head) + tail,
    decreases tail.len(),
{
    if tail.len() == 0 {
        assert(head + tail =~= head);
        assert(open_members(head) + tail =~= open_members(head));
    } else {
        let last = tail[tail.len() - 1];
        assert((head + tail).drop_last() =~= head + tail.drop_last());
        assert((head + tail).last() == last);
        assert(!reserved_key(last.0));
        assert(lacks_key(tail.drop_last(), "type"@)) by {
            assert forall|i: int| 0 <= i < tail.drop_last().len() implies (
            #[trigger] tail.drop_last()[i]).0 != "type"@ by {
                assert(tail.drop_last()[i] == tail[i]);
            }
        }
        assert(lacks_key(tail.drop_last(), "text"@)) by {
            assert forall|i: int| 0 <= i < tail.drop_last().len() implies (
            #[trigger] tail.drop_last()[i]).0 != "text"@ by {
                assert(tail.drop_last()[i] == tail[i]);
            }
        }
        lemma_open_append(head, tail.drop_last());
        assert((open_members(head) + tail.drop_last()).push(last) =~= open_members(head) + tail);
    }
}

/// A well-formed content block is read back from its document.
pub proof fn lemma_content_round_trip(c: ContentModel)
    requires
        content_wf(c),
    ensures
        content_of_tree(content_tree(c)) == Some(c),
{
    broadcast use lemma_find_last, lemma_find_skip, lemma_find_empty;

    lemma_keys_differ();
    let base = Seq::<(Seq<char>, JsonTree)>::empty();
    let typed = base.push(("type"@, JsonTree::Text(c.content_type)));
    let head = match c.text {
        Some(t) => typed.push(("text"@, JsonTree::Text(t))),
        None => typed,
    };
    lemma_find_append(head, c.attributes, "type"@);
    lemma_find_append(head, c.attributes, "text"@);
    lemma_open_append(head, c.attributes);
    lemma_open_push_reserved(base, "type"@, JsonTree::Text(c.content_type));
    if c.text is Some {
        lemma_open_push_reserved(typed, "text"@, JsonTree::Text(c.text->Some_0));
    }
    assert(open_members(base) =~= base);
    assert(open_members(head) + c.attributes =~= c.attributes);
}

/// A response with well-formed content is read back from its document.
pub proof fn lemma_response_round_trip(r: ResponseModel)
    requires
        response_wf(r),
    ensures
        response_of_tree(response_tree(r)) == Some(r),
{
    broadcast use lemma_find_last, lemma_find_skip, lemma_find_empty;

    lemma_keys_differ();
    let items = Seq::new(r.content.len(), |i: int| content_tree(r.content[i]));
    assert forall|i: int| 0 <= i < items.len() implies #[trigger] content_of_tree(items[i])
        == Some(r.content[i]) by {
        lemma_content_round_trip(r.content[i]);
    }
    assert(contents_of(items)->Some_0 =~= r.content);
}

/// A part of a resource is read back from its document.
pub proof fn lemma_part_round_trip(p: ResourceContentModel)
    ensures
        part_of_tree(part_tree(p)) == Some(p),
{
    broadcast use lemma_find_last, lemma_find_skip, lemma_find_empty;

    lemma_keys_differ();
}

/// A resource is read back from its document.
pub proof fn lemma_resource_round_trip(r: ResourceModel)
    ensures
        resource_of_tree(resource_tree(r)) == Some(r),
{
    broadcast use lemma_find_last, lemma_find_skip, lemma_find_empty;

    lemma_keys_differ();
    let items = Seq::new(r.contents.len(), |i: int| part_tree(r.contents[i]));
    assert forall|i: int| 0 <= i < items.len() implies #[trigger] part_of_tree(items[i]) == Some(
        r.contents[i],
    ) by {
        lemma_part_round_trip(r.contents[i]);
    }
    assert(parts_of(items)->Some_0 =~= r.contents);
}

/// A tool's description is read back from its document.
pub proof fn lemma_tool_round_trip(t: ToolModel)
    ensures
        tool_of_tree(tool_tree(t)) == Some(t),
{
    broadcast use lemma_find_last, lemma_find_skip, lemma_find_empty;

    lemma_keys_differ();
}

/// A server's description is read back from its document.
pub proof fn lemma_server_info_round_trip(s: ServerInfoModel)
    ensures
        server_info_of_tree(server_info_tree(s)) == Some(s),
{
    broadcast use lemma_find_last, lemma_find_skip, lemma_find_empty;

    lemma_keys_differ();
    let items = Seq::new(s.tools.len(), |i: int| tool_tree(s.tools[i]));
    assert forall|i: int| 0 <= i < items.len() implies #[trigger] tool_of_tree(items[i]) == Some(
        s.tools[i],
    ) by {
        lemma_tool_round_trip(s.tools[i]);
    }
    assert(tools_of(items)->Some_0 =~= s.tools);
}

/// The fields of a message, under its discriminant, are read back as that
/// message.
pub proof fn lemma_variant_round_trip(m: MessageModel)
    requires
        message_wf(m),
    ensures
        variant_of(message_tag(m), message_data(m)) == Some(m),
{
    broadcast use lemma_find_last, lemma_find_skip, lemma_find_empty;

    lemma_keys_differ();
    lemma_tags_differ();
    match m {
        MessageModel::ToolResponse { response, .. } => {
            lemma_response_round_trip(response);
        },
        MessageModel::ResourceResponse { resource, .. } => {
            lemma_resource_round_trip(resource);
        },
        MessageModel::Handshake { server_info, .. } => {
            if server_info is Some {
                lemma_server_info_round_trip(server_info->Some_0);
            }
        },
        _ => {},
    }
}

/// Reading a message back from the document that it is written as gives the
/// message again.
pub proof fn lemma_message_round_trip(m: MessageModel)
    requires
        message_wf(m),
    ensures
        message_of_tree(message_tree(m)) == Ok::<MessageModel, DecodeError>(m),
{
    broadcast use lemma_find_last, lemma_find_skip, lemma_find_empty;

    lemma_keys_differ();
    lemma_variant_round_trip(m);
}

/// The open members of an object have no reserved key.
proof fn lemma_open_members_lack_reserved(obj: MapModel)
    ensures
        lacks_key(open_members(obj), "type"@),
        lacks_key(open_members(obj), "text"@),
    decreases obj.len(),
{
    if obj.len() > 0 {
        lemma_open_members_lack_reserved(obj.drop_last());
    }
}

/// Every content block that is read from a document is well formed.
pub proof fn lemma_read_content_wf(t: JsonTree)
    requires
        content_of_tree(t) is Some,
    ensures
        content_wf(content_of_tree(t)->Some_0),
{
    lemma_open_members_lack_reserved(t->Object_0);
}

/// Every message that is read from a document is well formed, so that
/// writing it and reading it again gives the same message.
pub proof fn lemma_read_message_wf(t: JsonTree)
    requires
        message_of_tree(t) is Ok,
    ensures
        message_wf(message_of_tree(t)->Ok_0),
        message_of_tree(message_tree(message_of_tree(t)->Ok_0)) == message_of_tree(t),
{
    let m = message_of_tree(t)->Ok_0;
    match m {
        MessageModel::ToolResponse { response, .. } => {
            lemma_tags_differ();
            let data = find_member(t->Object_0, "data"@)->Some_0->Object_0;
            let inner = find_member(data, "response"@)->Some_0;
            assert(response_of_tree(inner) == Some(response));
            let items = find_member(inner->Object_0, "content"@)->Some_0->Array_0;
            assert forall|i: int| 0 <= i < response.content.len() implies content_wf(
                #[trigger] response.content[i],
            ) by {
                assert(content_of_tree(items[i]) is Some);
                lemma_read_content_wf(items[i]);
            }
        },
        _ => {},
    }
    lemma_message_round_trip(m);
}

/// Where the JSON layer reads back the document that it wrote for a
/// well-formed message, the text of the message means the message again.
pub proof fn lemma_text_round_trip(m: MessageModel)
    requires
        message_wf(m),
        json_value_text(message_tree(m)) is Some,
        json_text_value(json_value_text(message_tree(m))->Some_0) == Some(message_tree(m)),
    ensures
        message_of_text(json_value_text(message_tree(m))->Some_0) == Some(
            Ok::<MessageModel, DecodeError>(m),
        ),
{
    lemma_message_round_trip(m);
}

} // verus!
