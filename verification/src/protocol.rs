//! The messages of the protocol, their mathematical models, and what each
//! means as a JSON document: an object with the discriminant under `type` and
//! the variant's fields under `data`.

use crate::codec::{decode_message, encode_message};
use crate::json::{
    find_member, json_text_value, json_value_text, members_view, parse_json, render_json, JsonTree,
    JsonValue,
};
use vstd::prelude::*;

verus! {

/// A mapping from names to JSON values, as the list of its entries.
pub type JsonMap = Vec<(String, JsonValue)>;

/// The model of a [`JsonMap`].
pub type MapModel = Seq<(Seq<char>, JsonTree)>;

/// One block of a tool's response.
#[derive(Debug, Clone, PartialEq, Eq)]
pub struct McpContent {
    pub content_type: String,
    pub text: Option<String>,
    /// Every other attribute of the block; no entry is named `type` or `text`.
    pub attributes: JsonMap,
}

/// What a tool call returns.
#[derive(Debug, Clone, PartialEq, Eq)]
pub struct McpResponse {
    pub content: Vec<McpContent>,
    pub metadata: Option<JsonMap>,
}

/// One part of a resource.
#[derive(Debug, Clone, PartialEq, Eq)]
pub struct McpResourceContent {
    pub uri: String,
    pub text: String,
    pub mime_type: Option<String>,
}

/// What a resource request returns.
#[derive(Debug, Clone, PartialEq, Eq)]
pub struct McpResource {
    pub contents: Vec<McpResourceContent>,
    pub metadata: Option<JsonMap>,
}

/// A tool that the server offers; `parameters_schema` is a JSON schema.
#[derive(Debug, Clone, PartialEq, Eq)]
pub struct McpTool {
    pub name: String,
    pub description: String,
    pub parameters_schema: JsonValue,
}

/// What the server says of itself in its handshake.
#[derive(Debug, Clone, PartialEq, Eq)]
pub struct McpServerInfo {
    pub name: String,
    pub version: String,
    pub tools: Vec<McpTool>,
}

/// A message of the protocol.
#[derive(Debug, Clone, PartialEq, Eq)]
pub enum McpMessage {
    ToolCall { call_id: String, name: String, parameters: JsonMap },
    ToolResponse { call_id: String, response: McpResponse },
    ResourceRequest { request_id: String, uri: String },
    ResourceResponse { request_id: String, resource: McpResource },
    Error { code: String, message: String, reference_id: Option<String> },
    Handshake { version: String, server_info: Option<McpServerInfo> },
}

/// Why a text is not a message.
#[derive(Debug, Clone, PartialEq, Eq)]
pub enum DecodeError {
    /// The text is not a JSON document; the parser's message.
    Syntax(String),
    /// The document's `type` is none of the six discriminants.
    UnknownType,
    /// The document is not an object with a `type` and the `data` of that
    /// type: a field is missing or holds a value of the wrong kind.
    Malformed,
}

/// The model of a [`McpContent`].
pub struct ContentModel {
    pub content_type: Seq<char>,
    pub text: Option<Seq<char>>,
    pub attributes: MapModel,
}

/// The model of a [`McpResponse`].
pub struct ResponseModel {
    pub content: Seq<ContentModel>,
    pub metadata: Option<MapModel>,
}

/// The model of a [`McpResourceContent`].
pub struct ResourceContentModel {
    pub uri: Seq<char>,
    pub text: Seq<char>,
    pub mime_type: Option<Seq<char>>,
}

/// The model of a [`McpResource`].
pub struct ResourceModel {
    pub contents: Seq<ResourceContentModel>,
    pub metadata: Option<MapModel>,
}

/// The model of a [`McpTool`].
pub struct ToolModel {
    pub name: Seq<char>,
    pub description: Seq<char>,
    pub parameters_schema: JsonTree,
}

/// The model of a [`McpServerInfo`].
pub struct ServerInfoModel {
    pub name: Seq<char>,
    pub version: Seq<char>,
    pub tools: Seq<ToolModel>,
}

/// The model of a [`McpMessage`].
pub enum MessageModel {
    ToolCall { call_id: Seq<char>, name: Seq<char>, parameters: MapModel },
    ToolResponse { call_id: Seq<char>, response: ResponseModel },
    ResourceRequest { request_id: Seq<char>, uri: Seq<char> },
    ResourceResponse { request_id: Seq<char>, resource: ResourceModel },
    Error { code: Seq<char>, message: Seq<char>, reference_id: Option<Seq<char>> },
    Handshake { version: Seq<char>, server_info: Option<ServerInfoModel> },
}

/// The model of an optional text.
pub open spec fn opt_text_view(t: Option<String>) -> Option<Seq<char>> {
    match t {
        Some(s) => Some(s@),
        None => None,
    }
}

/// The model of an optional mapping.
pub open spec fn opt_map_view(m: Option<JsonMap>) -> Option<MapModel> {
    match m {
        Some(entries) => Some(members_view(entries@)),
        None => None,
    }
}

impl View for McpContent {
    type V = ContentModel;

    open spec fn view(&self) -> ContentModel {
        ContentModel {
            content_type: self.content_type@,
            text: opt_text_view(self.text),
            attributes: members_view(self.attributes@),
        }
    }
}

/// The models of a list of content blocks.
pub open spec fn contents_view(items: Seq<McpContent>) -> Seq<ContentModel> {
    Seq::new(items.len(), |i: int| items[i]@)
}

impl View for McpResponse {
    type V = ResponseModel;

    open spec fn view(&self) -> ResponseModel {
        ResponseModel {
            content: contents_view(self.content@),
            metadata: opt_map_view(self.metadata),
        }
    }
}

impl View for McpResourceContent {
    type V = ResourceContentModel;

    open spec fn view(&self) -> ResourceContentModel {
        ResourceContentModel {
            uri: self.uri@,
            text: self.text@,
            mime_type: opt_text_view(self.mime_type),
        }
    }
}

/// The models of the parts of a resource.
pub open spec fn parts_view(items: Seq<McpResourceContent>) -> Seq<ResourceContentModel> {
    Seq::new(items.len(), |i: int| items[i]@)
}

impl View for McpResource {
    type V = ResourceModel;

    open spec fn view(&self) -> ResourceModel {
        ResourceModel {
            contents: parts_view(self.contents@),
            metadata: opt_map_view(self.metadata),
        }
    }
}

impl View for McpTool {
    type V = ToolModel;

    open spec fn view(&self) -> ToolModel {
        ToolModel {
            name: self.name@,
            description: self.description@,
            parameters_schema: self.parameters_schema@,
        }
    }
}

/// The models of a list of tools.
pub open spec fn tools_view(items: Seq<McpTool>) -> Seq<ToolModel> {
    Seq::new(items.len(), |i: int| items[i]@)
}

impl View for McpServerInfo {
    type V = ServerInfoModel;

    open spec fn view(&self) -> ServerInfoModel {
        ServerInfoModel { name: self.name@, version: self.version@, tools: tools_view(self.tools@) }
    }
}

/// The model of an optional server description.
pub open spec fn opt_info_view(info: Option<McpServerInfo>) -> Option<ServerInfoModel> {
    match info {
        Some(i) => Some(i@),
        None => None,
    }
}

impl View for McpMessage {
    type V = MessageModel;

    open spec fn view(&self) -> MessageModel {
        match self {
            McpMessage::ToolCall { call_id, name, parameters } => MessageModel::ToolCall {
                call_id: call_id@,
                name: name@,
                parameters: members_view(parameters@),
            },
            McpMessage::ToolResponse { call_id, response } => MessageModel::ToolResponse {
                call_id: call_id@,
                response: response@,
            },
            McpMessage::ResourceRequest { request_id, uri } => MessageModel::ResourceRequest {
                request_id: request_id@,
                uri: uri@,
            },
            McpMessage::ResourceResponse { request_id, resource } => MessageModel::ResourceResponse {
                request_id: request_id@,
                resource: resource@,
            },
            McpMessage::Error { code, message, reference_id } => MessageModel::Error {
                code: code@,
                message: message@,
                reference_id: opt_text_view(*reference_id),
            },
            McpMessage::Handshake { version, server_info } => MessageModel::Handshake {
                version: version@,
                server_info: opt_info_view(*server_info),
            },
        }
    }
}

// ---- what a message is as a document ----

/// The object extended by a text member.
pub open spec fn with_text(obj: MapModel, key: Seq<char>, text: Seq<char>) -> MapModel {
    obj.push((key, JsonTree::Text(text)))
}

/// The object extended by a text member where there is a text, unchanged
/// where there is none.
pub open spec fn with_opt_text(obj: MapModel, key: Seq<char>, text: Option<Seq<char>>) -> MapModel {
    match text {
        Some(t) => obj.push((key, JsonTree::Text(t))),
        None => obj,
    }
}

/// The object extended by a member that is the text, or null for none.
pub open spec fn with_text_or_null(obj: MapModel, key: Seq<char>, text: Option<Seq<char>>) -> MapModel {
    match text {
        Some(t) => obj.push((key, JsonTree::Text(t))),
        None => obj.push((key, JsonTree::Null)),
    }
}

/// The object extended by an object member where there is a map.
pub open spec fn with_opt_map(obj: MapModel, key: Seq<char>, entries: Option<MapModel>) -> MapModel {
    match entries {
        Some(m) => obj.push((key, JsonTree::Object(m))),
        None => obj,
    }
}

/// A content block as a document: its type, its text where it has one,
/// then its other attributes.
pub open spec fn content_tree(c: ContentModel) -> JsonTree {
    JsonTree::Object(
        with_opt_text(with_text(Seq::empty(), "type"@, c.content_type), "text"@, c.text)
            + c.attributes,
    )
}

/// A tool's response as a document.
pub open spec fn response_tree(r: ResponseModel) -> JsonTree {
    JsonTree::Object(
        with_opt_map(
            Seq::empty().push(
                (
                    "content"@,
                    JsonTree::Array(Seq::new(r.content.len(), |i: int| content_tree(r.content[i]))),
                ),
            ),
            "metadata"@,
            r.metadata,
        ),
    )
}

/// A part of a resource as a document.
pub open spec fn part_tree(p: ResourceContentModel) -> JsonTree {
    JsonTree::Object(
        with_opt_text(
            with_text(with_text(Seq::empty(), "uri"@, p.uri), "text"@, p.text),
            "mime_type"@,
            p.mime_type,
        ),
    )
}

/// A resource as a document.
pub open spec fn resource_tree(r: ResourceModel) -> JsonTree {
    JsonTree::Object(
        with_opt_map(
            Seq::empty().push(
                (
                    "contents"@,
                    JsonTree::Array(Seq::new(r.contents.len(), |i: int| part_tree(r.contents[i]))),
                ),
            ),
            "metadata"@,
            r.metadata,
        ),
    )
}

/// A tool's description as a document.
pub open spec fn tool_tree(t: ToolModel) -> JsonTree {
    JsonTree::Object(
        with_text(with_text(Seq::empty(), "name"@, t.name), "description"@, t.description).push(
            ("parameters_schema"@, t.parameters_schema),
        ),
    )
}

/// A server's description as a document.
pub open spec fn server_info_tree(s: ServerInfoModel) -> JsonTree {
    JsonTree::Object(
        with_text(with_text(Seq::empty(), "name"@, s.name), "version"@, s.version).push(
            ("tools"@, JsonTree::Array(Seq::new(s.tools.len(), |i: int| tool_tree(s.tools[i])))),
        ),
    )
}

/// The envelope: the discriminant under `type`, the fields under `data`.
pub open spec fn envelope(tag: Seq<char>, data: MapModel) -> JsonTree {
    JsonTree::Object(
        Seq::empty().push(("type"@, JsonTree::Text(tag))).push(("data"@, JsonTree::Object(data))),
    )
}

/// The discriminant of a message.
pub open spec fn message_tag(m: MessageModel) -> Seq<char> {
    match m {
        MessageModel::ToolCall { .. } => "tool_call"@,
        MessageModel::ToolResponse { .. } => "tool_response"@,
        MessageModel::ResourceRequest { .. } => "resource_request"@,
        MessageModel::ResourceResponse { .. } => "resource_response"@,
        MessageModel::Error { .. } => "error"@,
        MessageModel::Handshake { .. } => "handshake"@,
    }
}

/// The fields of a message, as the object under `data`.
pub open spec fn message_data(m: MessageModel) -> MapModel {
    match m {
        MessageModel::ToolCall { call_id, name, parameters } => with_text(
            with_text(Seq::empty(), "call_id"@, call_id),
            "name"@,
            name,
        ).push(("parameters"@, JsonTree::Object(parameters))),
        MessageModel::ToolResponse { call_id, response } => with_text(
            Seq::empty(),
            "call_id"@,
            call_id,
        ).push(("response"@, response_tree(response))),
        MessageModel::ResourceRequest { request_id, uri } => with_text(
            with_text(Seq::empty(), "request_id"@, request_id),
            "uri"@,
            uri,
        ),
        MessageModel::ResourceResponse { request_id, resource } => with_text(
            Seq::empty(),
            "request_id"@,
            request_id,
        ).push(("resource"@, resource_tree(resource))),
        MessageModel::Error { code, message, reference_id } => with_text_or_null(
            with_text(with_text(Seq::empty(), "code"@, code), "message"@, message),
            "reference_id"@,
            reference_id,
        ),
        MessageModel::Handshake { version, server_info } => with_text(
            Seq::empty(),
            "version"@,
            version,
        ).push(
            (
                "server_info"@,
                match server_info {
                    Some(info) => server_info_tree(info),
                    None => JsonTree::Null,
                },
            ),
        ),
    }
}

/// The document that a message is written as.
pub open spec fn message_tree(m: MessageModel) -> JsonTree {
    envelope(message_tag(m), message_data(m))
}

// ---- what a document means as a message ----

/// A member that must be there and be a text.
pub open spec fn text_field(obj: MapModel, key: Seq<char>) -> Option<Seq<char>> {
    match find_member(obj, key) {
        Some(JsonTree::Text(s)) => Some(s),
        _ => None,
    }
}

/// A member that may be missing or null, and is a text otherwise. The outer
/// `None` stands for a member of another kind.
pub open spec fn opt_text_field(obj: MapModel, key: Seq<char>) -> Option<Option<Seq<char>>> {
    match find_member(obj, key) {
        None => Some(None),
        Some(JsonTree::Null) => Some(None),
        Some(JsonTree::Text(s)) => Some(Some(s)),
        _ => None,
    }
}

/// A member that may be missing or null, and is an object otherwise.
pub open spec fn opt_map_field(obj: MapModel, key: Seq<char>) -> Option<Option<MapModel>> {
    match find_member(obj, key) {
        None => Some(None),
        Some(JsonTree::Null) => Some(None),
        Some(JsonTree::Object(m)) => Some(Some(m)),
        _ => None,
    }
}

/// Whether a key is one of the two that a content block reads itself.
pub open spec fn reserved_key(key: Seq<char>) -> bool {
    key == "type"@ || key == "text"@
}

/// The members whose keys are not reserved, in order.
pub open spec fn open_members(obj: MapModel) -> MapModel
    decreases obj.len(),
{
    if obj.len() == 0 {
        Seq::empty()
    } else if reserved_key(obj.last().0) {
        open_members(obj.drop_last())
    } else {
        open_members(obj.drop_last()).push(obj.last())
    }
}

/// The content block that a document means, if it means one. Members other
/// than its type and text are its attributes.
pub open spec fn content_of_tree(t: JsonTree) -> Option<ContentModel> {
    match t {
        JsonTree::Object(obj) => match (text_field(obj, "type"@), opt_text_field(obj, "text"@)) {
            (Some(content_type), Some(text)) => Some(
                ContentModel { content_type, text, attributes: open_members(obj) },
            ),
            _ => None,
        },
        _ => None,
    }
}

/// Every item of an array read as a content block, where each of them is one.
pub open spec fn contents_of(items: Seq<JsonTree>) -> Option<Seq<ContentModel>> {
    if forall|i: int| 0 <= i < items.len() ==> (#[trigger] content_of_tree(items[i])) is Some {
        Some(Seq::new(items.len(), |i: int| content_of_tree(items[i])->Some_0))
    } else {
        None
    }
}

/// A member that must be there and be an array of such items.
pub open spec fn contents_of_field(obj: MapModel, key: Seq<char>) -> Option<Seq<ContentModel>> {
    match find_member(obj, key) {
        Some(JsonTree::Array(items)) => contents_of(items),
        _ => None,
    }
}

/// The tool's response that a document means, if it means one.
pub open spec fn response_of_tree(t: JsonTree) -> Option<ResponseModel> {
    match t {
        JsonTree::Object(obj) => match (
            contents_of_field(obj, "content"@),
            opt_map_field(obj, "metadata"@),
        ) {
            (Some(content), Some(metadata)) => Some(ResponseModel { content, metadata }),
            _ => None,
        },
        _ => None,
    }
}

/// The part of a resource that a document means, if it means one.
pub open spec fn part_of_tree(t: JsonTree) -> Option<ResourceContentModel> {
    match t {
        JsonTree::Object(obj) => match (
            text_field(obj, "uri"@),
            text_field(obj, "text"@),
            opt_text_field(obj, "mime_type"@),
        ) {
            (Some(uri), Some(text), Some(mime_type)) => Some(
                ResourceContentModel { uri, text, mime_type },
            ),
            _ => None,
        },
        _ => None,
    }
}

/// Every item of an array read as a part of a resource, where each of them is one.
pub open spec fn parts_of(items: Seq<JsonTree>) -> Option<Seq<ResourceContentModel>> {
    if forall|i: int| 0 <= i < items.len() ==> (#[trigger] part_of_tree(items[i])) is Some {
        Some(Seq::new(items.len(), |i: int| part_of_tree(items[i])->Some_0))
    } else {
        None
    }
}

/// A member that must be there and be an array of such items.
pub open spec fn parts_of_field(obj: MapModel, key: Seq<char>) -> Option<Seq<ResourceContentModel>> {
    match find_member(obj, key) {
        Some(JsonTree::Array(items)) => parts_of(items),
        _ => None,
    }
}

/// The resource that a document means, if it means one.
pub open spec fn resource_of_tree(t: JsonTree) -> Option<ResourceModel> {
    match t {
        JsonTree::Object(obj) => match (
            parts_of_field(obj, "contents"@),
            opt_map_field(obj, "metadata"@),
        ) {
            (Some(contents), Some(metadata)) => Some(ResourceModel { contents, metadata }),
            _ => None,
        },
        _ => None,
    }
}

/// The tool's description that a document means, if it means one.
pub open spec fn tool_of_tree(t: JsonTree) -> Option<ToolModel> {
    match t {
        JsonTree::Object(obj) => match (
            text_field(obj, "name"@),
            text_field(obj, "description"@),
            find_member(obj, "parameters_schema"@),
        ) {
            (Some(name), Some(description), Some(parameters_schema)) => Some(
                ToolModel { name, description, parameters_schema },
            ),
            _ => None,
        },
        _ => None,
    }
}

/// Every item of an array read as a tool's description, where each of them is one.
pub open spec fn tools_of(items: Seq<JsonTree>) -> Option<Seq<ToolModel>> {
    if forall|i: int| 0 <= i < items.len() ==> (#[trigger] tool_of_tree(items[i])) is Some {
        Some(Seq::new(items.len(), |i: int| tool_of_tree(items[i])->Some_0))
    } else {
        None
    }
}

/// The list of tools: empty where the member is missing, else an array.
pub open spec fn tools_field(obj: MapModel) -> Option<Seq<ToolModel>> {
    match find_member(obj, "tools"@) {
        None => Some(Seq::empty()),
        Some(JsonTree::Array(items)) => tools_of(items),
        _ => None,
    }
}

/// The server's description that a document means, if it means one.
pub open spec fn server_info_of_tree(t: JsonTree) -> Option<ServerInfoModel> {
    match t {
        JsonTree::Object(obj) => match (
            text_field(obj, "name"@),
            text_field(obj, "version"@),
            tools_field(obj),
        ) {
            (Some(name), Some(version), Some(tools)) => Some(
                ServerInfoModel { name, version, tools },
            ),
            _ => None,
        },
        _ => None,
    }
}

/// The parameters of a tool call: empty where the member is missing, else an
/// object.
pub open spec fn parameters_field(obj: MapModel) -> Option<MapModel> {
    match find_member(obj, "parameters"@) {
        None => Some(Seq::empty()),
        Some(JsonTree::Object(m)) => Some(m),
        _ => None,
    }
}

/// The server's description in a handshake: none where the member is missing
/// or null.
pub open spec fn info_field(obj: MapModel) -> Option<Option<ServerInfoModel>> {
    match find_member(obj, "server_info"@) {
        None => Some(None),
        Some(JsonTree::Null) => Some(None),
        Some(t) => match server_info_of_tree(t) {
            Some(info) => Some(Some(info)),
            None => None,
        },
    }
}

/// Whether a text is one of the six discriminants.
pub open spec fn known_tag(tag: Seq<char>) -> bool {
    tag == "tool_call"@ || tag == "tool_response"@ || tag == "resource_request"@ || tag
        == "resource_response"@ || tag == "error"@ || tag == "handshake"@
}

/// The message with the given discriminant and fields, if the fields are
/// those of that variant.
pub open spec fn variant_of(tag: Seq<char>, data: MapModel) -> Option<MessageModel> {
    if tag == "tool_call"@ {
        match (text_field(data, "call_id"@), text_field(data, "name"@), parameters_field(data)) {
            (Some(call_id), Some(name), Some(parameters)) => Some(
                MessageModel::ToolCall { call_id, name, parameters },
            ),
            _ => None,
        }
    } else if tag == "tool_response"@ {
        match (text_field(data, "call_id"@), find_member(data, "response"@)) {
            (Some(call_id), Some(t)) => match response_of_tree(t) {
                Some(response) => Some(MessageModel::ToolResponse { call_id, response }),
                None => None,
            },
            _ => None,
        }
    } else if tag == "resource_request"@ {
        match (text_field(data, "request_id"@), text_field(data, "uri"@)) {
            (Some(request_id), Some(uri)) => Some(MessageModel::ResourceRequest { request_id, uri }),
            _ => None,
        }
    } else if tag == "resource_response"@ {
        match (text_field(data, "request_id"@), find_member(data, "resource"@)) {
            (Some(request_id), Some(t)) => match resource_of_tree(t) {
                Some(resource) => Some(MessageModel::ResourceResponse { request_id, resource }),
                None => None,
            },
            _ => None,
        }
    } else if tag == "error"@ {
        match (
            text_field(data, "code"@),
            text_field(data, "message"@),
            opt_text_field(data, "reference_id"@),
        ) {
            (Some(code), Some(message), Some(reference_id)) => Some(
                MessageModel::Error { code, message, reference_id },
            ),
            _ => None,
        }
    } else if tag == "handshake"@ {
        match (text_field(data, "version"@), info_field(data)) {
            (Some(version), Some(server_info)) => Some(
                MessageModel::Handshake { version, server_info },
            ),
            _ => None,
        }
    } else {
        None
    }
}

/// What a document means: the message, or why it is none.
pub open spec fn message_of_tree(t: JsonTree) -> Result<MessageModel, DecodeError> {
    match t {
        JsonTree::Object(obj) => match find_member(obj, "type"@) {
            Some(JsonTree::Text(tag)) => if !known_tag(tag) {
                Err(DecodeError::UnknownType)
            } else {
                match find_member(obj, "data"@) {
                    Some(JsonTree::Object(data)) => match variant_of(tag, data) {
                        Some(m) => Ok(m),
                        None => Err(DecodeError::Malformed),
                    },
                    _ => Err(DecodeError::Malformed),
                }
            },
            _ => Err(DecodeError::Malformed),
        },
        _ => Err(DecodeError::Malformed),
    }
}

/// What a text means as a message: nothing where it is not a JSON document,
/// else what that document means.
pub open spec fn message_of_text(text: Seq<char>) -> Option<Result<MessageModel, DecodeError>> {
    match json_text_value(text) {
        Some(t) => Some(message_of_tree(t)),
        None => None,
    }
}

/// Reads a message from its JSON text. A text that is not JSON gives
/// `Syntax`; a document gives what [`decode_message`] reads from it.
pub fn parse_mcp_message(json: &str) -> (r: Result<McpMessage, DecodeError>)
    ensures
        match r {
            Ok(m) => message_of_text(json@) == Some(Ok::<MessageModel, DecodeError>(m@)),
            Err(DecodeError::Syntax(_)) => message_of_text(json@) is None,
            Err(e) => message_of_text(json@) == Some(Err::<MessageModel, DecodeError>(e)),
        },
{
    match parse_json(json) {
        Ok(tree) => decode_message(&tree),
        Err(reason) => Err(DecodeError::Syntax(reason)),
    }
}

/// Writes a message as JSON text: what the writer gives for the document
/// that [`encode_message`] builds, which is the document's text, or the
/// writer's message where it fails.
pub fn serialize_mcp_message(message: &McpMessage) -> (r: Result<String, String>)
    ensures
        match r {
            Ok(text) => json_value_text(message_tree(message@)) == Some(text@),
            Err(_) => json_value_text(message_tree(message@)) is None,
        },
{
    let tree = encode_message(message);
    render_json(&tree)
}

/// A content block of type `text` that holds the given text and no other
/// attribute.
pub fn text_content(text: &str) -> (r: McpContent)
    ensures
        r@ == (ContentModel {
            content_type: "text"@,
            text: Some(text@),
            attributes: Seq::empty(),
        }),
{
    let attributes: JsonMap = Vec::new();
    proof {
        assert(members_view(attributes@) =~= Seq::<(Seq<char>, JsonTree)>::empty());
    }
    McpContent { content_type: "text".to_owned(), text: Some(text.to_owned()), attributes }
}

} // verus!
