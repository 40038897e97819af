//! The client: its errors and events, and the state machine that the host
//! drives. The client decides; the host moves the bytes. Every operation
//! takes what arrived and returns what is to be sent, whom to wake and what
//! to tell the event sink.

use crate::json::{
    clone_members, json_value_text, members_view, put, render_json, JsonTree, JsonValue,
};
use crate::pending::PendingTable;
use crate::protocol::{
    message_of_text, message_tree, opt_info_view, parse_mcp_message,
    serialize_mcp_message, DecodeError, JsonMap, McpMessage, McpResource, McpResponse,
    McpServerInfo, MessageModel, ServerInfoModel,
};
use vstd::prelude::*;
use vstd::string::StringExecFns;

verus! {

/// What can go wrong in an operation of the client.
#[derive(Debug, Clone, PartialEq, Eq)]
pub enum McpError {
    ConnectionError(String),
    CommunicationError(String),
    ProtocolError(String),
    ServerError { code: String, message: String },
    Timeout,
    Disconnected,
    InternalError(String),
}

/// The text `head` followed by `tail`.
pub fn join(head: &str, tail: &str) -> (r: String)
    ensures
        r@ == head@ + tail@,
{
    let mut out = head.to_owned();
    out.append(tail);
    out
}

impl McpError {
    /// The error in words.
    pub open spec fn description(self) -> Seq<char> {
        match self {
            McpError::ConnectionError(m) => "连接错误: "@ + m@,
            McpError::CommunicationError(m) => "通信错误: "@ + m@,
            McpError::ProtocolError(m) => "协议错误: "@ + m@,
            McpError::ServerError { code, message } => "服务器错误 ["@ + code@ + "]: "@
                + message@,
            McpError::Timeout => "操作超时"@,
            McpError::Disconnected => "连接已断开"@,
            McpError::InternalError(m) => "内部错误: "@ + m@,
        }
    }

    /// The error in words, for the host to show.
    pub fn describe(&self) -> (r: String)
        ensures
            r@ == self.description(),
    {
        match self {
            McpError::ConnectionError(m) => join("连接错误: ", m.as_str()),
            McpError::CommunicationError(m) => join("通信错误: ", m.as_str()),
            McpError::ProtocolError(m) => join("协议错误: ", m.as_str()),
            McpError::ServerError { code, message } => {
                let mut out = join("服务器错误 [", code.as_str());
                out.append("]: ");
                out.append(message.as_str());
                out
            },
            McpError::Timeout => "操作超时".to_owned(),
            McpError::Disconnected => "连接已断开".to_owned(),
            McpError::InternalError(m) => join("内部错误: ", m.as_str()),
        }
    }
}

/// The event sink that the host registered, by its name. The host keeps the
/// function that goes with the name.
#[derive(Debug, Clone, PartialEq, Eq)]
pub struct RNCallback {
    pub callback_id: String,
}

/// What the client tells the host's event sink.
#[derive(Debug, Clone, PartialEq, Eq)]
pub enum McpEvent {
    ToolCall { call_id: String, name: String, parameters: JsonMap },
    ResourceRequest { request_id: String, uri: String },
    ConnectionState { connected: bool, server_name: Option<String> },
    Error { code: String, message: String },
}

/// The document that an event is written as: an object with one member,
/// named after the kind of event, that holds the event's fields.
pub open spec fn event_tree(event: McpEvent) -> JsonTree {
    match event {
        McpEvent::ToolCall { call_id, name, parameters } => tagged(
            "ToolCall"@,
            Seq::empty().push(("call_id"@, JsonTree::Text(call_id@))).push(
                ("name"@, JsonTree::Text(name@)),
            ).push(("parameters"@, JsonTree::Object(members_view(parameters@)))),
        ),
        McpEvent::ResourceRequest { request_id, uri } => tagged(
            "ResourceRequest"@,
            Seq::empty().push(("request_id"@, JsonTree::Text(request_id@))).push(
                ("uri"@, JsonTree::Text(uri@)),
            ),
        ),
        McpEvent::ConnectionState { connected, server_name } => tagged(
            "ConnectionState"@,
            Seq::empty().push(("connected"@, JsonTree::Bool(connected))).push(
                (
                    "server_name"@,
                    match server_name {
                        Some(n) => JsonTree::Text(n@),
                        None => JsonTree::Null,
                    },
                ),
            ),
        ),
        McpEvent::Error { code, message } => tagged(
            "Error"@,
            Seq::empty().push(("code"@, JsonTree::Text(code@))).push(
                ("message"@, JsonTree::Text(message@)),
            ),
        ),
    }
}

/// The object with the one member `kind`, which holds `fields`.
pub open spec fn tagged(kind: Seq<char>, fields: Seq<(Seq<char>, JsonTree)>) -> JsonTree {
    JsonTree::Object(Seq::empty().push((kind, JsonTree::Object(fields))))
}

fn tag(kind: &str, fields: JsonMap) -> (r: JsonValue)
    ensures
        r@ == tagged(kind@, members_view(fields@)),
{
    let mut obj: JsonMap = Vec::new();
    proof {
        assert(members_view(obj@) =~= Seq::<(Seq<char>, JsonTree)>::empty());
    }
    put(&mut obj, kind, JsonValue::Object(fields));
    JsonValue::Object(obj)
}

/// An event as a document.
pub fn encode_event(event: &McpEvent) -> (r: JsonValue)
    ensures
        r@ == event_tree(*event),
{
    let mut fields: JsonMap = Vec::new();
    proof {
        assert(members_view(fields@) =~= Seq::<(Seq<char>, JsonTree)>::empty());
    }
    match event {
        McpEvent::ToolCall { call_id, name, parameters } => {
            put(&mut fields, "call_id", JsonValue::Text(call_id.clone()));
            put(&mut fields, "name", JsonValue::Text(name.clone()));
            put(&mut fields, "parameters", JsonValue::Object(clone_members(parameters)));
            tag("ToolCall", fields)
        },
        McpEvent::ResourceRequest { request_id, uri } => {
            put(&mut fields, "request_id", JsonValue::Text(request_id.clone()));
            put(&mut fields, "uri", JsonValue::Text(uri.clone()));
            tag("ResourceRequest", fields)
        },
        McpEvent::ConnectionState { connected, server_name } => {
            put(&mut fields, "connected", JsonValue::Bool(*connected));
            let name = match server_name {
                Some(n) => JsonValue::Text(n.clone()),
                None => JsonValue::Null,
            };
            put(&mut fields, "server_name", name);
            tag("ConnectionState", fields)
        },
        McpEvent::Error { code, message } => {
            put(&mut fields, "code", JsonValue::Text(code.clone()));
            put(&mut fields, "message", JsonValue::Text(message.clone()));
            tag("Error", fields)
        },
    }
}

/// The waiter of a request and what it is to be woken with.
#[derive(Debug, PartialEq, Eq)]
pub struct Resolution {
    pub id: String,
    pub result: Result<McpMessage, McpError>,
}

/// What the host is to do with an inbound message.
#[derive(Debug, PartialEq, Eq)]
pub enum Dispatch {
    /// Wake the waiter of a pending request.
    Resolve(Resolution),
    /// The handshake was answered; `payload` goes to the event sink.
    Connected { event: McpEvent, payload: Option<String> },
    /// An error that belongs to no request; `payload` goes to the event sink.
    Unsolicited { event: McpEvent, payload: Option<String> },
    /// Nothing.
    Ignored,
}

/// A request that was registered: its identifier, the event for the sink,
/// and the text to send, or why nothing is sent.
#[derive(Debug, PartialEq, Eq)]
pub struct RequestStart {
    pub id: String,
    pub event: McpEvent,
    pub payload: Option<String>,
    pub frame: Result<String, McpError>,
}

/// What a disconnect leaves to do: the waiters to wake, each with
/// `Disconnected`, and the event for the sink.
#[derive(Debug, PartialEq, Eq)]
pub struct Teardown {
    pub released: Vec<Resolution>,
    pub event: McpEvent,
    pub payload: Option<String>,
}

/// Calls `uuid::Uuid::new_v4` and writes the identifier in its hyphenated
/// form, which is 36 characters long. The value is random: nothing else is
/// claimed of it. The call panics where the system gives no random bytes.
#[verifier::external_body]
fn fresh_request_id() -> (r: String)
    ensures
        r@.len() == 36,
{
    uuid::Uuid::new_v4().to_string()
}

/// The client. It is connected once the server's handshake has arrived; it
/// keeps the server's description, the table of pending requests, whether
/// the outbound channel is open, and the event sink.
#[derive(Debug)]
pub struct McpClient {
    connected: bool,
    server_info: Option<McpServerInfo>,
    pending: PendingTable,
    channel_open: bool,
    rn_callback: Option<RNCallback>,
}

impl McpClient {
    /// The client's invariant: its table of pending requests is well formed.
    pub closed spec fn wf(&self) -> bool {
        self.pending.wf()
    }

    /// Whether the server's handshake has arrived.
    pub closed spec fn connected(&self) -> bool {
        self.connected
    }

    /// The server's description, once it has arrived.
    pub closed spec fn info(&self) -> Option<ServerInfoModel> {
        opt_info_view(self.server_info)
    }

    /// The identifiers of the requests that wait for a response.
    pub closed spec fn pending(&self) -> Set<Seq<char>> {
        self.pending@
    }

    /// Whether the outbound channel is open.
    pub closed spec fn channel_open(&self) -> bool {
        self.channel_open
    }

    /// The name of the registered event sink.
    pub closed spec fn sink(&self) -> Option<Seq<char>> {
        match self.rn_callback {
            Some(c) => Some(c.callback_id@),
            None => None,
        }
    }

    /// Whether `payload` is what the sink gets for `event`: the event's text
    /// where there is a sink and the event can be written, else nothing.
    pub open spec fn emitted(&self, event: McpEvent, payload: Option<String>) -> bool {
        match (self.sink(), json_value_text(event_tree(event))) {
            (Some(_), Some(text)) => payload matches Some(p) && p@ == text,
            _ => payload is None,
        }
    }

    /// Whether `frame` is what goes out for a message: `Disconnected` for
    /// anything but a handshake while not connected, and for any message
    /// while the channel is closed; else the message's text, or a protocol
    /// error where the text could not be written.
    pub open spec fn framed(&self, m: MessageModel, frame: Result<String, McpError>) -> bool {
        if !(self.connected() || m is Handshake) {
            frame == Err::<String, McpError>(McpError::Disconnected)
        } else {
            match json_value_text(message_tree(m)) {
                None => frame matches Err(McpError::ProtocolError(_)),
                Some(text) => if self.channel_open() {
                    frame matches Ok(t) && t@ == text
                } else {
                    frame == Err::<String, McpError>(McpError::Disconnected)
                },
            }
        }
    }

    /// Whether two clients differ in nothing but their pending requests.
    pub open spec fn same_but_pending(&self, other: McpClient) -> bool {
        &&& self.connected() == other.connected()
        &&& self.info() == other.info()
        &&& self.channel_open() == other.channel_open()
        &&& self.sink() == other.sink()
    }

    /// A client that is not connected, with no pending request and no sink.
    pub fn new() -> (r: McpClient)
        ensures
            r.wf(),
            !r.connected(),
            r.info() is None,
            r.pending() == Set::<Seq<char>>::empty(),
            !r.channel_open(),
            r.sink() is None,
    {
        McpClient {
            connected: false,
            server_info: None,
            pending: PendingTable::new(),
            channel_open: false,
            rn_callback: None,
        }
    }

    /// Registers the event sink. It stays until another one is registered.
    pub fn set_rn_callback(&mut self, callback: RNCallback)
        ensures
            final(self).sink() == Some(callback.callback_id@),
            final(self).connected() == old(self).connected(),
            final(self).info() == old(self).info(),
            final(self).channel_open() == old(self).channel_open(),
            final(self).pending() == old(self).pending(),
            old(self).wf() ==> final(self).wf(),
    {
        self.rn_callback = Some(callback);
    }

    /// Whether the server's handshake has arrived.
    pub fn is_connected(&self) -> (r: bool)
        ensures
            r == self.connected(),
    {
        self.connected
    }

    /// Whether a handshake was sent and the server's has not arrived yet.
    pub fn is_connecting(&self) -> (r: bool)
        ensures
            r == (self.channel_open() && !self.connected()),
    {
        self.channel_open && !self.connected
    }

    /// The server's description, once connected.
    pub fn get_server_info(&self) -> (r: Option<&McpServerInfo>)
        ensures
            match r {
                Some(info) => self.info() == Some(info@),
                None => self.info() is None,
            },
    {
        self.server_info.as_ref()
    }

    /// Whether a request with this identifier waits for its response.
    pub fn is_pending(&self, id: &str) -> (r: bool)
        ensures
            r == self.pending().contains(id@),
    {
        self.pending.contains(id)
    }

    /// Whether no request waits for a response.
    pub fn nothing_pending(&self) -> (r: bool)
        ensures
            r == (self.pending() == Set::<Seq<char>>::empty()),
    {
        self.pending.is_empty()
    }

    /// What the sink gets, given the outcome of writing an event as text:
    /// the text where there is a sink and a text, else nothing.
    pub fn event_payload(&self, rendered: Result<String, String>) -> (r: Option<String>)
        ensures
            r == match (self.sink(), rendered) {
                (Some(_), Ok(text)) => Some(text),
                _ => None,
            },
    {
        match (&self.rn_callback, rendered) {
            (Some(_), Ok(text)) => Some(text),
            _ => None,
        }
    }

    /// The text that the sink is to get for an event: the event's text where
    /// there is a sink and the event can be written, and nothing otherwise.
    pub fn send_event_to_rn(&self, event: &McpEvent) -> (r: Option<String>)
        ensures
            self.emitted(*event, r),
    {
        let rendered = render_json(&encode_event(event));
        self.event_payload(rendered)
    }

    /// What goes out for a message, given the outcome of writing it as text.
    pub fn outbound_frame(&self, message: &McpMessage, rendered: Result<String, String>) -> (r:
        Result<String, McpError>)
        ensures
            !(self.connected() || message@ is Handshake) ==> r == Err::<String, McpError>(
                McpError::Disconnected,
            ),
            (self.connected() || message@ is Handshake) ==> match rendered {
                Err(reason) => r matches Err(McpError::ProtocolError(text)) && text@
                    == "序列化消息失败: "@ + reason@,
                Ok(text) => if self.channel_open() {
                    r == Ok::<String, McpError>(text)
                } else {
                    r == Err::<String, McpError>(McpError::Disconnected)
                },
            },
    {
        let handshake = match message {
            McpMessage::Handshake { .. } => true,
            _ => false,
        };
        if !self.connected && !handshake {
            return Err(McpError::Disconnected);
        }
        match rendered {
            Err(reason) => Err(
                McpError::ProtocolError(join("序列化消息失败: ", reason.as_str())),
            ),
            Ok(text) => if self.channel_open {
                Ok(text)
            } else {
                Err(McpError::Disconnected)
            },
        }
    }

    /// The text to send for a message, or why it cannot be sent.
    pub fn send_message(&self, message: &McpMessage) -> (r: Result<String, McpError>)
        ensures
            self.framed(message@, r),
    {
        let rendered = serialize_mcp_message(message);
        self.outbound_frame(message, rendered)
    }

    /// Opens the channel and returns the handshake to send. The client stays
    /// unconnected until the server's handshake arrives.
    pub fn connect(&mut self, server_url: &str) -> (r: Result<String, McpError>)
        ensures
            final(self).channel_open(),
            final(self).connected() == old(self).connected(),
            final(self).info() == old(self).info(),
            final(self).pending() == old(self).pending(),
            final(self).sink() == old(self).sink(),
            old(self).wf() ==> final(self).wf(),
            final(self).framed(
                MessageModel::Handshake { version: "1.0"@, server_info: None },
                r,
            ),
            !(r is Err && r->Err_0 is Disconnected),
    {
        self.channel_open = true;
        let handshake = McpMessage::Handshake { version: "1.0".to_owned(), server_info: None };
        self.send_message(&handshake)
    }

    /// Whether `r` is what an inbound message leads to, from the client
    /// `pre` to the client `post`.
    pub open spec fn dispatched(pre: McpClient, message: MessageModel, post: McpClient, r: Dispatch) -> bool {
        match message {
            MessageModel::ToolResponse { call_id, .. } => Self::answered(
                pre,
                call_id,
                message,
                post,
                r,
            ),
            MessageModel::ResourceResponse { request_id, .. } => Self::answered(
                pre,
                request_id,
                message,
                post,
                r,
            ),
            MessageModel::Error { reference_id: Some(id), code, message: text } => {
                &&& post.same_but_pending(pre)
                &&& post.pending() == pre.pending().remove(id)
                &&& if pre.pending().contains(id) {
                    r matches Dispatch::Resolve(res) && res.id@ == id && (res.result matches Err(
                        McpError::ServerError { code: c, message: t },
                    ) && c@ == code && t@ == text)
                } else {
                    r is Ignored
                }
            },
            MessageModel::Error { reference_id: None, code, message: text } => {
                &&& post == pre
                &&& r matches Dispatch::Unsolicited { event, payload } && pre.emitted(event, payload)
                    && (event matches McpEvent::Error { code: c, message: t } && c@ == code && t@
                    == text)
            },
            MessageModel::Handshake { server_info: Some(info), .. } => {
                &&& post.connected()
                &&& post.info() == Some(info)
                &&& post.pending() == pre.pending()
                &&& post.channel_open() == pre.channel_open()
                &&& post.sink() == pre.sink()
                &&& r matches Dispatch::Connected { event, payload } && pre.emitted(event, payload)
                    && (event matches McpEvent::ConnectionState {
                    connected: true,
                    server_name: Some(n),
                } && n@ == info.name)
            },
            _ => post == pre && r is Ignored,
        }
    }

    /// A response to the request `id`: its slot is given up, and where there
    /// was one its waiter gets the message.
    pub open spec fn answered(
        pre: McpClient,
        id: Seq<char>,
        message: MessageModel,
        post: McpClient,
        r: Dispatch,
    ) -> bool {
        &&& post.same_but_pending(pre)
        &&& post.pending() == pre.pending().remove(id)
        &&& if pre.pending().contains(id) {
            r matches Dispatch::Resolve(res) && res.id@ == id && (res.result matches Ok(m) && m@
                == message)
        } else {
            r is Ignored
        }
    }

    /// Routes an inbound message: a response or a targeted error gives up
    /// the slot of its request and wakes the waiter; an error without a
    /// reference becomes an event; a handshake that carries the server's
    /// description connects the client; everything else is ignored.
    pub fn handle_incoming_message(&mut self, message: McpMessage) -> (r: Dispatch)
        requires
            old(self).wf(),
        ensures
            final(self).wf(),
            Self::dispatched(*old(self), message@, *final(self), r),
    {
        match message {
            McpMessage::ToolResponse { call_id, response } => {
                let id = call_id.clone();
                if self.pending.fulfill(id.as_str()) {
                    Dispatch::Resolve(
                        Resolution { id, result: Ok(McpMessage::ToolResponse { call_id, response }) },
                    )
                } else {
                    Dispatch::Ignored
                }
            },
            McpMessage::ResourceResponse { request_id, resource } => {
                let id = request_id.clone();
                if self.pending.fulfill(id.as_str()) {
                    Dispatch::Resolve(
                        Resolution {
                            id,
                            result: Ok(McpMessage::ResourceResponse { request_id, resource }),
                        },
                    )
                } else {
                    Dispatch::Ignored
                }
            },
            McpMessage::Error { reference_id: Some(id), code, message } => {
                if self.pending.fulfill(id.as_str()) {
                    Dispatch::Resolve(
                        Resolution { id, result: Err(McpError::ServerError { code, message }) },
                    )
                } else {
                    Dispatch::Ignored
                }
            },
            McpMessage::Error { reference_id: None, code, message } => {
                let event = McpEvent::Error { code, message };
                let payload = self.send_event_to_rn(&event);
                Dispatch::Unsolicited { event, payload }
            },
            McpMessage::Handshake { server_info: Some(info), version: _ } => {
                let event = McpEvent::ConnectionState {
                    connected: true,
                    server_name: Some(info.name.clone()),
                };
                let payload = self.send_event_to_rn(&event);
                self.connected = true;
                self.server_info = Some(info);
                Dispatch::Connected { event, payload }
            },
            _ => Dispatch::Ignored,
        }
    }

    /// Reads an inbound text and routes the message that it holds. A text
    /// that holds no message is a protocol error and changes nothing.
    pub fn handle_input_from_rn(&mut self, message: &str) -> (r: Result<Dispatch, McpError>)
        requires
            old(self).wf(),
        ensures
            final(self).wf(),
            match r {
                Ok(d) => message_of_text(message@) matches Some(Ok(m)) && Self::dispatched(
                    *old(self),
                    m,
                    *final(self),
                    d,
                ),
                Err(e) => e is ProtocolError && !(message_of_text(message@) matches Some(Ok(_)))
                    && *final(self) == *old(self),
            },
    {
        match parse_mcp_message(message) {
            Ok(m) => Ok(self.handle_incoming_message(m)),
            Err(e) => {
                let detail = match e {
                    DecodeError::Syntax(reason) => reason,
                    DecodeError::UnknownType => "unknown message type".to_owned(),
                    DecodeError::Malformed => "a field is missing or of the wrong kind".to_owned(),
                };
                Err(McpError::ProtocolError(join("解析消息失败: ", detail.as_str())))
            },
        }
    }

    /// Whether `d` is what one inbound text leads to: what its message
    /// leads to, and nothing where it holds no message.
    pub open spec fn stepped(pre: McpClient, text: Seq<char>, post: McpClient, d: Dispatch) -> bool {
        match message_of_text(text) {
            Some(Ok(m)) => Self::dispatched(pre, m, post, d),
            _ => post == pre && d is Ignored,
        }
    }

    /// Whether `ds` is what a run of inbound texts leads to when the client
    /// goes through `states`, one text after the other.
    pub open spec fn ran_through(states: Seq<McpClient>, texts: Seq<String>, ds: Seq<Dispatch>) -> bool {
        &&& states.len() == texts.len() + 1
        &&& ds.len() == texts.len()
        &&& forall|i: int|
            0 <= i < texts.len() ==> (#[trigger] states[i]).wf() && Self::stepped(
                states[i],
                texts[i]@,
                states[i + 1],
                ds[i],
            )
    }

    /// Whether `ds` is what a run of inbound texts leads to, one after the
    /// other, from the client `pre` to the client `post`.
    pub open spec fn ran(pre: McpClient, texts: Seq<String>, post: McpClient, ds: Seq<Dispatch>) -> bool {
        exists|states: Seq<McpClient>|
            #[trigger] Self::ran_through(states, texts, ds) && states[0] == pre && states.last()
                == post
    }

    /// Routes a run of inbound texts in order. A text that holds no message
    /// is passed over: it changes nothing and does not stop the run.
    pub fn dispatch_all(&mut self, texts: &Vec<String>) -> (r: Vec<Dispatch>)
        requires
            old(self).wf(),
        ensures
            final(self).wf(),
            Self::ran(*old(self), texts@, *final(self), r@),
    {
        let mut out: Vec<Dispatch> = Vec::new();
        let ghost mut states: Seq<McpClient> = seq![*self];
        let mut i: usize = 0;
        while i < texts.len()
            invariant
                i <= texts@.len(),
                out@.len() == i,
                states.len() == i + 1,
                states[0] == *old(self),
                states.last() == *self,
                self.wf(),
                forall|k: int|
                    0 <= k < i ==> (#[trigger] states[k]).wf() && Self::stepped(
                        states[k],
                        texts@[k]@,
                        states[k + 1],
                        out@[k],
                    ),
            decreases texts@.len() - i,
        {
            let d = match self.handle_input_from_rn(texts[i].as_str()) {
                Ok(d) => d,
                Err(_) => Dispatch::Ignored,
            };
            out.push(d);
            proof {
                states = states.push(*self);
            }
            i += 1;
        }
        proof {
            assert(Self::ran_through(states, texts@, out@));
        }
        out
    }

    /// Starts a tool call under the given identifier. While not connected
    /// this fails with `Disconnected` and changes nothing. Otherwise the
    /// request is registered, and the result holds the event for the sink
    /// and the text to send.
    pub fn call_tool_with_id(&mut self, call_id: String, name: &str, parameters: JsonMap) -> (r:
        Result<RequestStart, McpError>)
        requires
            old(self).wf(),
        ensures
            final(self).wf(),
            !old(self).connected() ==> r == Err::<RequestStart, McpError>(McpError::Disconnected)
                && *final(self) == *old(self),
            old(self).connected() ==> final(self).same_but_pending(*old(self)) && final(self).pending() == old(self).pending().insert(call_id@) && (r matches Ok(start) && start.id@
                == call_id@ && (start.event matches McpEvent::ToolCall {
                call_id: c,
                name: n,
                parameters: p,
            } && c@ == call_id@ && n@ == name@ && members_view(p@) == members_view(parameters@))
                && final(self).emitted(start.event, start.payload) && final(self).framed(
                MessageModel::ToolCall {
                    call_id: call_id@,
                    name: name@,
                    parameters: members_view(parameters@),
                },
                start.frame,
            )),
    {
        if !self.connected {
            return Err(McpError::Disconnected);
        }
        self.pending.register(call_id.clone());
        let event = McpEvent::ToolCall {
            call_id: call_id.clone(),
            name: name.to_owned(),
            parameters: clone_members(&parameters),
        };
        let payload = self.send_event_to_rn(&event);
        let message = McpMessage::ToolCall {
            call_id: call_id.clone(),
            name: name.to_owned(),
            parameters,
        };
        let frame = self.send_message(&message);
        Ok(RequestStart { id: call_id, event, payload, frame })
    }

    /// Starts a tool call under a fresh random identifier.
    pub fn call_tool(&mut self, name: &str, parameters: JsonMap) -> (r: Result<
        RequestStart,
        McpError,
    >)
        requires
            old(self).wf(),
        ensures
            final(self).wf(),
            !old(self).connected() ==> r == Err::<RequestStart, McpError>(McpError::Disconnected)
                && *final(self) == *old(self),
            old(self).connected() ==> final(self).same_but_pending(*old(self)) && (r matches Ok(
                start,
            ) && final(self).pending() == old(self).pending().insert(start.id@) && (
            start.event matches McpEvent::ToolCall { call_id: c, name: n, parameters: p } && c@
                == start.id@ && n@ == name@ && members_view(p@) == members_view(parameters@))
                && final(self).emitted(start.event, start.payload) && final(self).framed(
                MessageModel::ToolCall {
                    call_id: start.id@,
                    name: name@,
                    parameters: members_view(parameters@),
                },
                start.frame,
            )),
    {
        if !self.connected {
            return Err(McpError::Disconnected);
        }
        let call_id = fresh_request_id();
        self.call_tool_with_id(call_id, name, parameters)
    }

    /// Starts a resource request under the given identifier; as
    /// [`McpClient::call_tool_with_id`].
    pub fn request_resource_with_id(&mut self, request_id: String, uri: &str) -> (r: Result<
        RequestStart,
        McpError,
    >)
        requires
            old(self).wf(),
        ensures
            final(self).wf(),
            !old(self).connected() ==> r == Err::<RequestStart, McpError>(McpError::Disconnected)
                && *final(self) == *old(self),
            old(self).connected() ==> final(self).same_but_pending(*old(self)) && final(self).pending() == old(self).pending().insert(request_id@) && (r matches Ok(start)
                && start.id@ == request_id@ && (start.event matches McpEvent::ResourceRequest {
                request_id: c,
                uri: u,
            } && c@ == request_id@ && u@ == uri@) && final(self).emitted(
                start.event,
                start.payload,
            ) && final(self).framed(
                MessageModel::ResourceRequest { request_id: request_id@, uri: uri@ },
                start.frame,
            )),
    {
        if !self.connected {
            return Err(McpError::Disconnected);
        }
        self.pending.register(request_id.clone());
        let event = McpEvent::ResourceRequest {
            request_id: request_id.clone(),
            uri: uri.to_owned(),
        };
        let payload = self.send_event_to_rn(&event);
        let message = McpMessage::ResourceRequest {
            request_id: request_id.clone(),
            uri: uri.to_owned(),
        };
        let frame = self.send_message(&message);
        Ok(RequestStart { id: request_id, event, payload, frame })
    }

    /// Starts a resource request under a fresh random identifier.
    pub fn request_resource(&mut self, uri: &str) -> (r: Result<RequestStart, McpError>)
        requires
            old(self).wf(),
        ensures
            final(self).wf(),
            !old(self).connected() ==> r == Err::<RequestStart, McpError>(McpError::Disconnected)
                && *final(self) == *old(self),
            old(self).connected() ==> final(self).same_but_pending(*old(self)) && (r matches Ok(
                start,
            ) && final(self).pending() == old(self).pending().insert(start.id@) && (
            start.event matches McpEvent::ResourceRequest { request_id: c, uri: u } && c@
                == start.id@ && u@ == uri@) && final(self).emitted(start.event, start.payload)
                && final(self).framed(
                MessageModel::ResourceRequest { request_id: start.id@, uri: uri@ },
                start.frame,
            )),
    {
        if !self.connected {
            return Err(McpError::Disconnected);
        }
        let request_id = fresh_request_id();
        self.request_resource_with_id(request_id, uri)
    }

    /// Disconnects. The server's description is forgotten, the channel is
    /// closed and every pending request is released: each waiter is to be
    /// woken with `Disconnected`. The sink stays, and is told. On a client
    /// that is not connected this does the same, and releases nothing where
    /// nothing is pending.
    pub fn disconnect(&mut self) -> (r: Teardown)
        requires
            old(self).wf(),
        ensures
            final(self).wf(),
            !final(self).connected(),
            final(self).info() is None,
            !final(self).channel_open(),
            final(self).pending() == Set::<Seq<char>>::empty(),
            final(self).sink() == old(self).sink(),
            forall|i: int|
                0 <= i < r.released@.len() ==> old(self).pending().contains(
                    (#[trigger] r.released@[i]).id@,
                ) && r.released@[i].result == Err::<McpMessage, McpError>(McpError::Disconnected),
            forall|x: Seq<char>|
                old(self).pending().contains(x) ==> exists|i: int|
                    0 <= i < r.released@.len() && (#[trigger] r.released@[i]).id@ == x,
            r.event == (McpEvent::ConnectionState { connected: false, server_name: None }),
            final(self).emitted(r.event, r.payload),
    {
        self.connected = false;
        self.server_info = None;
        self.channel_open = false;
        let mut ids = self.pending.clear_all();
        let ghost all = ids@;
        let mut released: Vec<Resolution> = Vec::new();
        while ids.len() > 0
            invariant
                ids@.len() <= all.len(),
                ids@ == all.subrange(0, ids@.len() as int),
                released@.len() == all.len() - ids@.len(),
                forall|i: int|
                    0 <= i < released@.len() ==> (#[trigger] released@[i]).id == all[all.len() - 1
                        - i] && released@[i].result == Err::<McpMessage, McpError>(
                        McpError::Disconnected,
                    ),
            decreases ids@.len(),
        {
            let id = ids.pop().unwrap();
            released.push(Resolution { id, result: Err(McpError::Disconnected) });
        }
        proof {
            assert forall|x: Seq<char>| old(self).pending().contains(x) implies exists|i: int|
                0 <= i < released@.len() && (#[trigger] released@[i]).id@ == x by {
                let k = choose|k: int| 0 <= k < all.len() && (#[trigger] all[k])@ == x;
                assert(released@[all.len() - 1 - k].id@ == x);
            }
        }
        let event = McpEvent::ConnectionState { connected: false, server_name: None };
        let payload = self.send_event_to_rn(&event);
        Teardown { released, event, payload }
    }
}

/// What a tool call returns once its waiter was woken with `reply`, or with
/// nothing where the waiter's slot went away unresolved. Only a tool
/// response is a success.
pub fn tool_call_outcome(reply: Option<Result<McpMessage, McpError>>) -> (r: Result<
    McpResponse,
    McpError,
>)
    ensures
        match reply {
            Some(Ok(McpMessage::ToolResponse { response, .. })) => r == Ok::<McpResponse, McpError>(
                response,
            ),
            Some(Ok(_)) => r matches Err(McpError::ProtocolError(t)) && t@
                == "收到非预期响应类型"@,
            Some(Err(e)) => r == Err::<McpResponse, McpError>(e),
            None => r matches Err(McpError::InternalError(t)) && t@ == "响应通道已关闭"@,
        },
{
    match reply {
        Some(Ok(McpMessage::ToolResponse { response, .. })) => Ok(response),
        Some(Ok(_)) => Err(McpError::ProtocolError("收到非预期响应类型".to_owned())),
        Some(Err(e)) => Err(e),
        None => Err(McpError::InternalError("响应通道已关闭".to_owned())),
    }
}

/// What a resource request returns once its waiter was woken with `reply`;
/// as [`tool_call_outcome`], with a resource response as the one success.
pub fn resource_outcome(reply: Option<Result<McpMessage, McpError>>) -> (r: Result<
    McpResource,
    McpError,
>)
    ensures
        match reply {
            Some(Ok(McpMessage::ResourceResponse { resource, .. })) => r == Ok::<
                McpResource,
                McpError,
            >(resource),
            Some(Ok(_)) => r matches Err(McpError::ProtocolError(t)) && t@
                == "收到非预期响应类型"@,
            Some(Err(e)) => r == Err::<McpResource, McpError>(e),
            None => r matches Err(McpError::InternalError(t)) && t@ == "响应通道已关闭"@,
        },
{
    match reply {
        Some(Ok(McpMessage::ResourceResponse { resource, .. })) => Ok(resource),
        Some(Ok(_)) => Err(McpError::ProtocolError("收到非预期响应类型".to_owned())),
        Some(Err(e)) => Err(e),
        None => Err(McpError::InternalError("响应通道已关闭".to_owned())),
    }
}

} // verus!
