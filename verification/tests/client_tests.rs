use mcp_client::bridge::{
    error_reply, not_initialized_reply, parse_tool_parameters, resource_reply, server_info_reply,
    tool_call_reply,
};
use mcp_client::client::{
    encode_event, resource_outcome, tool_call_outcome, Dispatch, McpClient, McpError, McpEvent,
    RNCallback, Resolution,
};
use mcp_client::json::JsonValue;
use mcp_client::pending::PendingTable;
use mcp_client::protocol::{
    parse_mcp_message, text_content, McpMessage, McpResource, McpResponse, McpServerInfo,
};
use mcp_client::retry::is_error_retryable;

fn s(text: &str) -> String {
    text.to_string()
}

const HANDSHAKE: &str = "{\"type\":\"handshake\",\"data\":{\"version\":\"1.0\",\"server_info\":{\"name\":\"srv\",\"version\":\"2\",\"tools\":[]}}}";

fn connected_client() -> McpClient {
    let mut client = McpClient::new();
    client.set_rn_callback(RNCallback { callback_id: s("rn_callback_all") });
    client.connect("wss://x").unwrap();
    client.handle_input_from_rn(HANDSHAKE).unwrap();
    client
}

#[test]
fn new_client_is_disconnected_and_empty() {
    let client = McpClient::new();
    assert!(!client.is_connected());
    assert_eq!(client.get_server_info(), None);
    assert!(client.nothing_pending());
}

#[test]
fn connect_sends_the_handshake_and_stays_unconnected() {
    let mut client = McpClient::new();
    let frame = client.connect("wss://x").unwrap();
    assert_eq!(frame, "{\"type\":\"handshake\",\"data\":{\"version\":\"1.0\",\"server_info\":null}}");
    assert!(!client.is_connected());
    assert!(client.is_connecting());
    client.handle_input_from_rn(HANDSHAKE).unwrap();
    assert!(!client.is_connecting());
}

#[test]
fn handshake_reply_connects_the_client() {
    let mut client = McpClient::new();
    client.set_rn_callback(RNCallback { callback_id: s("cb") });
    client.connect("wss://x").unwrap();
    let dispatch = client.handle_input_from_rn(HANDSHAKE).unwrap();
    assert!(client.is_connected());
    assert_eq!(
        client.get_server_info(),
        Some(&McpServerInfo { name: s("srv"), version: s("2"), tools: vec![] })
    );
    assert_eq!(
        dispatch,
        Dispatch::Connected {
            event: McpEvent::ConnectionState { connected: true, server_name: Some(s("srv")) },
            payload: Some(s("{\"ConnectionState\":{\"connected\":true,\"server_name\":\"srv\"}}")),
        }
    );
}

#[test]
fn handshake_without_server_info_is_ignored() {
    let mut client = McpClient::new();
    let m = McpMessage::Handshake { version: s("1.0"), server_info: None };
    assert_eq!(client.handle_incoming_message(m), Dispatch::Ignored);
    assert!(!client.is_connected());
}

#[test]
fn call_tool_while_disconnected_fails_at_once() {
    let mut client = McpClient::new();
    client.set_rn_callback(RNCallback { callback_id: s("cb") });
    let parameters = vec![(s("x"), JsonValue::Number(s("1")))];
    assert_eq!(client.call_tool("echo", parameters), Err(McpError::Disconnected));
    assert!(client.nothing_pending());
    assert_eq!(client.request_resource("file:///a"), Err(McpError::Disconnected));
    assert!(client.nothing_pending());
}

#[test]
fn call_tool_registers_emits_and_frames() {
    let mut client = connected_client();
    let parameters = vec![(s("x"), JsonValue::Number(s("1")))];
    let start = client.call_tool_with_id(s("id-1"), "echo", parameters.clone()).unwrap();
    assert_eq!(start.id, "id-1");
    assert!(client.is_pending("id-1"));
    assert_eq!(
        start.event,
        McpEvent::ToolCall { call_id: s("id-1"), name: s("echo"), parameters }
    );
    assert_eq!(
        start.payload,
        Some(s("{\"ToolCall\":{\"call_id\":\"id-1\",\"name\":\"echo\",\"parameters\":{\"x\":1}}}"))
    );
    assert_eq!(
        start.frame,
        Ok(s("{\"type\":\"tool_call\",\"data\":{\"call_id\":\"id-1\",\"name\":\"echo\",\"parameters\":{\"x\":1}}}"))
    );
}

#[test]
fn request_resource_registers_emits_and_frames() {
    let mut client = connected_client();
    let start = client.request_resource_with_id(s("id-2"), "file:///a").unwrap();
    assert!(client.is_pending("id-2"));
    assert_eq!(
        start.payload,
        Some(s("{\"ResourceRequest\":{\"request_id\":\"id-2\",\"uri\":\"file:///a\"}}"))
    );
    assert_eq!(
        start.frame,
        Ok(s("{\"type\":\"resource_request\",\"data\":{\"request_id\":\"id-2\",\"uri\":\"file:///a\"}}"))
    );
}

#[test]
fn fresh_identifiers_are_distinct_uuids() {
    let mut client = connected_client();
    let a = client.call_tool("echo", vec![]).unwrap();
    let b = client.request_resource("u").unwrap();
    assert_eq!(a.id.len(), 36);
    assert_eq!(b.id.len(), 36);
    assert_ne!(a.id, b.id);
    assert!(client.is_pending(&a.id));
    assert!(client.is_pending(&b.id));
    let parsed = parse_mcp_message(&a.frame.unwrap()).unwrap();
    assert_eq!(
        parsed,
        McpMessage::ToolCall { call_id: a.id.clone(), name: s("echo"), parameters: vec![] }
    );
}

#[test]
fn without_a_sink_nothing_is_emitted() {
    let mut client = McpClient::new();
    client.connect("wss://x").unwrap();
    let dispatch = client.handle_input_from_rn(HANDSHAKE).unwrap();
    assert_eq!(
        dispatch,
        Dispatch::Connected {
            event: McpEvent::ConnectionState { connected: true, server_name: Some(s("srv")) },
            payload: None,
        }
    );
    let start = client.call_tool_with_id(s("a"), "echo", vec![]).unwrap();
    assert_eq!(start.payload, None);
}

#[test]
fn response_wakes_its_waiter_once() {
    let mut client = connected_client();
    client.call_tool_with_id(s("id-1"), "echo", vec![]).unwrap();
    let reply = McpMessage::ToolResponse {
        call_id: s("id-1"),
        response: McpResponse { content: vec![text_content("hi")], metadata: None },
    };
    let first = client.handle_incoming_message(reply.clone());
    assert_eq!(first, Dispatch::Resolve(Resolution { id: s("id-1"), result: Ok(reply.clone()) }));
    assert!(!client.is_pending("id-1"));
    assert_eq!(client.handle_incoming_message(reply), Dispatch::Ignored);
}

#[test]
fn response_for_an_unknown_request_is_ignored() {
    let mut client = connected_client();
    client.call_tool_with_id(s("id-1"), "echo", vec![]).unwrap();
    let reply = McpMessage::ResourceResponse {
        request_id: s("other"),
        resource: McpResource { contents: vec![], metadata: None },
    };
    assert_eq!(client.handle_incoming_message(reply), Dispatch::Ignored);
    assert!(client.is_pending("id-1"));
}

#[test]
fn targeted_error_resolves_the_call_and_is_not_retried() {
    let mut client = connected_client();
    client.call_tool_with_id(s("id-1"), "echo", vec![]).unwrap();
    let text = "{\"type\":\"error\",\"data\":{\"code\":\"429\",\"message\":\"rate\",\"reference_id\":\"id-1\"}}";
    let dispatch = client.handle_input_from_rn(text).unwrap();
    let expected = McpError::ServerError { code: s("429"), message: s("rate") };
    match dispatch {
        Dispatch::Resolve(resolution) => {
            assert_eq!(resolution.id, "id-1");
            assert_eq!(resolution.result, Err(expected.clone()));
            let outcome = tool_call_outcome(Some(resolution.result));
            assert_eq!(outcome, Err(expected.clone()));
        }
        other => panic!("unexpected dispatch: {:?}", other),
    }
    assert!(!is_error_retryable(&expected));
    assert!(client.nothing_pending());
}

#[test]
fn targeted_error_for_an_unknown_request_is_dropped() {
    let mut client = connected_client();
    let m = McpMessage::Error { code: s("1"), message: s("m"), reference_id: Some(s("gone")) };
    assert_eq!(client.handle_incoming_message(m), Dispatch::Ignored);
}

#[test]
fn general_error_becomes_an_event() {
    let mut client = connected_client();
    let m = McpMessage::Error { code: s("500"), message: s("boom"), reference_id: None };
    assert_eq!(
        client.handle_incoming_message(m),
        Dispatch::Unsolicited {
            event: McpEvent::Error { code: s("500"), message: s("boom") },
            payload: Some(s("{\"Error\":{\"code\":\"500\",\"message\":\"boom\"}}")),
        }
    );
}

#[test]
fn requests_from_the_peer_are_ignored() {
    let mut client = connected_client();
    let m = McpMessage::ToolCall { call_id: s("c"), name: s("n"), parameters: vec![] };
    assert_eq!(client.handle_incoming_message(m), Dispatch::Ignored);
    let m = McpMessage::ResourceRequest { request_id: s("c"), uri: s("u") };
    assert_eq!(client.handle_incoming_message(m), Dispatch::Ignored);
}

#[test]
fn unreadable_input_is_a_protocol_error() {
    let mut client = connected_client();
    client.call_tool_with_id(s("id-1"), "echo", vec![]).unwrap();
    assert!(matches!(client.handle_input_from_rn("not json"), Err(McpError::ProtocolError(_))));
    assert_eq!(
        client.handle_input_from_rn("{\"type\":\"ping\",\"data\":{}}"),
        Err(McpError::ProtocolError(s("解析消息失败: unknown message type")))
    );
    assert!(client.is_connected());
    assert!(client.is_pending("id-1"));
}

#[test]
fn disconnect_releases_every_waiter() {
    let mut client = connected_client();
    client.call_tool_with_id(s("a"), "echo", vec![]).unwrap();
    client.request_resource_with_id(s("b"), "u").unwrap();
    client.call_tool_with_id(s("c"), "echo", vec![]).unwrap();
    client.handle_incoming_message(McpMessage::Error {
        code: s("1"),
        message: s("m"),
        reference_id: Some(s("b")),
    });
    let teardown = client.disconnect();
    let mut ids: Vec<String> = teardown.released.iter().map(|r| r.id.clone()).collect();
    ids.sort();
    assert_eq!(ids, vec![s("a"), s("c")]);
    for resolution in &teardown.released {
        assert_eq!(resolution.result, Err(McpError::Disconnected));
    }
    assert_eq!(
        teardown.event,
        McpEvent::ConnectionState { connected: false, server_name: None }
    );
    assert_eq!(
        teardown.payload,
        Some(s("{\"ConnectionState\":{\"connected\":false,\"server_name\":null}}"))
    );
    assert!(!client.is_connected());
    assert_eq!(client.get_server_info(), None);
    assert!(client.nothing_pending());
}

#[test]
fn disconnect_twice_succeeds_and_keeps_the_sink() {
    let mut client = connected_client();
    client.disconnect();
    let again = client.disconnect();
    assert!(again.released.is_empty());
    assert!(again.payload.is_some());
    assert!(!client.is_connected());
    let m = McpMessage::ToolCall { call_id: s("c"), name: s("n"), parameters: vec![] };
    assert_eq!(client.send_message(&m), Err(McpError::Disconnected));
}

#[test]
fn sending_needs_a_connection_and_an_open_channel() {
    let client = McpClient::new();
    let call = McpMessage::ToolCall { call_id: s("c"), name: s("n"), parameters: vec![] };
    let hello = McpMessage::Handshake { version: s("1.0"), server_info: None };
    assert_eq!(client.send_message(&call), Err(McpError::Disconnected));
    assert_eq!(client.send_message(&hello), Err(McpError::Disconnected));
    assert_eq!(
        client.outbound_frame(&hello, Err(s("bad"))),
        Err(McpError::ProtocolError(s("序列化消息失败: bad")))
    );
    let open = connected_client();
    assert_eq!(open.outbound_frame(&call, Ok(s("text"))), Ok(s("text")));
}

#[test]
fn pending_table_gives_a_slot_up_once() {
    let mut table = PendingTable::new();
    assert!(table.is_empty());
    assert!(table.register(s("a")));
    assert!(!table.register(s("a")));
    assert!(table.register(s("b")));
    assert!(table.contains("a"));
    assert!(table.fulfill("a"));
    assert!(!table.fulfill("a"));
    assert!(!table.fulfill("zzz"));
    assert!(table.contains("b"));
    assert_eq!(table.clear_all(), vec![s("b")]);
    assert!(table.is_empty());
    assert!(table.clear_all().is_empty());
}

#[test]
fn only_the_expected_response_is_a_success() {
    let response = McpResponse { content: vec![text_content("x")], metadata: None };
    let tool = McpMessage::ToolResponse { call_id: s("c"), response: response.clone() };
    let resource = McpResource { contents: vec![], metadata: None };
    let res = McpMessage::ResourceResponse { request_id: s("c"), resource: resource.clone() };
    assert_eq!(tool_call_outcome(Some(Ok(tool.clone()))), Ok(response));
    assert_eq!(
        tool_call_outcome(Some(Ok(res.clone()))),
        Err(McpError::ProtocolError(s("收到非预期响应类型")))
    );
    assert_eq!(tool_call_outcome(Some(Err(McpError::Timeout))), Err(McpError::Timeout));
    assert_eq!(
        tool_call_outcome(None),
        Err(McpError::InternalError(s("响应通道已关闭")))
    );
    assert_eq!(resource_outcome(Some(Ok(res))), Ok(resource));
    assert_eq!(
        resource_outcome(Some(Ok(tool))),
        Err(McpError::ProtocolError(s("收到非预期响应类型")))
    );
    assert_eq!(
        resource_outcome(Some(Err(McpError::Disconnected))),
        Err(McpError::Disconnected)
    );
    assert_eq!(
        resource_outcome(None),
        Err(McpError::InternalError(s("响应通道已关闭")))
    );
}

#[test]
fn errors_in_words() {
    assert_eq!(McpError::ConnectionError(s("x")).describe(), "连接错误: x");
    assert_eq!(McpError::CommunicationError(s("x")).describe(), "通信错误: x");
    assert_eq!(McpError::ProtocolError(s("x")).describe(), "协议错误: x");
    assert_eq!(
        McpError::ServerError { code: s("429"), message: s("rate") }.describe(),
        "服务器错误 [429]: rate"
    );
    assert_eq!(McpError::Timeout.describe(), "操作超时");
    assert_eq!(McpError::Disconnected.describe(), "连接已断开");
    assert_eq!(McpError::InternalError(s("x")).describe(), "内部错误: x");
}

#[test]
fn events_as_documents() {
    let event = McpEvent::ConnectionState { connected: false, server_name: None };
    assert_eq!(
        encode_event(&event),
        JsonValue::Object(vec![(
            s("ConnectionState"),
            JsonValue::Object(vec![
                (s("connected"), JsonValue::Bool(false)),
                (s("server_name"), JsonValue::Null),
            ]),
        )])
    );
}

#[test]
fn boundary_replies() {
    assert_eq!(
        error_reply("invalid_params", "m"),
        "{\"error\":{\"code\":\"invalid_params\",\"message\":\"m\"}}"
    );
    assert_eq!(
        not_initialized_reply(),
        "{\"error\":{\"code\":\"client_not_initialized\",\"message\":\"MCP客户端未初始化\"}}"
    );
    let response = McpResponse { content: vec![text_content("hi")], metadata: None };
    assert_eq!(
        tool_call_reply(&Ok(response)),
        "{\"content\":[{\"type\":\"text\",\"text\":\"hi\"}]}"
    );
    assert_eq!(
        tool_call_reply(&Err(McpError::Disconnected)),
        "{\"error\":{\"code\":\"tool_call_error\",\"message\":\"连接已断开\"}}"
    );
    assert_eq!(
        resource_reply(&Ok(McpResource { contents: vec![], metadata: None })),
        "{\"contents\":[]}"
    );
    assert_eq!(
        resource_reply(&Err(McpError::Timeout)),
        "{\"error\":{\"code\":\"resource_request_error\",\"message\":\"操作超时\"}}"
    );
    assert_eq!(server_info_reply(None), "null");
    let info = McpServerInfo { name: s("srv"), version: s("2"), tools: vec![] };
    assert_eq!(
        server_info_reply(Some(&info)),
        "{\"name\":\"srv\",\"version\":\"2\",\"tools\":[]}"
    );
}

#[test]
fn tool_parameters_must_be_an_object() {
    assert_eq!(
        parse_tool_parameters("{\"x\":1}"),
        Ok(vec![(s("x"), JsonValue::Number(s("1")))])
    );
    let refusal =
        s("{\"error\":{\"code\":\"invalid_params\",\"message\":\"无法解析工具参数\"}}");
    assert_eq!(parse_tool_parameters("[1]"), Err(refusal.clone()));
    assert_eq!(parse_tool_parameters("{"), Err(refusal));
}

#[test]
fn a_run_of_inputs_passes_over_what_it_cannot_read() {
    let mut client = McpClient::new();
    client.set_rn_callback(RNCallback { callback_id: s("cb") });
    client.connect("wss://x").unwrap();
    let texts = vec![
        s("garbage"),
        s(HANDSHAKE),
        s("{\"type\":\"ping\",\"data\":{}}"),
        s("{\"type\":\"error\",\"data\":{\"code\":\"7\",\"message\":\"m\",\"reference_id\":null}}"),
    ];
    let dispatches = client.dispatch_all(&texts);
    assert_eq!(dispatches.len(), 4);
    assert_eq!(dispatches[0], Dispatch::Ignored);
    assert!(matches!(dispatches[1], Dispatch::Connected { .. }));
    assert_eq!(dispatches[2], Dispatch::Ignored);
    assert_eq!(
        dispatches[3],
        Dispatch::Unsolicited {
            event: McpEvent::Error { code: s("7"), message: s("m") },
            payload: Some(s("{\"Error\":{\"code\":\"7\",\"message\":\"m\"}}")),
        }
    );
    assert!(client.is_connected());
    assert!(client.dispatch_all(&vec![]).is_empty());
}

#[test]
fn the_sink_gets_a_text_only_where_there_is_one() {
    let mut client = McpClient::new();
    assert_eq!(client.event_payload(Ok(s("t"))), None);
    client.set_rn_callback(RNCallback { callback_id: s("cb") });
    assert_eq!(client.event_payload(Ok(s("t"))), Some(s("t")));
    assert_eq!(client.event_payload(Err(s("bad"))), None);
}
