use mcp_client::codec::{decode_message, encode_message};
use mcp_client::json::JsonValue;
use mcp_client::protocol::{
    parse_mcp_message, serialize_mcp_message, text_content, DecodeError, McpContent, McpMessage,
    McpResource, McpResourceContent, McpResponse, McpServerInfo, McpTool,
};

fn s(text: &str) -> String {
    text.to_string()
}

fn sample_messages() -> Vec<McpMessage> {
    vec![
        McpMessage::ToolCall {
            call_id: s("c1"),
            name: s("echo"),
            parameters: vec![
                (s("x"), JsonValue::Number(s("1"))),
                (s("deep"), JsonValue::Array(vec![JsonValue::Null, JsonValue::Bool(true)])),
                (s("ratio"), JsonValue::Number(s("-2.5"))),
            ],
        },
        McpMessage::ToolCall { call_id: s("c2"), name: s("noop"), parameters: vec![] },
        McpMessage::ToolResponse {
            call_id: s("c1"),
            response: McpResponse {
                content: vec![
                    text_content("hello"),
                    McpContent {
                        content_type: s("image"),
                        text: None,
                        attributes: vec![(s("url"), JsonValue::Text(s("http://x/y.png")))],
                    },
                ],
                metadata: Some(vec![(s("took"), JsonValue::Number(s("12")))]),
            },
        },
        McpMessage::ToolResponse {
            call_id: s("c3"),
            response: McpResponse { content: vec![], metadata: None },
        },
        McpMessage::ResourceRequest { request_id: s("r1"), uri: s("file:///a") },
        McpMessage::ResourceResponse {
            request_id: s("r1"),
            resource: McpResource {
                contents: vec![
                    McpResourceContent { uri: s("file:///a"), text: s("body"), mime_type: None },
                    McpResourceContent {
                        uri: s("file:///b"),
                        text: s(""),
                        mime_type: Some(s("text/plain")),
                    },
                ],
                metadata: None,
            },
        },
        McpMessage::Error { code: s("429"), message: s("rate"), reference_id: Some(s("c1")) },
        McpMessage::Error { code: s("500"), message: s("boom"), reference_id: None },
        McpMessage::Handshake { version: s("1.0"), server_info: None },
        McpMessage::Handshake {
            version: s("1.0"),
            server_info: Some(McpServerInfo {
                name: s("srv"),
                version: s("2"),
                tools: vec![McpTool {
                    name: s("echo"),
                    description: s("says it again"),
                    parameters_schema: JsonValue::Object(vec![(
                        s("type"),
                        JsonValue::Text(s("object")),
                    )]),
                }],
            }),
        },
    ]
}

#[test]
fn text_round_trip_of_every_variant() {
    for m in sample_messages() {
        let text = serialize_mcp_message(&m).unwrap();
        assert_eq!(parse_mcp_message(&text), Ok(m));
    }
}

#[test]
fn tree_round_trip_of_every_variant() {
    for m in sample_messages() {
        assert_eq!(decode_message(&encode_message(&m)), Ok(m));
    }
}

#[test]
fn serialize_writes_the_envelope() {
    let m = McpMessage::ResourceRequest { request_id: s("r1"), uri: s("u") };
    assert_eq!(
        serialize_mcp_message(&m).unwrap(),
        "{\"type\":\"resource_request\",\"data\":{\"request_id\":\"r1\",\"uri\":\"u\"}}"
    );
}

#[test]
fn serialize_writes_null_for_missing_reference_and_server() {
    let e = McpMessage::Error { code: s("c"), message: s("m"), reference_id: None };
    assert_eq!(
        serialize_mcp_message(&e).unwrap(),
        "{\"type\":\"error\",\"data\":{\"code\":\"c\",\"message\":\"m\",\"reference_id\":null}}"
    );
    let h = McpMessage::Handshake { version: s("1.0"), server_info: None };
    assert_eq!(
        serialize_mcp_message(&h).unwrap(),
        "{\"type\":\"handshake\",\"data\":{\"version\":\"1.0\",\"server_info\":null}}"
    );
}

#[test]
fn serialize_skips_missing_text_and_metadata() {
    let m = McpMessage::ToolResponse {
        call_id: s("c"),
        response: McpResponse {
            content: vec![McpContent {
                content_type: s("blob"),
                text: None,
                attributes: vec![(s("n"), JsonValue::Number(s("7")))],
            }],
            metadata: None,
        },
    };
    assert_eq!(
        serialize_mcp_message(&m).unwrap(),
        "{\"type\":\"tool_response\",\"data\":{\"call_id\":\"c\",\"response\":{\"content\":[{\"type\":\"blob\",\"n\":7}]}}}"
    );
}

#[test]
fn parse_reads_the_handshake_reply() {
    let text = "{\"type\":\"handshake\",\"data\":{\"version\":\"1.0\",\"server_info\":{\"name\":\"srv\",\"version\":\"2\",\"tools\":[]}}}";
    assert_eq!(
        parse_mcp_message(text),
        Ok(McpMessage::Handshake {
            version: s("1.0"),
            server_info: Some(McpServerInfo { name: s("srv"), version: s("2"), tools: vec![] }),
        })
    );
}

#[test]
fn parse_defaults_missing_parameters_tools_and_metadata() {
    assert_eq!(
        parse_mcp_message("{\"type\":\"tool_call\",\"data\":{\"call_id\":\"c\",\"name\":\"n\"}}"),
        Ok(McpMessage::ToolCall { call_id: s("c"), name: s("n"), parameters: vec![] })
    );
    assert_eq!(
        parse_mcp_message(
            "{\"data\":{\"version\":\"1\",\"server_info\":{\"name\":\"a\",\"version\":\"b\"}},\"type\":\"handshake\"}"
        ),
        Ok(McpMessage::Handshake {
            version: s("1"),
            server_info: Some(McpServerInfo { name: s("a"), version: s("b"), tools: vec![] }),
        })
    );
    assert_eq!(
        parse_mcp_message(
            "{\"type\":\"tool_response\",\"data\":{\"call_id\":\"c\",\"response\":{\"content\":[]}}}"
        ),
        Ok(McpMessage::ToolResponse {
            call_id: s("c"),
            response: McpResponse { content: vec![], metadata: None },
        })
    );
}

#[test]
fn parse_keeps_numbers_and_nested_values() {
    let text = "{\"type\":\"tool_call\",\"data\":{\"call_id\":\"c\",\"name\":\"n\",\"parameters\":{\"x\":1,\"y\":[true,null,\"z\"],\"f\":-0.5}}}";
    assert_eq!(
        parse_mcp_message(text),
        Ok(McpMessage::ToolCall {
            call_id: s("c"),
            name: s("n"),
            parameters: vec![
                (s("x"), JsonValue::Number(s("1"))),
                (
                    s("y"),
                    JsonValue::Array(vec![
                        JsonValue::Bool(true),
                        JsonValue::Null,
                        JsonValue::Text(s("z")),
                    ]),
                ),
                (s("f"), JsonValue::Number(s("-0.5"))),
            ],
        })
    );
}

#[test]
fn parse_puts_other_members_of_a_block_among_its_attributes() {
    let text = "{\"type\":\"tool_response\",\"data\":{\"call_id\":\"c\",\"response\":{\"content\":[{\"type\":\"text\",\"text\":\"hi\",\"lang\":\"en\"}]}}}";
    assert_eq!(
        parse_mcp_message(text),
        Ok(McpMessage::ToolResponse {
            call_id: s("c"),
            response: McpResponse {
                content: vec![McpContent {
                    content_type: s("text"),
                    text: Some(s("hi")),
                    attributes: vec![(s("lang"), JsonValue::Text(s("en")))],
                }],
                metadata: None,
            },
        })
    );
}

#[test]
fn parse_rejects_an_unknown_discriminant() {
    assert_eq!(
        parse_mcp_message("{\"type\":\"ping\",\"data\":{}}"),
        Err(DecodeError::UnknownType)
    );
}

#[test]
fn parse_rejects_missing_and_misplaced_fields() {
    assert_eq!(
        parse_mcp_message("{\"type\":\"resource_request\",\"data\":{\"request_id\":\"r\"}}"),
        Err(DecodeError::Malformed)
    );
    assert_eq!(
        parse_mcp_message("{\"type\":\"resource_request\"}"),
        Err(DecodeError::Malformed)
    );
    assert_eq!(
        parse_mcp_message("{\"data\":{\"request_id\":\"r\",\"uri\":\"u\"}}"),
        Err(DecodeError::Malformed)
    );
    assert_eq!(
        parse_mcp_message("{\"type\":\"error\",\"data\":{\"code\":5,\"message\":\"m\"}}"),
        Err(DecodeError::Malformed)
    );
    assert_eq!(parse_mcp_message("[1,2]"), Err(DecodeError::Malformed));
}

#[test]
fn parse_rejects_text_that_is_not_json() {
    assert!(matches!(parse_mcp_message("{\"type\":"), Err(DecodeError::Syntax(_))));
    assert!(matches!(parse_mcp_message(""), Err(DecodeError::Syntax(_))));
}

#[test]
fn text_content_is_a_text_block() {
    assert_eq!(
        text_content("hello"),
        McpContent { content_type: s("text"), text: Some(s("hello")), attributes: vec![] }
    );
}

#[test]
fn reserved_attribute_names_do_not_survive() {
    let m = McpMessage::ToolResponse {
        call_id: s("c"),
        response: McpResponse {
            content: vec![McpContent {
                content_type: s("text"),
                text: None,
                attributes: vec![(s("text"), JsonValue::Text(s("shadow")))],
            }],
            metadata: None,
        },
    };
    assert_ne!(decode_message(&encode_message(&m)), Ok(m));
}
