use mcp_ectors::capabilities::{CapabilitiesBuilder, ServerCapabilities};
use mcp_ectors::content::{
    annotations_from_guest, content_from_guest, prompt_message_from_guest, resource_from_guest, tool_from_guest,
    Content, GuestAnnotations, GuestContent, GuestEmbeddedResource, GuestImageContent, GuestPromptMessage,
    GuestPromptMessageContent, GuestResource, GuestTextContent, GuestTool, PromptMessageContent, ReadResourceResult,
    ResourceContents, Role,
};
use mcp_ectors::convert::{KeyValue, UtcInstant};
use mcp_ectors::router::{PromptError, ResourceError, ToolError};
use mcp_ectors::wasm::{
    call_tool_request, key_value_from_member, reply_call_tool, reply_capabilities, reply_get_prompt,
    reply_instructions, reply_name, reply_prompts, reply_read_resource, reply_resources, reply_tools,
    respond_call_tool, respond_capabilities, respond_get_prompt, respond_instructions, respond_name,
    respond_prompts, respond_read_resource, respond_resources, respond_tools, WasmRequest, WasmResponse,
};
use serde_json::Value;

fn object(entries: Vec<(&str, Value)>) -> Value {
    let mut m = serde_json::Map::new();
    for (k, v) in entries {
        m.insert(k.to_string(), v);
    }
    Value::Object(m)
}

#[test]
fn test_tool_conversion() {
    let wasix_tool = GuestTool {
        name: "Test Tool".to_string(),
        description: "A test tool".to_string(),
        input_schema: KeyValue { key: "input".to_string(), data: "{\"type\":\"object\"}".to_string() },
    };
    let mcp_tool = tool_from_guest(wasix_tool);
    assert_eq!(mcp_tool.name, "Test Tool");
    assert_eq!(mcp_tool.description, "A test tool");
    let schema: Value = serde_json::from_str(&mcp_tool.input_schema).unwrap();
    assert_eq!(schema, object(vec![("input", object(vec![("type", Value::String("object".to_string()))]))]));
}

#[test]
fn test_annotations_conversion() {
    let wasix_annotations = GuestAnnotations {
        audience: Some(vec![Role::Assistant]),
        priority_bits: Some(5.0f32.to_bits()),
        timestamp: Some("2022-03-01T12:00:00Z".to_string()),
    };
    let mcp_annotations = annotations_from_guest(wasix_annotations);
    assert_eq!(mcp_annotations.priority_bits.map(f32::from_bits), Some(5.0));
    assert_eq!(mcp_annotations.audience.unwrap(), vec![Role::Assistant]);
    assert!(mcp_annotations.timestamp.is_some());
}

#[test]
fn annotations_without_audience_get_an_empty_one() {
    let a = annotations_from_guest(GuestAnnotations { audience: None, priority_bits: None, timestamp: Some("nope".to_string()) });
    assert_eq!(a.audience, Some(vec![]));
    assert_eq!(a.timestamp, None);
    let a = annotations_from_guest(GuestAnnotations { audience: None, priority_bits: None, timestamp: Some("2022-03-01T12:00:00Z".to_string()) });
    assert_eq!(a.timestamp, Some(UtcInstant { secs: 1646136000, nanos: 0 }));
}

#[test]
fn test_resource_contents_conversion() {
    let text_resource = ResourceContents::Text {
        uri: "http://example.com".to_string(),
        mime_type: Some("text/plain".to_string()),
        text: "Test content".to_string(),
    };
    let embedded = GuestEmbeddedResource { resource_contents: text_resource, annotations: None };
    match content_from_guest(GuestContent::Embedded(embedded)) {
        Content::Resource(r) => match r.resource {
            ResourceContents::Text { uri, mime_type, text } => {
                assert_eq!(uri, "http://example.com");
                assert_eq!(mime_type, Some("text/plain".to_string()));
                assert_eq!(text, "Test content");
            }
            _ => panic!("Expected TextResourceContents"),
        },
        _ => panic!("Expected TextResourceContents"),
    }
}

#[test]
fn test_prompt_message_conversion() {
    let wasix_prompt_message = GuestPromptMessage {
        role: Role::User,
        content: GuestPromptMessageContent::Text(GuestTextContent {
            text: "This is a prompt message".to_string(),
            annotations: Some(GuestAnnotations {
                audience: Some(vec![Role::Assistant]),
                priority_bits: Some(5.0f32.to_bits()),
                timestamp: None,
            }),
        }),
    };
    let mcp_prompt_message = prompt_message_from_guest(wasix_prompt_message);
    assert_eq!(mcp_prompt_message.role, Role::User);
    match mcp_prompt_message.content {
        PromptMessageContent::Text { text } => assert_eq!(text, "This is a prompt message"),
        _ => panic!("Expected PromptMessageContent::Text"),
    }
}

#[test]
fn image_and_resource_conversions_keep_fields() {
    match content_from_guest(GuestContent::Image(GuestImageContent { data: "AAAA".to_string(), mime_type: "image/png".to_string(), annotations: None })) {
        Content::Image(i) => {
            assert_eq!(i.data, "AAAA");
            assert_eq!(i.mime_type, "image/png");
            assert!(i.annotations.is_none());
        }
        _ => panic!("Expected an image"),
    }
    let r = resource_from_guest(GuestResource {
        name: "n".to_string(),
        description: Some("d".to_string()),
        uri: "echo://fixedresource".to_string(),
        mime_type: "text/plain".to_string(),
        annotations: Some(GuestAnnotations { audience: Some(vec![Role::User]), priority_bits: None, timestamp: None }),
    });
    assert_eq!(r.uri, "echo://fixedresource");
    assert_eq!(r.annotations.unwrap().audience, Some(vec![Role::User]));
}

#[test]
fn tool_call_request_arguments() {
    let kv = key_value_from_member(Some(("message".to_string(), Some("hi".to_string())))).unwrap();
    assert_eq!((kv.key.as_str(), kv.data.as_str()), ("message", "hi"));
    assert!(key_value_from_member(Some(("message".to_string(), None))).is_none());
    assert!(key_value_from_member(None).is_none());
    match call_tool_request("tool1".to_string(), None) {
        WasmRequest::CallTool(n, kv) => {
            assert_eq!(n, "tool1");
            assert_eq!(kv.key, "");
            assert_eq!(kv.data, "");
        }
        _ => panic!("expected a tool call"),
    }
}

#[test]
fn responses_from_outcomes() {
    assert!(matches!(respond_name(Ok("n".to_string())), WasmResponse::Name(ref n) if n == "n"));
    assert!(matches!(respond_name(Err("trap".to_string())), WasmResponse::Error(ref e) if e == "trap"));
    assert!(matches!(respond_instructions(Ok("i".to_string())), WasmResponse::Instructions(ref n) if n == "i"));
    let tools = vec![GuestTool { name: "t".to_string(), description: "d".to_string(), input_schema: KeyValue { key: "k".to_string(), data: "1".to_string() } }];
    match respond_tools(Ok(tools)) {
        WasmResponse::Tools(t) => {
            assert_eq!(t.len(), 1);
            assert_eq!(t[0].input_schema, "{\"k\":1}");
        }
        _ => panic!("expected tools"),
    }
    assert!(matches!(respond_resources(Ok(vec![])), WasmResponse::Resources(ref r) if r.is_empty()));
    assert!(matches!(respond_prompts(Ok(vec![])), WasmResponse::Prompts(ref r) if r.is_empty()));
    assert!(matches!(respond_capabilities(Ok(CapabilitiesBuilder::new().build())), WasmResponse::Capabilities(_)));
    match respond_read_resource(Err("gone".to_string())) {
        WasmResponse::Error(m) => assert_eq!(m, "Failed to read resource: gone"),
        _ => panic!("expected an error"),
    }
    assert!(matches!(respond_read_resource(Ok(Err(ResourceError::NotFound("x".to_string())))), WasmResponse::RetResourceError(ResourceError::NotFound(_))));
    assert!(matches!(respond_get_prompt(Ok(Err(PromptError::NotFound("p".to_string())))), WasmResponse::RetPromptError(PromptError::NotFound(_))));
    assert!(matches!(respond_call_tool(Ok(Err(ToolError::SchemaError("s".to_string())))), WasmResponse::RetToolError(ToolError::SchemaError(_))));
    assert!(matches!(respond_call_tool(Err("trap".to_string())), WasmResponse::Error(_)));
}

#[test]
fn replies_read_back() {
    assert_eq!(reply_name(Ok(WasmResponse::Name("n".to_string()))), Ok("n".to_string()));
    assert_eq!(reply_name(Ok(WasmResponse::Error("e".to_string()))), Err("e".to_string()));
    assert_eq!(reply_name(Err("dropped".to_string())), Err("dropped".to_string()));
    assert_eq!(reply_name(Ok(WasmResponse::Instructions("i".to_string()))), Err("Unexpected response type".to_string()));
    assert_eq!(reply_instructions(Ok(WasmResponse::Instructions("i".to_string()))), Ok("i".to_string()));
    assert!(matches!(reply_tools(Ok(WasmResponse::Tools(vec![]))), Ok(ref t) if t.is_empty()));
    assert!(matches!(reply_resources(Ok(WasmResponse::Name("x".to_string()))), Err(ref m) if m == "Unexpected response type"));
    assert!(matches!(reply_prompts(Ok(WasmResponse::Prompts(vec![]))), Ok(_)));
    assert_eq!(
        reply_capabilities(Ok(WasmResponse::Capabilities(CapabilitiesBuilder::new().with_tools(true).build()))).map(|c| c.tools.is_some()),
        Ok(true)
    );
    let none: ServerCapabilities = CapabilitiesBuilder::new().build();
    assert_eq!(none.tools, None);
    assert!(matches!(reply_call_tool(Ok(WasmResponse::RetToolError(ToolError::NotFound("t".to_string())))), Err(ToolError::NotFound(_))));
    assert!(matches!(reply_call_tool(Err("dropped".to_string())), Err(ToolError::ExecutionError(ref m)) if m == "dropped"));
    assert!(matches!(reply_read_resource(Ok(WasmResponse::ReadResource(ReadResourceResult { contents: vec![] }))), Ok(_)));
    assert!(matches!(reply_read_resource(Ok(WasmResponse::Error("trap".to_string()))), Err(ResourceError::ExecutionError(ref m)) if m == "trap"));
    assert!(matches!(reply_get_prompt(Ok(WasmResponse::Name("x".to_string()))), Err(PromptError::InternalError(ref m)) if m == "Unexpected response type"));
}
