use mcp_ectors::capabilities::{CapabilitiesBuilder, PromptsCapability, ResourcesCapability, RouterCapabilities, ServerCapabilities, ToolsCapability};
use mcp_ectors::init::InitializationActor;
use mcp_ectors::router::{
    execution_error, router_call, router_call_error, ExecutionKind, ResourceError, RouterCall, RouterCallError,
    SystemRouter, ToolError,
};
use mcp_ectors::transport_error::TransportError;

#[test]
fn initialize_returns_server_identity() {
    let init = InitializationActor::new();
    let r = init.handle_initialize_request(Some(1));
    assert_eq!(r.jsonrpc, "2.0");
    assert_eq!(r.id, Some(1));
    assert_eq!(r.result.protocol_version, "2024-11-05");
    assert_eq!(r.result.server_name, "Multi MCP Router Server");
    assert_eq!(r.result.server_version, "0.1.0");
    assert!(r.result.logging);
    let caps = r.result.capabilities;
    assert_eq!(caps.tools, Some(ToolsCapability { list_changed: Some(true) }));
    assert_eq!(caps.prompts, Some(PromptsCapability { list_changed: Some(true) }));
    assert_eq!(caps.resources, Some(ResourcesCapability { subscribe: Some(true), list_changed: Some(true) }));
    let text = r.result.instructions.unwrap();
    assert!(text.contains("routerid_tool_name"));
    assert!(text.contains("system_all"));
}

#[test]
fn initialized_notification_is_empty_success() {
    let init = InitializationActor::new();
    let r = init.handle_initialized_notification_request(Some(7));
    assert_eq!(r.jsonrpc, "2.0");
    assert_eq!(r.id, Some(7));
}

#[test]
fn capabilities_builder_sets_members() {
    let caps = CapabilitiesBuilder::new().with_tools(false).build();
    assert_eq!(caps, ServerCapabilities { tools: Some(ToolsCapability { list_changed: Some(false) }), prompts: None, resources: None });
    let caps = CapabilitiesBuilder::new().with_prompts(true).with_resources(false, true).build();
    assert_eq!(caps.prompts, Some(PromptsCapability { list_changed: Some(true) }));
    assert_eq!(caps.resources, Some(ResourcesCapability { subscribe: Some(false), list_changed: Some(true) }));
    assert_eq!(caps.tools, None);
    let rc = RouterCapabilities::default();
    assert!(!rc.tools_list_changed && !rc.prompts_list_changed);
}

#[test]
fn router_call_decodes_methods() {
    assert!(matches!(router_call("tools/call", Some("tool1".to_string()), None), Ok(RouterCall::CallTool(ref n)) if n == "tool1"));
    assert!(matches!(router_call("tools/call", None, Some("u".to_string())), Err(RouterCallError::MissingToolName)));
    assert!(matches!(router_call("resources/read", None, Some("echo://x".to_string())), Ok(RouterCall::ReadResource(ref u)) if u == "echo://x"));
    assert!(matches!(router_call("resources/read", Some("n".to_string()), None), Err(RouterCallError::MissingUri)));
    assert!(matches!(router_call("prompts/get", Some("p".to_string()), None), Ok(RouterCall::GetPrompt(ref n)) if n == "p"));
    assert!(matches!(router_call("prompts/get", None, None), Err(RouterCallError::MissingPromptName)));
    assert!(matches!(router_call("tools/list", None, None), Ok(RouterCall::ListTools)));
    assert!(matches!(router_call("resources/list", None, None), Ok(RouterCall::ListResources)));
    assert!(matches!(router_call("prompts/list", None, None), Ok(RouterCall::ListPrompts)));
    assert!(matches!(router_call("resources/subscribe", None, Some("u".to_string())), Err(RouterCallError::Unsupported)));
}

#[test]
fn router_errors_are_json_rpc_errors() {
    let e = router_call_error(Some(2), RouterCallError::MissingToolName);
    assert_eq!((e.jsonrpc.as_str(), e.id, e.error.code), ("2.0", Some(2), -32602));
    assert_eq!(e.error.message, "Invalid parameters for call_tool");
    let e = router_call_error(None, RouterCallError::Unsupported);
    assert_eq!(e.error.message, "unsupported method");
    let e = execution_error(Some(3), ExecutionKind::Resource, "NotFound");
    assert_eq!(e.error.code, -32603);
    assert_eq!(e.error.message, "Resource execution failed");
    assert_eq!(e.error.data, Some("{\"error\":\"NotFound\"}".to_string()));
    let e = execution_error(Some(3), ExecutionKind::Tool, "x");
    assert_eq!(e.error.message, "Tool execution failed");
    let e = execution_error(Some(3), ExecutionKind::Prompt, "x");
    assert_eq!(e.error.message, "Prompt execution failed");
}

#[test]
fn system_router_answers_for_the_server() {
    let s = SystemRouter::new();
    assert_eq!(s.name(), "system");
    assert!(s.instructions().contains("system_all"));
    assert_eq!(s.capabilities().resources, Some(ResourcesCapability { subscribe: Some(true), list_changed: Some(true) }));
    assert!(s.list_tools().is_empty());
    assert!(s.list_prompts().is_empty());
    let res = s.list_resources();
    assert_eq!(res.len(), 1);
    assert_eq!(res[0].uri, "all");
    match s.call_tool("x") {
        Err(ToolError::NotFound(m)) => assert_eq!(m, "Tool x not found"),
        _ => panic!("expected NotFound"),
    }
    let installed = vec!["system".to_string(), "mock".to_string()];
    match s.read_resource("all", &installed) {
        Ok(c) => {
            assert_eq!(c.uri, "all");
            assert_eq!(c.mime_type, Some("text/plain".to_string()));
            assert_eq!(c.text, "This multi-router mcp server has these routers installed:\n- system\n- mock\n");
        }
        Err(_) => panic!("expected the catalog"),
    }
    match s.read_resource("other", &installed) {
        Err(ResourceError::NotFound(m)) => assert_eq!(m, "Resource other not found"),
        _ => panic!("expected NotFound"),
    }
}

#[test]
fn transport_errors_describe_themselves() {
    assert_eq!(TransportError::network_error("down".to_string()).describe(), "Network error: down");
    assert_eq!(TransportError::protocol_error("bad".to_string()).describe(), "Protocol error: bad");
    assert_eq!(TransportError::internal_error("x".to_string()).describe(), "Internal error: x");
    assert_eq!(TransportError::configuration_error("port".to_string()).describe(), "Configuration error: port");
}

#[test]
fn log_config_defaults_to_info() {
    let c = mcp_ectors::config::LogConfig::new("logs".to_string(), "server.log".to_string());
    assert_eq!(c.level, mcp_ectors::config::LogLevel::Info);
    assert_eq!(c.log_dir, "logs");
    assert_eq!(c.log_file, "server.log");
}
