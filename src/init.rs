//! The answer to `initialize`: protocol version, capabilities, server
//! identity and instructions.
use vstd::prelude::*;
use crate::capabilities::{ServerCapabilities, CapabilitiesBuilder, ToolsCapability, PromptsCapability, ResourcesCapability};
use crate::rpc::{jsonrpc_version, version_string};

verus! {

/// The server's name.
pub open spec fn server_name() -> Seq<char> {
    "Multi MCP Router Server"@
}

/// The server's version.
pub open spec fn server_version() -> Seq<char> {
    "0.1.0"@
}

/// The protocol version the server speaks.
pub open spec fn protocol_version() -> Seq<char> {
    "2024-11-05"@
}

/// The usage instructions handed to every client.
pub open spec fn instructions_text() -> Seq<char> {
    "Please initialize your session. A multi mcp router server allows many routers to be installed. You can see this in the name of prompts and tools. They are formatted routerid_prompt_name or routerid_tool_name. The same for resource which are routerid_uri. To get a list of what this server offers call resources/read with uri system_all to understand which tools, prompts and resources this multi mcp router server has installed and what they do."@
}

/// The capabilities the server as a whole declares.
pub open spec fn server_capabilities() -> ServerCapabilities {
    ServerCapabilities {
        tools: Some(ToolsCapability { list_changed: Some(true) }),
        prompts: Some(PromptsCapability { list_changed: Some(true) }),
        resources: Some(ResourcesCapability { subscribe: Some(true), list_changed: Some(true) }),
    }
}

/// The result member of the answer to `initialize`.
pub struct InitializeResult {
    pub protocol_version: String,
    pub capabilities: ServerCapabilities,
    /// Whether the `logging` capability is declared.
    pub logging: bool,
    pub server_name: String,
    pub server_version: String,
    pub instructions: Option<String>,
}

/// The answer to `initialize`.
pub struct InitializeResponse {
    pub jsonrpc: String,
    pub id: Option<u64>,
    pub result: InitializeResult,
}

/// An answer with no result member.
pub struct EmptyResponse {
    pub jsonrpc: String,
    pub id: Option<u64>,
}

/// A result with no members.
#[derive(PartialEq, Eq, Structural, Debug, Clone, Copy)]
pub struct EmptyResult {}

/// The initialization service.
pub struct InitializationActor {
    pub server_capabilities: ServerCapabilities,
    pub logging: bool,
    pub protocol_version: String,
    pub server_info: (String, String),
    pub instructions: Option<String>,
}

impl InitializationActor {
    /// The service with the server's own identity, capabilities and
    /// instructions.
    pub fn new() -> (r: Self)
        ensures
            r.server_capabilities == server_capabilities(),
            r.logging,
            r.protocol_version@ == protocol_version(),
            r.server_info.0@ == server_name(),
            r.server_info.1@ == server_version(),
            r.instructions matches Some(t) && t@ == instructions_text(),
    {
        let caps = CapabilitiesBuilder::new().with_prompts(true).with_resources(true, true).with_tools(
            true,
        ).build();
        InitializationActor {
            server_capabilities: caps,
            logging: true,
            protocol_version: String::from_str("2024-11-05"),
            server_info: (String::from_str("Multi MCP Router Server"), String::from_str("0.1.0")),
            instructions: Some(
                String::from_str(
                    "Please initialize your session. A multi mcp router server allows many routers to be installed. You can see this in the name of prompts and tools. They are formatted routerid_prompt_name or routerid_tool_name. The same for resource which are routerid_uri. To get a list of what this server offers call resources/read with uri system_all to understand which tools, prompts and resources this multi mcp router server has installed and what they do.",
                ),
            ),
        }
    }

    /// The answer to `initialize` with request id `id`.
    pub fn handle_initialize_request(&self, id: Option<u64>) -> (r: InitializeResponse)
        ensures
            r.jsonrpc@ == jsonrpc_version(),
            r.id == id,
            r.result.protocol_version@ == self.protocol_version@,
            r.result.capabilities == self.server_capabilities,
            r.result.logging == self.logging,
            r.result.server_name@ == self.server_info.0@,
            r.result.server_version@ == self.server_info.1@,
            match self.instructions {
                Some(t) => r.result.instructions matches Some(u) && u@ == t@,
                None => r.result.instructions is None,
            },
    {
        let instructions = match &self.instructions {
            Some(t) => Some(t.clone()),
            None => None,
        };
        InitializeResponse {
            jsonrpc: version_string(),
            id,
            result: InitializeResult {
                protocol_version: self.protocol_version.clone(),
                capabilities: self.server_capabilities,
                logging: self.logging,
                server_name: self.server_info.0.clone(),
                server_version: self.server_info.1.clone(),
                instructions,
            },
        }
    }

    /// The answer to `notifications/initialized` with request id `id`: an
    /// empty success.
    pub fn handle_initialized_notification_request(&self, id: Option<u64>) -> (r: EmptyResponse)
        ensures
            r.jsonrpc@ == jsonrpc_version(),
            r.id == id,
    {
        EmptyResponse { jsonrpc: version_string(), id }
    }
}

} // verus!
