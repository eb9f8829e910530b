//! The router side of a forwarded request: which capability a request
//! invokes, the error envelopes for what goes wrong there, and the built-in
//! `system` router.
use vstd::prelude::*;
use crate::dispatch::str_eq;
use crate::naming::opt_view;
use crate::lists::{Resource, Tool, Prompt};
use crate::capabilities::{CapabilitiesBuilder, ServerCapabilities, ResourcesCapability};
use crate::rpc::{
    JsonRpcError, JsonRpcUtils, error_is, error_detail, error_detail_text, json_quoted,
    JSON_RPC_INVALID_PARAMS, JSON_RPC_INTERNAL_ERROR,
};

verus! {

/// The capability that a forwarded request invokes.
pub enum RouterCall {
    CallTool(String),
    ListTools,
    ListResources,
    ReadResource(String),
    ListPrompts,
    GetPrompt(String),
}

/// Why a forwarded request invokes nothing.
#[derive(PartialEq, Eq, Structural, Debug, Clone, Copy)]
pub enum RouterCallError {
    /// `tools/call` without a name.
    MissingToolName,
    /// `resources/read` without a URI.
    MissingUri,
    /// `prompts/get` without a name.
    MissingPromptName,
    /// A method that routers do not serve.
    Unsupported,
}

/// The capability that `method` invokes, given the request's `params.name`
/// and `params.uri` where they are strings.
pub open spec fn router_call_spec(method: Seq<char>, has_name: bool, has_uri: bool) -> Result<
    (),
    RouterCallError,
> {
    if method == "tools/call"@ {
        if has_name {
            Ok(())
        } else {
            Err(RouterCallError::MissingToolName)
        }
    } else if method == "resources/read"@ {
        if has_uri {
            Ok(())
        } else {
            Err(RouterCallError::MissingUri)
        }
    } else if method == "prompts/get"@ {
        if has_name {
            Ok(())
        } else {
            Err(RouterCallError::MissingPromptName)
        }
    } else if method == "tools/list"@ || method == "resources/list"@ || method
        == "prompts/list"@ {
        Ok(())
    } else {
        Err(RouterCallError::Unsupported)
    }
}

/// Decodes a forwarded request into the capability it invokes.
pub fn router_call(method: &str, name: Option<String>, uri: Option<String>) -> (r: Result<
    RouterCall,
    RouterCallError,
>)
    ensures
        match router_call_spec(method@, name is Some, uri is Some) {
            Err(e) => r == Err::<RouterCall, RouterCallError>(e),
            Ok(()) => r is Ok,
        },
        r matches Ok(RouterCall::CallTool(n)) ==> method@ == "tools/call"@ && name == Some(n),
        r matches Ok(RouterCall::ReadResource(u)) ==> method@ == "resources/read"@ && uri == Some(u),
        r matches Ok(RouterCall::GetPrompt(n)) ==> method@ == "prompts/get"@ && name == Some(n),
        r matches Ok(RouterCall::ListTools) ==> method@ == "tools/list"@,
        r matches Ok(RouterCall::ListResources) ==> method@ == "resources/list"@,
        r matches Ok(RouterCall::ListPrompts) ==> method@ == "prompts/list"@,
{
    if str_eq(method, "tools/call") {
        match name {
            Some(n) => Ok(RouterCall::CallTool(n)),
            None => Err(RouterCallError::MissingToolName),
        }
    } else if str_eq(method, "resources/read") {
        match uri {
            Some(u) => Ok(RouterCall::ReadResource(u)),
            None => Err(RouterCallError::MissingUri),
        }
    } else if str_eq(method, "prompts/get") {
        match name {
            Some(n) => Ok(RouterCall::GetPrompt(n)),
            None => Err(RouterCallError::MissingPromptName),
        }
    } else if str_eq(method, "tools/list") {
        Ok(RouterCall::ListTools)
    } else if str_eq(method, "resources/list") {
        Ok(RouterCall::ListResources)
    } else if str_eq(method, "prompts/list") {
        Ok(RouterCall::ListPrompts)
    } else {
        Err(RouterCallError::Unsupported)
    }
}

/// The message of the error for a request that invokes nothing.
pub open spec fn call_error_text(e: RouterCallError) -> Seq<char> {
    match e {
        RouterCallError::MissingToolName => "Invalid parameters for call_tool"@,
        RouterCallError::MissingUri => "Invalid parameters for read resource"@,
        RouterCallError::MissingPromptName => "Invalid parameters for call_prompt"@,
        RouterCallError::Unsupported => "unsupported method"@,
    }
}

/// The error envelope for a request that invokes nothing: `INVALID_PARAMS`.
pub fn router_call_error(id: Option<u64>, e: RouterCallError) -> (r: JsonRpcError)
    ensures
        error_is(r, id, JSON_RPC_INVALID_PARAMS, call_error_text(e)),
        r.error.data is None,
{
    let message = match e {
        RouterCallError::MissingToolName => "Invalid parameters for call_tool",
        RouterCallError::MissingUri => "Invalid parameters for read resource",
        RouterCallError::MissingPromptName => "Invalid parameters for call_prompt",
        RouterCallError::Unsupported => "unsupported method",
    };
    JsonRpcUtils::error_response(id, JSON_RPC_INVALID_PARAMS, message, None)
}

/// Which capability failed while a router carried it out.
#[derive(PartialEq, Eq, Structural, Debug, Clone, Copy)]
pub enum ExecutionKind {
    Tool,
    Resource,
    Prompt,
}

/// The message of the error for a failed execution.
pub open spec fn execution_error_text(kind: ExecutionKind) -> Seq<char> {
    match kind {
        ExecutionKind::Tool => "Tool execution failed"@,
        ExecutionKind::Resource => "Resource execution failed"@,
        ExecutionKind::Prompt => "Prompt execution failed"@,
    }
}

/// The error envelope for a router that failed to carry out a request:
/// `INTERNAL_ERROR`, with the router's own error as `{"error": <detail>}`.
pub fn execution_error(id: Option<u64>, kind: ExecutionKind, detail: &str) -> (r: JsonRpcError)
    ensures
        error_is(r, id, JSON_RPC_INTERNAL_ERROR, execution_error_text(kind)),
        r.error.data matches Some(d) && d@ == error_detail_text(json_quoted(detail@)),
{
    let message = match kind {
        ExecutionKind::Tool => "Tool execution failed",
        ExecutionKind::Resource => "Resource execution failed",
        ExecutionKind::Prompt => "Prompt execution failed",
    };
    JsonRpcUtils::error_response(id, JSON_RPC_INTERNAL_ERROR, message, Some(error_detail(detail)))
}

/// A failure of a tool call.
pub enum ToolError {
    NotFound(String),
    InvalidParameters(String),
    ExecutionError(String),
    SchemaError(String),
}

/// A failure of a prompt fetch.
pub enum PromptError {
    InvalidParameters(String),
    NotFound(String),
    InternalError(String),
}

/// A failure of a resource read.
pub enum ResourceError {
    NotFound(String),
    ExecutionError(String),
}

/// Text that a resource holds.
pub struct TextResourceContents {
    pub uri: String,
    pub mime_type: Option<String>,
    pub text: String,
}

/// The catalog of the routers `ids`: a heading, then one line per router.
pub open spec fn catalog_text(ids: Seq<Seq<char>>) -> Seq<char>
    decreases ids.len(),
{
    if ids.len() == 0 {
        "This multi-router mcp server has these routers installed:\n"@
    } else {
        catalog_text(ids.drop_last()) + "- "@ + ids.last() + "\n"@
    }
}

/// The built-in router `system`: it answers for the server itself.
pub struct SystemRouter {}

impl SystemRouter {
    pub fn new() -> (r: Self) {
        SystemRouter {  }
    }

    /// The router's id.
    pub fn name(&self) -> (r: String)
        ensures
            r@ == "system"@,
    {
        String::from_str("system")
    }

    /// How to use the router.
    pub fn instructions(&self) -> (r: String)
        ensures
            r@ == "This is the system router who offers information about what is installed in this server. To get a list do resources/read uri: system_all"@,
    {
        String::from_str(
            "This is the system router who offers information about what is installed in this server. To get a list do resources/read uri: system_all",
        )
    }

    /// It offers resources, which may change.
    pub fn capabilities(&self) -> (r: ServerCapabilities)
        ensures
            r == (ServerCapabilities {
                tools: None,
                prompts: None,
                resources: Some(
                    ResourcesCapability { subscribe: Some(true), list_changed: Some(true) },
                ),
            }),
    {
        CapabilitiesBuilder::new().with_resources(true, true).build()
    }

    /// It offers no tool.
    pub fn list_tools(&self) -> (r: Vec<Tool>)
        ensures
            r@.len() == 0,
    {
        Vec::new()
    }

    /// It offers no prompt.
    pub fn list_prompts(&self) -> (r: Vec<Prompt>)
        ensures
            r@.len() == 0,
    {
        Vec::new()
    }

    /// It offers one resource, `all`: the catalog.
    pub fn list_resources(&self) -> (r: Vec<Resource>)
        ensures
            r@.len() == 1,
            r@[0].uri@ == "all"@,
            r@[0].mime_type@ == "text/plain"@,
    {
        let mut r: Vec<Resource> = Vec::new();
        r.push(
            Resource {
                uri: String::from_str("all"),
                name: String::from_str(
                    "all resources, prompts, tools,... registered in this mcp multi router server",
                ),
                description: Some(
                    String::from_str(
                        "this gives a description of all the resources, prompts, tools,... which different routers offer that have been installed in this multi-router mcp server.",
                    ),
                ),
                mime_type: String::from_str("text/plain"),
                annotations: None,
            },
        );
        r
    }

    /// Every tool call fails: there is no tool.
    pub fn call_tool(&self, tool_name: &str) -> (r: Result<(), ToolError>)
        ensures
            r matches Err(ToolError::NotFound(m)) && m@ == "Tool "@ + tool_name@ + " not found"@,
    {
        let mut m = String::from_str("Tool ");
        m.append(tool_name);
        m.append(" not found");
        Err(ToolError::NotFound(m))
    }

    /// Reads the resource `uri`: `all` gives the catalog of the routers
    /// `installed`; any other URI is not found.
    pub fn read_resource(&self, uri: &str, installed: &Vec<String>) -> (r: Result<
        TextResourceContents,
        ResourceError,
    >)
        ensures
            uri@ == "all"@ ==> (r matches Ok(c) && c.uri@ == "all"@ && c.text@ == catalog_text(
                installed@.map_values(|s: String| s@),
            ) && opt_view(c.mime_type) == Some("text/plain"@)),
            uri@ != "all"@ ==> (r matches Err(ResourceError::NotFound(m)) && m@ == "Resource "@
                + uri@ + " not found"@),
    {
        if !str_eq(uri, "all") {
            let mut m = String::from_str("Resource ");
            m.append(uri);
            m.append(" not found");
            return Err(ResourceError::NotFound(m));
        }
        let ghost ids = installed@.map_values(|s: String| s@);
        let mut text = String::from_str(
            "This multi-router mcp server has these routers installed:\n",
        );
        let mut i: usize = 0;
        assert(ids.take(0) =~= Seq::<Seq<char>>::empty());
        while i < installed.len()
            invariant
                0 <= i <= installed@.len(),
                ids == installed@.map_values(|s: String| s@),
                text@ == catalog_text(ids.take(i as int)),
            decreases installed@.len() - i,
        {
            text.append("- ");
            text.append(installed[i].as_str());
            text.append("\n");
            proof {
                let t = ids.take(i + 1);
                assert(t.drop_last() =~= ids.take(i as int));
                assert(t.last() == installed@[i as int]@);
            }
            i = i + 1;
        }
        assert(ids.take(i as int) =~= ids);
        Ok(
            TextResourceContents {
                uri: String::from_str("all"),
                mime_type: Some(String::from_str("text/plain")),
                text,
            },
        )
    }
}

} // verus!
