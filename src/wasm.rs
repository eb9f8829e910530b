//! The mailbox protocol of a sandboxed router. Each component runs on a
//! context of its own that takes one request at a time from its mailbox and
//! sends one response back; this module holds what crosses the mailbox, the
//! response built from the outcome of each call into the component, and
//! how a caller reads a response.
use vstd::prelude::*;
use crate::convert::KeyValue;
use crate::lists::{Tool, Resource, Prompt};
use crate::capabilities::ServerCapabilities;
use crate::content::{
    GuestTool, GuestResource, GuestCallToolResult, GuestGetPromptResult, CallToolResult,
    GetPromptResult, ReadResourceResult, Content, GuestContent, PromptMessage, GuestPromptMessage,
    tools_from_guest, resources_from_guest, call_tool_result_from_guest,
    get_prompt_result_from_guest, all_match, tool_match, resource_match, content_match,
    prompt_message_match,
};
use crate::router::{ToolError, ResourceError, PromptError};

verus! {

/// A request to a component.
pub enum WasmRequest {
    GetName,
    GetInstructions,
    ListTools,
    ListResources,
    ListPrompts,
    ReadResource(String),
    GetPrompt(String),
    /// A tool call: the tool's name and its arguments as key and data.
    CallTool(String, KeyValue),
    Capabilities,
}

/// A response from a component's context.
pub enum WasmResponse {
    Name(String),
    Instructions(String),
    Tools(Vec<Tool>),
    Prompts(Vec<Prompt>),
    GetPromptResult(GetPromptResult),
    CallToolResult(CallToolResult),
    Resources(Vec<Resource>),
    ReadResource(ReadResourceResult),
    Capabilities(ServerCapabilities),
    RetToolError(ToolError),
    RetResourceError(ResourceError),
    RetPromptError(PromptError),
    /// The host failed: a trap, a failed conversion, a dropped mailbox.
    Error(String),
}

/// The request for a tool call. `arguments` is the first member of the
/// arguments object where that member is a string; without it the
/// component gets an empty key and data.
pub fn call_tool_request(name: String, arguments: Option<KeyValue>) -> (r: WasmRequest)
    ensures
        r matches WasmRequest::CallTool(n, kv) && n == name && match arguments {
            Some(a) => kv == a,
            None => kv.key@.len() == 0 && kv.data@.len() == 0,
        },
{
    let kv = match arguments {
        Some(a) => a,
        None => KeyValue { key: String::new(), data: String::new() },
    };
    WasmRequest::CallTool(name, kv)
}

/// The argument of a tool call, from the first member of the arguments
/// object: its key, and its value where that is a string.
pub fn key_value_from_member(member: Option<(String, Option<String>)>) -> (r: Option<KeyValue>)
    ensures
        match member {
            Some((k, Some(d))) => r == Some(KeyValue { key: k, data: d }),
            _ => r is None,
        },
{
    match member {
        Some((key, Some(data))) => Some(KeyValue { key, data }),
        _ => None,
    }
}

// ---- the context's side: the response to each call's outcome ----

pub fn respond_name(outcome: Result<String, String>) -> (r: WasmResponse)
    ensures
        match outcome {
            Ok(n) => r == WasmResponse::Name(n),
            Err(e) => r == WasmResponse::Error(e),
        },
{
    match outcome {
        Ok(n) => WasmResponse::Name(n),
        Err(e) => WasmResponse::Error(e),
    }
}

pub fn respond_instructions(outcome: Result<String, String>) -> (r: WasmResponse)
    ensures
        match outcome {
            Ok(n) => r == WasmResponse::Instructions(n),
            Err(e) => r == WasmResponse::Error(e),
        },
{
    match outcome {
        Ok(n) => WasmResponse::Instructions(n),
        Err(e) => WasmResponse::Error(e),
    }
}

pub fn respond_tools(outcome: Result<Vec<GuestTool>, String>) -> (r: WasmResponse)
    ensures
        match outcome {
            Ok(g) => r matches WasmResponse::Tools(t) && all_match(
                t@,
                g@,
                |a: Tool, b: GuestTool| tool_match(a, b),
            ),
            Err(e) => r == WasmResponse::Error(e),
        },
{
    match outcome {
        Ok(g) => WasmResponse::Tools(tools_from_guest(g)),
        Err(e) => WasmResponse::Error(e),
    }
}

pub fn respond_resources(outcome: Result<Vec<GuestResource>, String>) -> (r: WasmResponse)
    ensures
        match outcome {
            Ok(g) => r matches WasmResponse::Resources(t) && all_match(
                t@,
                g@,
                |a: Resource, b: GuestResource| resource_match(a, b),
            ),
            Err(e) => r == WasmResponse::Error(e),
        },
{
    match outcome {
        Ok(g) => WasmResponse::Resources(resources_from_guest(g)),
        Err(e) => WasmResponse::Error(e),
    }
}

pub fn respond_prompts(outcome: Result<Vec<Prompt>, String>) -> (r: WasmResponse)
    ensures
        match outcome {
            Ok(p) => r == WasmResponse::Prompts(p),
            Err(e) => r == WasmResponse::Error(e),
        },
{
    match outcome {
        Ok(p) => WasmResponse::Prompts(p),
        Err(e) => WasmResponse::Error(e),
    }
}

pub fn respond_capabilities(outcome: Result<ServerCapabilities, String>) -> (r: WasmResponse)
    ensures
        match outcome {
            Ok(c) => r == WasmResponse::Capabilities(c),
            Err(e) => r == WasmResponse::Error(e),
        },
{
    match outcome {
        Ok(c) => WasmResponse::Capabilities(c),
        Err(e) => WasmResponse::Error(e),
    }
}

/// `"Failed to read resource: " + e`.
pub open spec fn read_failure_text(e: Seq<char>) -> Seq<char> {
    "Failed to read resource: "@ + e
}

pub fn respond_read_resource(outcome: Result<Result<ReadResourceResult, ResourceError>, String>) -> (r:
    WasmResponse)
    ensures
        match outcome {
            Ok(Ok(x)) => r == WasmResponse::ReadResource(x),
            Ok(Err(e)) => r == WasmResponse::RetResourceError(e),
            Err(e) => r matches WasmResponse::Error(m) && m@ == read_failure_text(e@),
        },
{
    match outcome {
        Ok(Ok(x)) => WasmResponse::ReadResource(x),
        Ok(Err(e)) => WasmResponse::RetResourceError(e),
        Err(e) => {
            let mut m = String::from_str("Failed to read resource: ");
            m.append(e.as_str());
            WasmResponse::Error(m)
        },
    }
}

pub fn respond_get_prompt(outcome: Result<Result<GuestGetPromptResult, PromptError>, String>) -> (r:
    WasmResponse)
    ensures
        match outcome {
            Ok(Ok(g)) => r matches WasmResponse::GetPromptResult(x) && x.description
                == g.description && all_match(
                x.messages@,
                g.messages@,
                |a: PromptMessage, b: GuestPromptMessage| prompt_message_match(a, b),
            ),
            Ok(Err(e)) => r == WasmResponse::RetPromptError(e),
            Err(e) => r matches WasmResponse::Error(m) && m@ == read_failure_text(e@),
        },
{
    match outcome {
        Ok(Ok(g)) => WasmResponse::GetPromptResult(get_prompt_result_from_guest(g)),
        Ok(Err(e)) => WasmResponse::RetPromptError(e),
        Err(e) => {
            let mut m = String::from_str("Failed to read resource: ");
            m.append(e.as_str());
            WasmResponse::Error(m)
        },
    }
}

pub fn respond_call_tool(outcome: Result<Result<GuestCallToolResult, ToolError>, String>) -> (r:
    WasmResponse)
    ensures
        match outcome {
            Ok(Ok(g)) => r matches WasmResponse::CallToolResult(x) && x.is_error == g.is_error
                && all_match(
                x.content@,
                g.content@,
                |a: Content, b: GuestContent| content_match(a, b),
            ),
            Ok(Err(e)) => r == WasmResponse::RetToolError(e),
            Err(e) => r == WasmResponse::Error(e),
        },
{
    match outcome {
        Ok(Ok(g)) => WasmResponse::CallToolResult(call_tool_result_from_guest(g)),
        Ok(Err(e)) => WasmResponse::RetToolError(e),
        Err(e) => WasmResponse::Error(e),
    }
}

// ---- the caller's side: reading a response ----

/// The message for a response of another kind than the request asked for.
pub open spec fn unexpected_text() -> Seq<char> {
    "Unexpected response type"@
}

fn unexpected() -> (r: String)
    ensures
        r@ == unexpected_text(),
{
    String::from_str("Unexpected response type")
}

/// The name in a reply; `reply` is `Err` when the mailbox failed.
pub fn reply_name(reply: Result<WasmResponse, String>) -> (r: Result<String, String>)
    ensures
        match reply {
            Ok(WasmResponse::Name(n)) => r == Ok::<String, String>(n),
            Ok(WasmResponse::Error(e)) => r == Err::<String, String>(e),
            Err(e) => r == Err::<String, String>(e),
            Ok(_) => r matches Err(m) && m@ == unexpected_text(),
        },
{
    match reply {
        Ok(WasmResponse::Name(n)) => Ok(n),
        Ok(WasmResponse::Error(e)) => Err(e),
        Err(e) => Err(e),
        Ok(_) => Err(unexpected()),
    }
}

/// The instructions in a reply.
pub fn reply_instructions(reply: Result<WasmResponse, String>) -> (r: Result<String, String>)
    ensures
        match reply {
            Ok(WasmResponse::Instructions(n)) => r == Ok::<String, String>(n),
            Ok(WasmResponse::Error(e)) => r == Err::<String, String>(e),
            Err(e) => r == Err::<String, String>(e),
            Ok(_) => r matches Err(m) && m@ == unexpected_text(),
        },
{
    match reply {
        Ok(WasmResponse::Instructions(n)) => Ok(n),
        Ok(WasmResponse::Error(e)) => Err(e),
        Err(e) => Err(e),
        Ok(_) => Err(unexpected()),
    }
}

/// The tools in a reply.
pub fn reply_tools(reply: Result<WasmResponse, String>) -> (r: Result<Vec<Tool>, String>)
    ensures
        match reply {
            Ok(WasmResponse::Tools(t)) => r == Ok::<Vec<Tool>, String>(t),
            Ok(WasmResponse::Error(e)) => r == Err::<Vec<Tool>, String>(e),
            Err(e) => r == Err::<Vec<Tool>, String>(e),
            Ok(_) => r matches Err(m) && m@ == unexpected_text(),
        },
{
    match reply {
        Ok(WasmResponse::Tools(t)) => Ok(t),
        Ok(WasmResponse::Error(e)) => Err(e),
        Err(e) => Err(e),
        Ok(_) => Err(unexpected()),
    }
}

/// The resources in a reply.
pub fn reply_resources(reply: Result<WasmResponse, String>) -> (r: Result<Vec<Resource>, String>)
    ensures
        match reply {
            Ok(WasmResponse::Resources(t)) => r == Ok::<Vec<Resource>, String>(t),
            Ok(WasmResponse::Error(e)) => r == Err::<Vec<Resource>, String>(e),
            Err(e) => r == Err::<Vec<Resource>, String>(e),
            Ok(_) => r matches Err(m) && m@ == unexpected_text(),
        },
{
    match reply {
        Ok(WasmResponse::Resources(t)) => Ok(t),
        Ok(WasmResponse::Error(e)) => Err(e),
        Err(e) => Err(e),
        Ok(_) => Err(unexpected()),
    }
}

/// The prompts in a reply.
pub fn reply_prompts(reply: Result<WasmResponse, String>) -> (r: Result<Vec<Prompt>, String>)
    ensures
        match reply {
            Ok(WasmResponse::Prompts(t)) => r == Ok::<Vec<Prompt>, String>(t),
            Ok(WasmResponse::Error(e)) => r == Err::<Vec<Prompt>, String>(e),
            Err(e) => r == Err::<Vec<Prompt>, String>(e),
            Ok(_) => r matches Err(m) && m@ == unexpected_text(),
        },
{
    match reply {
        Ok(WasmResponse::Prompts(t)) => Ok(t),
        Ok(WasmResponse::Error(e)) => Err(e),
        Err(e) => Err(e),
        Ok(_) => Err(unexpected()),
    }
}

/// The capabilities in a reply.
pub fn reply_capabilities(reply: Result<WasmResponse, String>) -> (r: Result<
    ServerCapabilities,
    String,
>)
    ensures
        match reply {
            Ok(WasmResponse::Capabilities(c)) => r == Ok::<ServerCapabilities, String>(c),
            Ok(WasmResponse::Error(e)) => r == Err::<ServerCapabilities, String>(e),
            Err(e) => r == Err::<ServerCapabilities, String>(e),
            Ok(_) => r matches Err(m) && m@ == unexpected_text(),
        },
{
    match reply {
        Ok(WasmResponse::Capabilities(c)) => Ok(c),
        Ok(WasmResponse::Error(e)) => Err(e),
        Err(e) => Err(e),
        Ok(_) => Err(unexpected()),
    }
}

/// The outcome of a tool call in a reply: the component's own error stays
/// what it is; a host failure becomes an execution error.
pub fn reply_call_tool(reply: Result<WasmResponse, String>) -> (r: Result<CallToolResult, ToolError>)
    ensures
        match reply {
            Ok(WasmResponse::CallToolResult(x)) => r == Ok::<CallToolResult, ToolError>(x),
            Ok(WasmResponse::RetToolError(e)) => r == Err::<CallToolResult, ToolError>(e),
            Ok(WasmResponse::Error(e)) => r == Err::<CallToolResult, ToolError>(
                ToolError::ExecutionError(e),
            ),
            Err(e) => r == Err::<CallToolResult, ToolError>(ToolError::ExecutionError(e)),
            Ok(_) => r matches Err(ToolError::ExecutionError(m)) && m@ == unexpected_text(),
        },
{
    match reply {
        Ok(WasmResponse::CallToolResult(x)) => Ok(x),
        Ok(WasmResponse::RetToolError(e)) => Err(e),
        Ok(WasmResponse::Error(e)) => Err(ToolError::ExecutionError(e)),
        Err(e) => Err(ToolError::ExecutionError(e)),
        Ok(_) => Err(ToolError::ExecutionError(unexpected())),
    }
}

/// The outcome of a resource read in a reply.
pub fn reply_read_resource(reply: Result<WasmResponse, String>) -> (r: Result<
    ReadResourceResult,
    ResourceError,
>)
    ensures
        match reply {
            Ok(WasmResponse::ReadResource(x)) => r == Ok::<ReadResourceResult, ResourceError>(x),
            Ok(WasmResponse::RetResourceError(e)) => r == Err::<ReadResourceResult, ResourceError>(
                e,
            ),
            Ok(WasmResponse::Error(e)) => r == Err::<ReadResourceResult, ResourceError>(
                ResourceError::ExecutionError(e),
            ),
            Err(e) => r == Err::<ReadResourceResult, ResourceError>(
                ResourceError::ExecutionError(e),
            ),
            Ok(_) => r matches Err(ResourceError::ExecutionError(m)) && m@ == unexpected_text(),
        },
{
    match reply {
        Ok(WasmResponse::ReadResource(x)) => Ok(x),
        Ok(WasmResponse::RetResourceError(e)) => Err(e),
        Ok(WasmResponse::Error(e)) => Err(ResourceError::ExecutionError(e)),
        Err(e) => Err(ResourceError::ExecutionError(e)),
        Ok(_) => Err(ResourceError::ExecutionError(unexpected())),
    }
}

/// The outcome of a prompt fetch in a reply.
pub fn reply_get_prompt(reply: Result<WasmResponse, String>) -> (r: Result<
    GetPromptResult,
    PromptError,
>)
    ensures
        match reply {
            Ok(WasmResponse::GetPromptResult(x)) => r == Ok::<GetPromptResult, PromptError>(x),
            Ok(WasmResponse::RetPromptError(e)) => r == Err::<GetPromptResult, PromptError>(e),
            Ok(WasmResponse::Error(e)) => r == Err::<GetPromptResult, PromptError>(
                PromptError::InternalError(e),
            ),
            Err(e) => r == Err::<GetPromptResult, PromptError>(PromptError::InternalError(e)),
            Ok(_) => r matches Err(PromptError::InternalError(m)) && m@ == unexpected_text(),
        },
{
    match reply {
        Ok(WasmResponse::GetPromptResult(x)) => Ok(x),
        Ok(WasmResponse::RetPromptError(e)) => Err(e),
        Ok(WasmResponse::Error(e)) => Err(PromptError::InternalError(e)),
        Err(e) => Err(PromptError::InternalError(e)),
        Ok(_) => Err(PromptError::InternalError(unexpected())),
    }
}

} // verus!
