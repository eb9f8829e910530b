//! JSON-RPC messages: telling requests, notifications, responses and errors
//! apart by the members a message carries.
use vstd::prelude::*;
use crate::rpc::{ErrorData, JsonRpcError, jsonrpc_version};
use crate::transport::{decimal, decimal_string};

verus! {

/// A message with every member optional, as it arrives. `params` and
/// `result`, where present, are JSON text.
pub struct JsonRpcRaw {
    pub jsonrpc: String,
    pub id: Option<u64>,
    pub method: Option<String>,
    pub params: Option<String>,
    pub result: Option<String>,
    pub error: Option<ErrorData>,
}

pub struct JsonRpcRequest {
    pub jsonrpc: String,
    pub id: Option<u64>,
    pub method: String,
    pub params: Option<String>,
}

pub struct JsonRpcNotification {
    pub jsonrpc: String,
    pub method: String,
    pub params: Option<String>,
}

pub struct JsonRpcResponse {
    pub jsonrpc: String,
    pub id: Option<u64>,
    pub result: Option<String>,
    pub error: Option<ErrorData>,
}

/// A JSON-RPC message of a known kind.
pub enum JsonRpcMessage {
    Request(JsonRpcRequest),
    Response(JsonRpcResponse),
    Notification(JsonRpcNotification),
    Error(JsonRpcError),
    /// A message with neither id, method, result nor error.
    Nil,
}

/// The complaint about a message with an id but nothing else that gives it
/// a kind.
pub open spec fn invalid_format_text(id: u64) -> Seq<char> {
    "Invalid JSON-RPC message format: id=Some("@ + decimal(id as nat)
        + "), method=None, result=None, error=None"@
}

/// The kind of `raw`: an error member makes it an error; else a result
/// makes it a response; else a method makes it a request, or a notification
/// where it has no id; else, with no id either, it is `Nil`. A message with
/// an id and nothing more has no kind.
pub fn message_from_raw(raw: JsonRpcRaw) -> (r: Result<JsonRpcMessage, String>)
    ensures
        raw.error is Some ==> r == Ok::<JsonRpcMessage, String>(
            JsonRpcMessage::Error(
                JsonRpcError { jsonrpc: raw.jsonrpc, id: raw.id, error: raw.error->0 },
            ),
        ),
        raw.error is None && raw.result is Some ==> r == Ok::<JsonRpcMessage, String>(
            JsonRpcMessage::Response(
                JsonRpcResponse {
                    jsonrpc: raw.jsonrpc,
                    id: raw.id,
                    result: raw.result,
                    error: None,
                },
            ),
        ),
        raw.error is None && raw.result is None && raw.method is Some && raw.id is None ==> r
            == Ok::<JsonRpcMessage, String>(
            JsonRpcMessage::Notification(
                JsonRpcNotification {
                    jsonrpc: raw.jsonrpc,
                    method: raw.method->0,
                    params: raw.params,
                },
            ),
        ),
        raw.error is None && raw.result is None && raw.method is Some && raw.id is Some ==> r
            == Ok::<JsonRpcMessage, String>(
            JsonRpcMessage::Request(
                JsonRpcRequest {
                    jsonrpc: raw.jsonrpc,
                    id: raw.id,
                    method: raw.method->0,
                    params: raw.params,
                },
            ),
        ),
        raw.error is None && raw.result is None && raw.method is None && raw.id is None ==> r
            == Ok::<JsonRpcMessage, String>(JsonRpcMessage::Nil),
        raw.error is None && raw.result is None && raw.method is None && raw.id is Some ==> (
        r matches Err(m) && m@ == invalid_format_text(raw.id->0)),
{
    let JsonRpcRaw { jsonrpc, id, method, params, result, error } = raw;
    if let Some(e) = error {
        return Ok(JsonRpcMessage::Error(JsonRpcError { jsonrpc, id, error: e }));
    }
    if result.is_some() {
        return Ok(
            JsonRpcMessage::Response(JsonRpcResponse { jsonrpc, id, result, error: None }),
        );
    }
    if let Some(m) = method {
        if id.is_none() {
            return Ok(
                JsonRpcMessage::Notification(JsonRpcNotification { jsonrpc, method: m, params }),
            );
        }
        return Ok(JsonRpcMessage::Request(JsonRpcRequest { jsonrpc, id, method: m, params }));
    }
    match id {
        None => Ok(JsonRpcMessage::Nil),
        Some(n) => {
            let mut text = String::from_str("Invalid JSON-RPC message format: id=Some(");
            let d = decimal_string(n);
            text.append(d.as_str());
            text.append("), method=None, result=None, error=None");
            Err(text)
        },
    }
}

/// The kind of an MCP message.
#[derive(PartialEq, Eq, Structural, Debug, Clone, Copy)]
pub enum McpKind {
    Request,
    Response,
    Notification,
}

/// Why a value is no MCP message.
#[derive(PartialEq, Eq, Structural, Debug, Clone, Copy)]
pub enum McpKindError {
    /// The `jsonrpc` member is there and is not `2.0`.
    InvalidVersion,
    /// Neither a method nor an id.
    Unknown,
}

/// The kind of an MCP message, from its `jsonrpc` member (where it is
/// present, `Some(true)` when it is `"2.0"`), whether its `method` is a
/// string, and whether it has an `id`.
pub open spec fn mcp_kind_spec(version_ok: Option<bool>, has_method: bool, has_id: bool) -> Result<
    McpKind,
    McpKindError,
> {
    if version_ok == Some(false) {
        Err(McpKindError::InvalidVersion)
    } else if has_method {
        if has_id {
            Ok(McpKind::Request)
        } else {
            Ok(McpKind::Notification)
        }
    } else if has_id {
        Ok(McpKind::Response)
    } else {
        Err(McpKindError::Unknown)
    }
}

/// Whether `v` is the protocol version `2.0`.
pub fn is_version(v: &str) -> (r: bool)
    ensures
        r == (v@ == jsonrpc_version()),
{
    let r = crate::dispatch::str_eq(v, "2.0");
    proof {
        reveal_strlit("2.0");
        assert("2.0"@ =~= jsonrpc_version());
    }
    r
}

/// The kind of an MCP message, from what it carries.
pub fn mcp_kind(version_ok: Option<bool>, has_method: bool, has_id: bool) -> (r: Result<
    McpKind,
    McpKindError,
>)
    ensures
        r == mcp_kind_spec(version_ok, has_method, has_id),
{
    if version_ok == Some(false) {
        Err(McpKindError::InvalidVersion)
    } else if has_method {
        if has_id {
            Ok(McpKind::Request)
        } else {
            Ok(McpKind::Notification)
        }
    } else if has_id {
        Ok(McpKind::Response)
    } else {
        Err(McpKindError::Unknown)
    }
}

} // verus!
