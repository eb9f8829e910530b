//! JSON-RPC 2.0 error envelopes and the codes this server uses.
use vstd::prelude::*;

verus! {

pub const JSON_RPC_PARSE_ERROR: i32 = -32700;

pub const JSON_RPC_INVALID_REQUEST: i32 = -32600;

pub const JSON_RPC_METHOD_NOT_FOUND: i32 = -32601;

pub const JSON_RPC_INVALID_PARAMS: i32 = -32602;

pub const JSON_RPC_INTERNAL_ERROR: i32 = -32603;

/// Start of the range -32000 to -32099 that applications may use.
pub const JSON_RPC_APPLICATION_ERROR_START: i32 = -32000;

pub const MCP_INVALID_REQUEST: i32 = 100;

pub const MCP_INVALID_METHOD: i32 = 101;

pub const MCP_INVALID_PARAMS: i32 = 102;

pub const MCP_AUTH_ERROR: i32 = 103;

pub const MCP_TIMEOUT_ERROR: i32 = 104;

pub const MCP_INTERNAL_SERVER_ERROR: i32 = 105;

pub const MCP_SERVICE_UNAVAILABLE: i32 = 106;

pub const MCP_FORBIDDEN_ERROR: i32 = 107;

/// The protocol version that every envelope carries: `2.0`.
pub open spec fn jsonrpc_version() -> Seq<char> {
    seq!['2', '.', '0']
}

/// What `s` reads as a JSON string literal.
pub uninterp spec fn json_quoted(s: Seq<char>) -> Seq<char>;

/// Relies on `serde_json::to_string` on a `&str`: it writes the string as a
/// JSON string literal, with the escapes JSON asks for; writing into a
/// `String` cannot fail.
#[verifier::external_body]
pub(crate) fn quote_json(s: &str) -> (r: String)
    ensures
        r@ == json_quoted(s@),
{
    serde_json::to_string(s).unwrap_or_default()
}

/// The error member of an error envelope. `data`, if present, is JSON text.
pub struct ErrorData {
    pub code: i32,
    pub message: String,
    pub data: Option<String>,
}

/// A JSON-RPC error envelope.
pub struct JsonRpcError {
    pub jsonrpc: String,
    pub id: Option<u64>,
    pub error: ErrorData,
}

/// A JSON-RPC 2.0 error object: version `2.0`, with the given id, code and
/// message.
pub open spec fn error_is(e: JsonRpcError, id: Option<u64>, code: i32, message: Seq<char>) -> bool {
    &&& e.jsonrpc@ == jsonrpc_version()
    &&& e.id == id
    &&& e.error.code == code
    &&& e.error.message@ == message
}

/// `e` is a well-formed JSON-RPC 2.0 error object.
pub open spec fn valid_error(e: JsonRpcError) -> bool {
    e.jsonrpc@ == jsonrpc_version()
}

/// The protocol version string.
pub fn version_string() -> (r: String)
    ensures
        r@ == jsonrpc_version(),
{
    let r = String::from_str("2.0");
    proof {
        reveal_strlit("2.0");
    }
    r
}

/// `"{\"error\":" + quoted + "}"`: the data member that carries an error's
/// detail, given the detail already written as a JSON string literal.
pub open spec fn error_detail_text(quoted: Seq<char>) -> Seq<char> {
    seq!['{', '"', 'e', 'r', 'r', 'o', 'r', '"', ':'] + quoted + seq!['}']
}

/// Wraps a JSON string literal as `{"error": <literal>}`.
pub fn error_detail_from_quoted(quoted: &str) -> (r: String)
    ensures
        r@ == error_detail_text(quoted@),
{
    let mut r = String::from_str("{\"error\":");
    r.append(quoted);
    r.append("}");
    proof {
        reveal_strlit("{\"error\":");
        reveal_strlit("}");
        assert(r@ =~= error_detail_text(quoted@));
    }
    r
}

/// `{"error": <detail as a JSON string>}`.
pub fn error_detail(detail: &str) -> (r: String)
    ensures
        r@ == error_detail_text(json_quoted(detail@)),
{
    let q = quote_json(detail);
    error_detail_from_quoted(q.as_str())
}

/// `"Method '" + method + "' not found"`.
pub open spec fn method_not_found_text(method: Seq<char>) -> Seq<char> {
    "Method '"@ + method + "' not found"@
}

/// Builders of error envelopes.
pub struct JsonRpcUtils;

impl JsonRpcUtils {
    /// An error envelope with the given id, code, message and data.
    pub fn error_response(id: Option<u64>, code: i32, message: &str, data: Option<String>) -> (r:
        JsonRpcError)
        ensures
            error_is(r, id, code, message@),
            r.error.data == data,
    {
        JsonRpcError {
            jsonrpc: version_string(),
            id,
            error: ErrorData { code, message: String::from_str(message), data },
        }
    }

    /// The error for a request that is not valid JSON-RPC, with no id; the
    /// detail, if given, becomes the data, as a JSON string.
    pub fn invalid_request(detail: Option<String>) -> (r: JsonRpcError)
        ensures
            error_is(r, None, JSON_RPC_INVALID_REQUEST, "Invalid JSON-RPC request"@),
            r.error.data matches Some(d) ==> detail matches Some(t) && d@ == json_quoted(t@),
            r.error.data is None <==> detail is None,
    {
        let data = match detail {
            Some(d) => Some(quote_json(d.as_str())),
            None => None,
        };
        Self::error_response(None, JSON_RPC_INVALID_REQUEST, "Invalid JSON-RPC request", data)
    }

    /// The error for a method that no component serves.
    pub fn method_not_found(id: u64, method: &str) -> (r: JsonRpcError)
        ensures
            error_is(r, Some(id), JSON_RPC_METHOD_NOT_FOUND, method_not_found_text(method@)),
            r.error.data is None,
    {
        let mut message = String::from_str("Method '");
        message.append(method);
        message.append("' not found");
        Self::error_response(Some(id), JSON_RPC_METHOD_NOT_FOUND, message.as_str(), None)
    }

    /// The error for a failure inside the server; the detail, if given,
    /// becomes the data, as a JSON string.
    pub fn internal_error(id: Option<u64>, detail: Option<String>) -> (r: JsonRpcError)
        ensures
            error_is(r, id, JSON_RPC_INTERNAL_ERROR, "Internal server error"@),
            r.error.data matches Some(d) ==> detail matches Some(t) && d@ == json_quoted(t@),
            r.error.data is None <==> detail is None,
    {
        let data = match detail {
            Some(d) => Some(quote_json(d.as_str())),
            None => None,
        };
        Self::error_response(id, JSON_RPC_INTERNAL_ERROR, "Internal server error", data)
    }
}

} // verus!
