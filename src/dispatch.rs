//! The request dispatcher's decisions: which component serves a method, and
//! for the methods that a router serves, which router and under what local
//! name.
use vstd::prelude::*;
use crate::naming::{no_sep, qualified, router_part, local_part, lemma_split_qualified};
use crate::manager::RouterServiceManager;
use crate::rpc::{
    JsonRpcError, JsonRpcUtils, error_is, valid_error, method_not_found_text, JSON_RPC_INVALID_PARAMS,
    JSON_RPC_INTERNAL_ERROR, JSON_RPC_METHOD_NOT_FOUND, MCP_TIMEOUT_ERROR,
};

verus! {

/// Whether two strings hold the same characters.
pub fn str_eq(a: &str, b: &str) -> (r: bool)
    ensures
        r == (a@ == b@),
{
    let n = a.unicode_len();
    let m = b.unicode_len();
    if n != m {
        return false;
    }
    let mut i: usize = 0;
    while i < n
        invariant
            n == a@.len(),
            n == b@.len(),
            0 <= i <= n,
            forall|j: int| 0 <= j < i ==> a@[j] == b@[j],
        decreases n - i,
    {
        if a.get_char(i) != b.get_char(i) {
            return false;
        }
        i = i + 1;
    }
    assert(a@ =~= b@);
    true
}

/// The parameter that names the target of a router-served method.
#[derive(PartialEq, Eq, Structural, Debug, Clone, Copy)]
pub enum KeyField {
    /// `params.name`: tools and prompts.
    Name,
    /// `params.uri`: resources.
    Uri,
}

/// Which component serves a method.
#[derive(PartialEq, Eq, Structural, Debug, Clone, Copy)]
pub enum Route {
    Initialize,
    Initialized,
    ListTools,
    ListPrompts,
    ListResources,
    /// A router, chosen by the given parameter.
    Router(KeyField),
    /// No component: the method is unknown.
    Unknown,
}

/// The component that serves `method`.
pub open spec fn route_of(method: Seq<char>) -> Route {
    if method == "initialize"@ {
        Route::Initialize
    } else if method == "notifications/initialized"@ {
        Route::Initialized
    } else if method == "tools/list"@ {
        Route::ListTools
    } else if method == "prompts/list"@ {
        Route::ListPrompts
    } else if method == "resources/list"@ {
        Route::ListResources
    } else if method == "tools/call"@ || method == "prompts/get"@ || method
        == "resources/templates/list"@ {
        Route::Router(KeyField::Name)
    } else if method == "resources/read"@ || method == "resources/subscribe"@ || method
        == "resources/unsubscribe"@ {
        Route::Router(KeyField::Uri)
    } else {
        Route::Unknown
    }
}

/// The component that serves `method`.
pub fn route_method(method: &str) -> (r: Route)
    ensures
        r == route_of(method@),
{
    if str_eq(method, "initialize") {
        Route::Initialize
    } else if str_eq(method, "notifications/initialized") {
        Route::Initialized
    } else if str_eq(method, "tools/list") {
        Route::ListTools
    } else if str_eq(method, "prompts/list") {
        Route::ListPrompts
    } else if str_eq(method, "resources/list") {
        Route::ListResources
    } else if str_eq(method, "tools/call") || str_eq(method, "prompts/get") || str_eq(
        method,
        "resources/templates/list",
    ) {
        Route::Router(KeyField::Name)
    } else if str_eq(method, "resources/read") || str_eq(method, "resources/subscribe")
        || str_eq(method, "resources/unsubscribe") {
        Route::Router(KeyField::Uri)
    } else {
        Route::Unknown
    }
}

/// The key of a router-served request: the parameter that its method names.
pub open spec fn key_of(field: KeyField, name: Option<String>, uri: Option<String>) -> Option<
    String,
> {
    match field {
        KeyField::Name => name,
        KeyField::Uri => uri,
    }
}

/// Where a request goes.
pub enum Dispatch {
    Initialize,
    Initialized,
    ListTools,
    ListPrompts,
    ListResources,
    /// To the router behind `handle`, with the parameter `field` rewritten to
    /// `local`.
    Forward { handle: u64, field: KeyField, local: String },
    /// Nowhere: this error goes back to the session instead.
    Fail(JsonRpcError),
}

/// `"no router for " + router_id`.
pub open spec fn no_router_text(router_id: Seq<char>) -> Seq<char> {
    "no router for "@ + router_id
}

/// The handle and the local name that a key resolves to among `routers`.
pub open spec fn forward_target(routers: Map<Seq<char>, u64>, key: Seq<char>) -> Option<
    (u64, Seq<char>),
> {
    if routers.contains_key(router_part(key)) {
        Some((routers[router_part(key)], local_part(key)))
    } else {
        None
    }
}

/// Decides where a request goes. `name` and `uri` are the request's
/// `params.name` and `params.uri` where they are strings, `None` otherwise.
///
/// Unknown methods fail with `METHOD_NOT_FOUND`. For a router-served method,
/// a missing key fails with `INVALID_PARAMS`, a key whose router id is not
/// registered fails with `INTERNAL_ERROR` ("no router for <router id>"), and
/// otherwise the request goes to that router with its key rewritten to the
/// local name.
pub fn dispatch(
    manager: &RouterServiceManager,
    id: Option<u64>,
    method: &str,
    name: Option<String>,
    uri: Option<String>,
) -> (r: Dispatch)
    requires
        manager.wf(),
    ensures
        match route_of(method@) {
            Route::Initialize => r is Initialize,
            Route::Initialized => r is Initialized,
            Route::ListTools => r is ListTools,
            Route::ListPrompts => r is ListPrompts,
            Route::ListResources => r is ListResources,
            Route::Unknown => r matches Dispatch::Fail(e) && error_is(
                e,
                id,
                JSON_RPC_METHOD_NOT_FOUND,
                method_not_found_text(method@),
            ),
            Route::Router(f) => match key_of(f, name, uri) {
                None => r matches Dispatch::Fail(e) && valid_error(e) && e.id == id && e.error.code
                    == JSON_RPC_INVALID_PARAMS,
                Some(k) => match forward_target(manager.routers(), k@) {
                    Some((h, l)) => r matches Dispatch::Forward { handle, field, local } && handle
                        == h && field == f && local@ == l,
                    None => r matches Dispatch::Fail(e) && error_is(
                        e,
                        id,
                        JSON_RPC_INTERNAL_ERROR,
                        no_router_text(router_part(k@)),
                    ),
                },
            },
        },
{
    match route_method(method) {
        Route::Initialize => Dispatch::Initialize,
        Route::Initialized => Dispatch::Initialized,
        Route::ListTools => Dispatch::ListTools,
        Route::ListPrompts => Dispatch::ListPrompts,
        Route::ListResources => Dispatch::ListResources,
        Route::Unknown => {
            let e = match id {
                Some(n) => JsonRpcUtils::method_not_found(n, method),
                None => {
                    let mut message = String::from_str("Method '");
                    message.append(method);
                    message.append("' not found");
                    JsonRpcUtils::error_response(
                        None,
                        JSON_RPC_METHOD_NOT_FOUND,
                        message.as_str(),
                        None,
                    )
                },
            };
            Dispatch::Fail(e)
        },
        Route::Router(f) => {
            let key = match f {
                KeyField::Name => name,
                KeyField::Uri => uri,
            };
            match key {
                None => {
                    let message = match f {
                        KeyField::Name => "params.name is missing or is not a string",
                        KeyField::Uri => "params.uri is missing or is not a string",
                    };
                    Dispatch::Fail(
                        JsonRpcUtils::error_response(id, JSON_RPC_INVALID_PARAMS, message, None),
                    )
                },
                Some(k) => {
                    let ghost kv = k@;
                    let (owner, _) = crate::naming::split_at_seperator(k.clone());
                    match manager.get_router(k) {
                        Some((handle, local)) => Dispatch::Forward { handle, field: f, local },
                        None => {
                            let mut message = String::from_str("no router for ");
                            message.append(owner.as_str());
                            Dispatch::Fail(
                                JsonRpcUtils::error_response(
                                    id,
                                    JSON_RPC_INTERNAL_ERROR,
                                    message.as_str(),
                                    None,
                                ),
                            )
                        },
                    }
                },
            }
        },
    }
}

/// The error for a router that did not answer in time.
pub fn timeout_error(id: Option<u64>) -> (r: JsonRpcError)
    ensures
        error_is(r, id, MCP_TIMEOUT_ERROR, "router did not respond in time"@),
        r.error.data is None,
{
    JsonRpcUtils::error_response(id, MCP_TIMEOUT_ERROR, "router did not respond in time", None)
}

/// A request for `<router id>_<local>` reaches the router registered under
/// that router id, with the local name alone in place of the qualified one.
pub proof fn lemma_dispatch_forwards_local(
    routers: Map<Seq<char>, u64>,
    router_id: Seq<char>,
    local: Seq<char>,
)
    requires
        no_sep(router_id),
        routers.contains_key(router_id),
    ensures
        forward_target(routers, qualified(router_id, local)) == Some((routers[router_id], local)),
{
    lemma_split_qualified(router_id, local);
}

} // verus!
