//! Routing of MCP JSON-RPC requests.

use vstd::prelude::*;
use crate::text::{owned, push_all, str_eq};

verus! {

/// What to do with a JSON-RPC request.
#[derive(Debug, Clone)]
pub enum McpAction {
    /// Answer `initialize` with the server's capabilities and identity.
    Initialize,
    /// A notification: send no answer.
    Acknowledge,
    /// Answer `ping` with an empty result.
    Ping,
    /// Answer with the tool definitions.
    ListTools,
    /// Run the named tool on the request's arguments.
    CallTool(String),
    /// Answer with the resources the token may read.
    ListResources,
    /// Read the resource at this URI.
    ReadResource(String),
    /// Answer with a JSON-RPC error.
    Fail(i64, String),
}

/// An action as plain data.
pub enum Route {
    Initialize,
    Acknowledge,
    Ping,
    ListTools,
    CallTool(Seq<char>),
    ListResources,
    ReadResource(Seq<char>),
    Fail(i64, Seq<char>),
}

impl McpAction {
    pub open spec fn route(&self) -> Route {
        match self {
            McpAction::Initialize => Route::Initialize,
            McpAction::Acknowledge => Route::Acknowledge,
            McpAction::Ping => Route::Ping,
            McpAction::ListTools => Route::ListTools,
            McpAction::CallTool(n) => Route::CallTool(n@),
            McpAction::ListResources => Route::ListResources,
            McpAction::ReadResource(u) => Route::ReadResource(u@),
            McpAction::Fail(c, m) => Route::Fail(*c, m@),
        }
    }
}

/// How a request is routed by its method: `initialize`, `notifications/initialized`,
/// `ping`, `tools/list`, `tools/call` (which needs a tool name), `resources/list`,
/// `resources/read` (which needs a URI); any other method is not found.
pub open spec fn route_of(method: Seq<char>, tool_name: Option<Seq<char>>, resource_uri: Option<Seq<char>>) -> Route {
    if method == "initialize"@ {
        Route::Initialize
    } else if method == "notifications/initialized"@ {
        Route::Acknowledge
    } else if method == "ping"@ {
        Route::Ping
    } else if method == "tools/list"@ {
        Route::ListTools
    } else if method == "tools/call"@ {
        match tool_name {
            Some(n) => Route::CallTool(n),
            None => Route::Fail(-32602i64, "Missing tool name"@),
        }
    } else if method == "resources/list"@ {
        Route::ListResources
    } else if method == "resources/read"@ {
        match resource_uri {
            Some(u) => Route::ReadResource(u),
            None => Route::Fail(-32602i64, "Missing resource uri"@),
        }
    } else {
        Route::Fail(-32601i64, "Method not found: "@ + method)
    }
}

/// Routes a request by its method. `tool_name` and `resource_uri` are the request
/// parameters' `name` and `uri` when they are strings.
pub fn route_request(method: &str, tool_name: Option<String>, resource_uri: Option<String>) -> (r: McpAction)
    ensures
        r.route() == route_of(method@, crate::db::query::opt_view(tool_name), crate::db::query::opt_view(resource_uri)),
{
    if str_eq(method, "initialize") {
        McpAction::Initialize
    } else if str_eq(method, "notifications/initialized") {
        McpAction::Acknowledge
    } else if str_eq(method, "ping") {
        McpAction::Ping
    } else if str_eq(method, "tools/list") {
        McpAction::ListTools
    } else if str_eq(method, "tools/call") {
        match tool_name {
            Some(n) => McpAction::CallTool(n),
            None => McpAction::Fail(crate::mcp::protocol::INVALID_PARAMS, owned("Missing tool name")),
        }
    } else if str_eq(method, "resources/list") {
        McpAction::ListResources
    } else if str_eq(method, "resources/read") {
        match resource_uri {
            Some(u) => McpAction::ReadResource(u),
            None => McpAction::Fail(crate::mcp::protocol::INVALID_PARAMS, owned("Missing resource uri")),
        }
    } else {
        let mut m = owned("Method not found: ");
        push_all(&mut m, method);
        McpAction::Fail(crate::mcp::protocol::METHOD_NOT_FOUND, m)
    }
}

} // verus!
