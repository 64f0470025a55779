//! The MCP payloads the gateway produces.

use vstd::prelude::*;
use crate::text::owned;

verus! {

/// JSON-RPC: invalid parameters.
pub const INVALID_PARAMS: i64 = -32602;
/// JSON-RPC: method not found.
pub const METHOD_NOT_FOUND: i64 = -32601;
/// JSON-RPC: parse error.
pub const PARSE_ERROR: i64 = -32700;
/// JSON-RPC: server error (a resource could not be read).
pub const SERVER_ERROR: i64 = -32000;

/// The MCP protocol version the server speaks.
pub fn protocol_version() -> (r: String)
    ensures
        r@ == "2024-11-05"@,
{
    owned("2024-11-05")
}

/// The name the server reports.
pub fn server_name() -> (r: String)
    ensures
        r@ == "hermesgate-mcp"@,
{
    owned("hermesgate-mcp")
}

/// A tool the server offers. `input_schema` is the JSON text of its input schema.
#[derive(Debug, Clone)]
pub struct ToolDefinition {
    pub name: String,
    pub description: String,
    pub input_schema: String,
}

/// One piece of a tool's answer.
#[derive(Debug, Clone)]
pub struct ToolContent {
    pub content_type: String,
    pub text: String,
}

/// A tool's answer: its text, and whether it reports an error.
#[derive(Debug, Clone)]
pub struct CallToolResult {
    pub content: Vec<ToolContent>,
    pub is_error: bool,
}

impl CallToolResult {
    /// Whether this is a single text answer with the given text and error flag.
    pub open spec fn is_text(&self, text: Seq<char>, is_error: bool) -> bool {
        &&& self.is_error == is_error
        &&& self.content@.len() == 1
        &&& self.content@[0].content_type@ == "text"@
        &&& self.content@[0].text@ == text
    }

    fn single(text: String, is_error: bool) -> (r: CallToolResult)
        ensures
            r.is_text(text@, is_error),
    {
        let mut content: Vec<ToolContent> = Vec::new();
        content.push(ToolContent { content_type: owned("text"), text });
        CallToolResult { content, is_error }
    }

    /// A successful answer holding `text`.
    pub fn text(text: String) -> (r: CallToolResult)
        ensures
            r.is_text(text@, false),
    {
        Self::single(text, false)
    }

    /// An error answer holding `text`.
    pub fn error(text: String) -> (r: CallToolResult)
        ensures
            r.is_text(text@, true),
    {
        Self::single(text, true)
    }
}

/// A resource the server lists.
#[derive(Debug, Clone)]
pub struct ResourceDefinition {
    pub uri: String,
    pub name: String,
    pub description: Option<String>,
    pub mime_type: Option<String>,
}

/// The content of a resource that was read.
#[derive(Debug, Clone)]
pub struct ResourceContent {
    pub uri: String,
    pub mime_type: Option<String>,
    pub text: String,
}

} // verus!
