//! Server configuration and the addresses derived from it.

use vstd::prelude::*;
use crate::text::{i64_to_decimal, owned, push_all, str_eq};

verus! {

/// The settings the server starts with.
#[derive(Debug, Clone)]
pub struct Config {
    /// Host address to bind.
    pub host: String,
    /// Port to listen on.
    pub port: u16,
    /// SQLite database file path.
    pub db_path: String,
    /// Pre-configured master admin token.
    pub admin_token: Option<String>,
    /// Run in Model Context Protocol (MCP) STDIO mode.
    pub mcp_stdio: bool,
    /// API/MCP Bearer token (required when running in STDIO mode).
    pub token: Option<String>,
}

/// The host that clients are told to use: `localhost` for the wildcard address.
pub open spec fn public_host(host: Seq<char>) -> Seq<char> {
    if host == "0.0.0.0"@ {
        "localhost"@
    } else {
        host
    }
}

impl Config {
    /// The base URL announced to clients and embedded in device pairing data.
    pub fn server_url(&self) -> (r: String)
        ensures
            r@ == "http://"@ + public_host(self.host@) + ":"@ + crate::text::decimal(self.port as int),
    {
        let mut r = owned("http://");
        if str_eq(self.host.as_str(), "0.0.0.0") {
            push_all(&mut r, "localhost");
        } else {
            push_all(&mut r, self.host.as_str());
        }
        push_all(&mut r, ":");
        let port = i64_to_decimal(self.port as i64);
        push_all(&mut r, port.as_str());
        r
    }

    /// The `host:port` address the server binds.
    pub fn bind_address(&self) -> (r: String)
        ensures
            r@ == self.host@ + ":"@ + crate::text::decimal(self.port as int),
    {
        let mut r = owned(self.host.as_str());
        push_all(&mut r, ":");
        let port = i64_to_decimal(self.port as i64);
        push_all(&mut r, port.as_str());
        r
    }
}

} // verus!
