//! The Model Context Protocol interface: request routing, tool and resource planning,
//! and the framing of the SSE and STDIO transports.

pub mod handler;
pub mod protocol;
pub mod resources;
pub mod sse;
pub mod stdio;
pub mod tools;
