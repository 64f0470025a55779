//! HermesGate: the verified core of a multi-device SMS gateway.

pub mod api;
pub mod auth;
pub mod config;
pub mod db;
pub mod mcp;
pub mod otp;
pub mod text;
