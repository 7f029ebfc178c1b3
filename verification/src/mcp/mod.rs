//! The MCP server's logic: tool requests and results, and access tokens.

pub mod auth;
pub mod tools;
