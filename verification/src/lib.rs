//! Verified core of an agent-to-agent mail service: request validation,
//! HMAC request authentication, paging, row decoding and the decision logic
//! of the HTTP and MCP front ends.

pub mod auth;
pub mod config;
pub mod db;
pub mod decimal;
pub mod error;
pub mod json;
pub mod mcp;
pub mod mcp_catalog;
pub mod mcp_read;
pub mod mcp_send;
pub mod mcp_start;
pub mod mcp_text;
pub mod models;
pub mod routes;
pub mod schema;
pub mod stream;
pub mod text;
pub mod thread_id;
