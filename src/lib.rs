//! Protocol engine of a tool server speaking the MCP dialect of JSON-RPC.
pub mod json;
pub mod protocol;
pub mod node;
pub mod tools;
pub mod server;
pub mod render;
pub mod config;
