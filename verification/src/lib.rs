//! Verified core of an SDKMAN! MCP server.
pub mod text;
pub mod paths;
pub mod error;
pub mod versions;
pub mod sdkman_version;
pub mod platform;
pub mod shell;
pub mod utils;
pub mod installation;
pub mod server;
