//! Verified core of a browser-automation MCP server and its agent CLI.
pub mod text;
pub mod json;
pub mod evaluation;
pub mod session;
pub mod tools;
pub mod actor;
pub mod output;
pub mod transport;
