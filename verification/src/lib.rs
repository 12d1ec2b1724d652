//! Git tools for an MCP server: which commands a tool call runs in the one
//! repository the server was opened for, and what the call is answered.
//!
//! The library decides and formats; it starts no process and touches no file.

pub mod args;
pub mod cli;
pub mod git;
pub mod laws;
pub mod server;
pub mod text;
pub mod tool_laws;
