//! The toolbelt's logic: an MCP server that exposes components and channels as tools.
//!
//! - [`config`] reads server definitions.
//! - [`server`] answers `tools/list` and `tools/call`, and plans the spans of requests.
//! - [`tools`] reads what components that are tools themselves say and return.
//! - [`adapter`] presents a function as such a tool, and [`remote`] the tools of another
//!   server.
//! - [`meta_key`] holds the format of `_meta` keys, [`mcp`] the MCP model, [`schema`] the
//!   validation of JSON, and [`json`], [`lists`], [`pairs`] and [`text`] what the others are
//!   made of.

pub mod adapter;
pub mod config;
pub mod json;
pub mod lists;
pub mod mcp;
pub mod meta_key;
pub mod pairs;
pub mod remote;
pub mod schema;
pub mod server;
pub mod text;
pub mod tools;
