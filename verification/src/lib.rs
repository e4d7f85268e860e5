//! A server for the Model Context Protocol: JSON-RPC 2.0 over lines of text,
//! a session that `initialize` opens, and a registry of tools.
//!
//! The library decides and never touches the outside world. [`server`]
//! frames lines and drives a session step by step, [`mcp`] is the protocol
//! engine, [`tools`] holds the tools and their registry, [`types`] the
//! messages and how they are written as JSON, [`json`] the documents
//! themselves, and [`host`] what a tool may ask of the machine it runs on.
//! Reading, writing and the answers to those questions are the caller's
//! business.

pub mod host;
pub mod json;
pub mod mcp;
pub mod server;
pub mod text;
pub mod tools;
pub mod types;
