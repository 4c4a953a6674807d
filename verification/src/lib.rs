//! Core logic of a local orchestration layer: a registry of supervised jobs,
//! line-oriented stream decoding for process output and server-sent events,
//! a tool-call delta accumulator for streamed chat completions, and a
//! JSON-RPC tool-protocol client over stdio and HTTP transports.

pub mod chat;
pub mod jsonval;
pub mod lines;
pub mod mcp;
pub mod model;
pub mod registry;
pub mod rpc;
pub mod sse;
pub mod strutil;
pub mod supervisor;
