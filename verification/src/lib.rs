//! Client library for a Kuzzle-style JSON-over-HTTP RPC server.
//!
//! The library turns a logical operation (controller + action + parameters)
//! into a transport-specific call, injects session credentials, and maps the
//! server's envelope reply into either a typed success value or a structured
//! error.

pub mod codec;
pub mod controllers;
pub mod json;
pub mod kuzzle;
pub mod protocols;
pub mod text;
pub mod types;
