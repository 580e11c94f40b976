//! Middleware for gRPC: a span for each call, on the side of the caller
//! and on the side of the server.

pub mod client;
pub mod server;
pub mod trace_extractor;
