//! Middleware for an HTTP server: a span for each request, and the trace
//! context in each response.

pub mod response_injector;
pub mod trace_extractor;
