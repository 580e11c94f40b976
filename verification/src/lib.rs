//! Tracing instrumentation for HTTP and gRPC services.
//!
//! The library decides what a span says about a request: which fields it
//! starts with, which trace it continues, what the response or the failure
//! adds to it. It also decides how tracing is set up when a process starts:
//! which propagators are installed, which exporter is built for which
//! protocol and endpoint, how log lines are laid out and filtered.
//!
//! Everything here works on plain values. A caller reads requests,
//! environment variables and clocks, asks the library, and carries out the
//! answer with the crates that serve requests and export telemetry.
//!
//! - [`otel_http`]: readers of request data, and the spans of HTTP and gRPC
//!   calls.
//! - [`span`], [`context`]: a span with its fields, and the identifiers that
//!   tie it to a trace.
//! - [`axum_middleware`], [`tonic_middleware`], [`tower_trace`]: what the
//!   middleware of servers and clients does for each request.
//! - [`init`]: propagators, exporters, resources, log layers and the
//!   subscriber.
//! - [`collector`], [`inmemory_exporter`], [`testing`]: exported telemetry in
//!   forms that tests can compare.
//! - [`text`], [`encoding`], [`filter`]: the pieces that the others are
//!   built from.

pub mod axum_middleware;
pub mod collector;
pub mod context;
pub mod encoding;
pub mod filter;
pub mod init;
pub mod inmemory_exporter;
pub mod otel_http;
pub mod span;
pub mod span_type;
pub mod testing;
pub mod text;
pub mod tonic_middleware;
pub mod tower_trace;
