//! The layer of a gRPC client.

use crate::otel_http::grpc::grpc_span;
use crate::otel_http::grpc_client::make_span_from_request;
use crate::otel_http::request::RequestHead;
use crate::span::{Span, SpanKind};
use vstd::prelude::*;

verus! {

/// A layer whose service opens a span for each outgoing call and sends the
/// context of that span along in the headers of the request.
#[derive(Default, Debug, Clone, Copy)]
pub struct OtelGrpcLayer;

impl OtelGrpcLayer {
    /// Wraps `inner`.
    pub fn layer<S>(&self, inner: S) -> (service: OtelGrpcService<S>)
        ensures
            service.inner == inner,
    {
        OtelGrpcService { inner }
    }
}

/// The service of [`OtelGrpcLayer`].
#[derive(Debug, Clone)]
pub struct OtelGrpcService<S> {
    pub inner: S,
}

impl<S> OtelGrpcService<S> {
    /// Returns the span that an outgoing call is made in. Every call is
    /// traced.
    pub fn call(&self, req: &RequestHead) -> (span: Span)
        ensures
            span@ == grpc_span(*req, SpanKind::Client),
    {
        make_span_from_request(req)
    }
}

} // verus!
