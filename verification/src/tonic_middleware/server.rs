//! The layer of a gRPC server.

use crate::axum_middleware::trace_extractor::no_span;
use crate::context::{create_context_with_trace, span_context, TraceContext};
use crate::encoding::hex_lower;
use crate::filter::{path_accepted, path_verdict};
use crate::otel_http::grpc::{grpc_fields, grpc_span};
use crate::otel_http::grpc_server::make_span_from_request;
use crate::otel_http::request::RequestHead;
use crate::span::{
    lemma_lookup_at, lemma_record_then_get, Field, FieldValue, Span, SpanKind, SpanView, Value,
};
use vstd::prelude::*;

verus! {

/// A layer whose service traces each incoming call in a span of its own,
/// as a child of the trace that the call came in with.
///
/// `F` is the type of the filter on request paths.
#[derive(Debug, Clone)]
pub struct OtelGrpcLayer<F> {
    pub filter: Option<F>,
}

impl<F: Fn(&str) -> bool> OtelGrpcLayer<F> {
    /// A layer that traces every call.
    pub fn new() -> (layer: Self)
        ensures
            layer.filter.is_none(),
    {
        OtelGrpcLayer { filter: None }
    }

    /// Traces only the calls whose path `filter` accepts.
    pub fn filter(self, filter: F) -> (layer: Self)
        ensures
            layer.filter == Some(filter),
    {
        OtelGrpcLayer { filter: Some(filter) }
    }

    /// Wraps `inner`.
    pub fn layer<S>(self, inner: S) -> (service: OtelGrpcService<S, F>)
        ensures
            service.inner == inner,
            service.filter == self.filter,
    {
        OtelGrpcService { inner, filter: self.filter }
    }
}

/// The service of [`OtelGrpcLayer`].
#[derive(Debug, Clone)]
pub struct OtelGrpcService<S, F> {
    pub inner: S,
    pub filter: Option<F>,
}

/// The span of a traced call: that of the gRPC server, with the trace
/// identifier of `context`, the context that the span is made under.
pub open spec fn traced_span(req: RequestHead, context: TraceContext) -> SpanView {
    SpanView {
        parent: Some(context),
        ..grpc_span(req, SpanKind::Server).record(
            Field::TraceId,
            Value::Text(hex_lower(context.trace_id@)),
        )
    }
}

impl<S, F: Fn(&str) -> bool> OtelGrpcService<S, F> {
    /// Decides how a call is traced, and returns the span that the inner
    /// service is to handle it in: the span of the call where the filter
    /// lets it through, a disabled span where it does not.
    ///
    /// `remote` is the context that the headers of the request carried. A
    /// call that brought no valid context is traced under the fallback
    /// identifiers, so that its span shows a trace identifier all the
    /// same.
    pub fn call(
        &self,
        req: &RequestHead,
        remote: TraceContext,
        fallback_trace_id: [u8; 16],
        fallback_span_id: [u8; 8],
    ) -> (span: Span)
        requires
            self.filter matches Some(f) ==> forall|path: &str| #[trigger] f.requires((path,)),
        ensures
            exists|path: &str, accepted: bool|
                path@ == req.uri.path@ && #[trigger] path_verdict(self.filter, path, accepted)
                    && span@ == (if accepted {
                    traced_span(*req, span_context(remote, fallback_trace_id, fallback_span_id))
                } else {
                    no_span()
                }),
    {
        let path = req.uri.path.as_str();
        let accepted = path_accepted(&self.filter, path);
        let span = if accepted {
            let (context, _) = create_context_with_trace(
                remote,
                fallback_trace_id,
                fallback_span_id,
            );
            let mut span = make_span_from_request(req);
            let trace_id = context.trace_id_hex();
            span.record(Field::TraceId, FieldValue::text(trace_id.as_str()));
            span.set_parent(context);
            span
        } else {
            Span::none()
        };
        span
    }
}

/// A traced call shows the trace identifier of the context that its span
/// is made under, as 32 hexadecimal digits: that of the call where the
/// call brought a valid context, the fallback identifier where it did not.
/// The field is never empty.
pub proof fn lemma_traced_span_shows_trace_id(
    req: RequestHead,
    remote: TraceContext,
    fallback_trace_id: [u8; 16],
    fallback_span_id: [u8; 8],
)
    ensures
        ({
            let context = span_context(remote, fallback_trace_id, fallback_span_id);
            let span = traced_span(req, context);
            &&& span.get(Field::TraceId) == Some(Value::Text(hex_lower(context.trace_id@)))
            &&& hex_lower(context.trace_id@).len() == 32
            &&& span.parent == Some(context)
            &&& remote.valid() ==> context == remote
            &&& !remote.valid() ==> context.trace_id == fallback_trace_id
        }),
{
    let context = span_context(remote, fallback_trace_id, fallback_span_id);
    let start = grpc_fields(req, SpanKind::Server);
    lemma_lookup_at(start, Field::TraceId, 11);
    lemma_record_then_get(start, Field::TraceId, Value::Text(hex_lower(context.trace_id@)));
}

} // verus!
