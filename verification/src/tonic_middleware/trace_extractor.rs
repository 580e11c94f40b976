//! Callbacks for a tracing layer in front of a gRPC server.
//!
//! A call that brings no trace of its own is not made the child of an
//! invented parent: its span is linked to a local context instead, which
//! gives it a trace identifier all the same.

use crate::axum_middleware::trace_extractor::no_span;
use crate::context::{create_context_with_trace, span_context, TraceContext};
use crate::encoding::hex_lower;
use crate::filter::{call_accepted, call_verdict};
use crate::otel_http::request::RequestHead;
use crate::otel_http::tools::{header_or_empty, lemma_header_names, service_method, text_or_empty};
use crate::span::{
    empty_entry, entries_view, text_entry, Field, FieldValue, Span, SpanEntry, SpanView, Value,
};
use crate::tower_trace::{failure_status, GrpcFailureClass};
use vstd::prelude::*;

verus! {

/// Something that can be told which calls to trace.
pub trait WithFilter<F> {
    /// Traces only the calls that `filter` accepts, by service and method.
    fn with_filter(self, filter: F) -> Self;
}

/// Makes spans for gRPC calls. `F` is the type of the filter on service
/// and method.
#[derive(Clone, Copy, Debug)]
pub struct OtelMakeSpan<F> {
    pub filter: Option<F>,
}

impl<F> WithFilter<F> for OtelMakeSpan<F> {
    fn with_filter(self, filter: F) -> (out: Self)
        ensures
            out.filter == Some(filter),
    {
        OtelMakeSpan { filter: Some(filter) }
    }
}

/// Splits a gRPC request path into service and method.
pub fn extract_service_method<'a>(path: &'a str) -> (r: (&'a str, &'a str))
    ensures
        (r.0@, r.1@) == service_method(path@),
{
    crate::otel_http::tools::extract_service_method(path)
}

/// The fields that the span of a gRPC call starts with.
pub open spec fn call_fields(req: RequestHead, trace_id: Seq<u8>) -> Seq<(Field, Value)> {
    let (service, method) = service_method(req.uri.path@);
    seq![
        (Field::RpcSystem, Value::Text("grpc"@)),
        (Field::RpcService, Value::Text(service)),
        (Field::RpcMethod, Value::Text(method)),
        (Field::OtelName, Value::Text(req.uri.path@)),
        (Field::ServerAddress, Value::Text(text_or_empty(req.headers, "host"@))),
        (Field::HttpUserAgent, Value::Text(text_or_empty(req.headers, "user-agent"@))),
        (Field::OtelKind, Value::Text("server"@)),
        (Field::OtelStatusCode, Value::Empty),
        (Field::TraceId, Value::Text(hex_lower(trace_id))),
    ]
}

/// The span of a traced call: a child of the context that the call
/// brought, where that names a trace; else a span with a link to a local
/// context under the fallback identifiers.
pub open spec fn traced_span(
    req: RequestHead,
    remote: TraceContext,
    fallback_trace_id: [u8; 16],
    fallback_span_id: [u8; 8],
) -> SpanView {
    let context = span_context(remote, fallback_trace_id, fallback_span_id);
    SpanView {
        enabled: true,
        name: "grpc request"@,
        fields: call_fields(req, context.trace_id@),
        parent: if remote.valid() {
            Some(context)
        } else {
            None
        },
        link: if remote.valid() {
            None
        } else {
            Some(context)
        },
    }
}

impl<F: Fn(&str, &str) -> bool> OtelMakeSpan<F> {
    /// A maker of spans that traces every call.
    pub fn new() -> (out: Self)
        ensures
            out.filter.is_none(),
    {
        OtelMakeSpan { filter: None }
    }

    /// Makes the span of a call: a disabled one where the filter rejects
    /// service and method. `remote` is the context that the headers of the
    /// request carried; the fallback identifiers are used where that names
    /// no trace.
    pub fn make_span(
        &mut self,
        req: &RequestHead,
        remote: TraceContext,
        fallback_trace_id: [u8; 16],
        fallback_span_id: [u8; 8],
    ) -> (span: Span)
        requires
            old(self).filter matches Some(f) ==> forall|service: &str, method: &str| #[trigger]
                f.requires((service, method)),
        ensures
            final(self).filter == old(self).filter,
            exists|service: &str, method: &str, accepted: bool|
                (service@, method@) == service_method(req.uri.path@) && #[trigger] call_verdict(
                    old(self).filter,
                    service,
                    method,
                    accepted,
                ) && span@ == (if accepted {
                    traced_span(*req, remote, fallback_trace_id, fallback_span_id)
                } else {
                    no_span()
                }),
    {
        let http_target = req.uri.path.as_str();
        let (service, method) = extract_service_method(http_target);
        let accepted = call_accepted(&self.filter, service, method);
        if !accepted {
            return Span::none();
        }
        proof {
            lemma_header_names();
        }
        let user_agent = header_or_empty(&req.headers, "user-agent");
        let host = header_or_empty(&req.headers, "host");
        let from_remote = remote.is_valid();
        let (context, _) = create_context_with_trace(remote, fallback_trace_id, fallback_span_id);
        let trace_id = context.trace_id_hex();
        let mut entries: Vec<SpanEntry> = Vec::new();
        entries.push(text_entry(Field::RpcSystem, "grpc"));
        entries.push(text_entry(Field::RpcService, service));
        entries.push(text_entry(Field::RpcMethod, method));
        entries.push(text_entry(Field::OtelName, http_target));
        entries.push(text_entry(Field::ServerAddress, host));
        entries.push(text_entry(Field::HttpUserAgent, user_agent));
        entries.push(text_entry(Field::OtelKind, "server"));
        entries.push(empty_entry(Field::OtelStatusCode));
        entries.push(text_entry(Field::TraceId, trace_id.as_str()));
        assert(entries_view(entries@) =~= call_fields(*req, context.trace_id@));
        let mut span = Span::new("grpc request", entries);
        if from_remote {
            span.set_parent(context);
        } else {
            span.add_link(context);
        }
        span
    }
}

/// Called when a gRPC call is classified as failed.
#[derive(Clone, Copy, Debug)]
pub struct OtelOnFailure;

impl OtelOnFailure {
    /// Records the status that the call failed with; "cancelled" where it
    /// ended in an error.
    pub fn on_failure(&mut self, failure: GrpcFailureClass, span: &mut Span)
        ensures
            final(span)@ == old(span)@.record(
                Field::HttpGrpcStatus,
                Value::Number(failure_status(failure)),
            ),
    {
        match failure {
            GrpcFailureClass::Code(code) => {
                span.record(Field::HttpGrpcStatus, FieldValue::Number(code as i64));
            },
            GrpcFailureClass::Error(_) => {
                span.record(Field::HttpGrpcStatus, FieldValue::Number(1));
            },
        }
    }
}

} // verus!
