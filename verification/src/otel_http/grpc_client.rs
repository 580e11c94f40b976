//! The span of a gRPC call, seen from the caller.

use crate::otel_http::grpc;
use crate::otel_http::request::{ErrorInfo, RequestHead, ResponseHead};
use crate::span::{Span, SpanKind, SpanView};
use vstd::prelude::*;

verus! {

/// Makes the span of an outgoing gRPC call.
pub fn make_span_from_request(req: &RequestHead) -> (span: Span)
    ensures
        span@ == grpc::grpc_span(*req, SpanKind::Client),
{
    grpc::make_span_from_request(req, SpanKind::Client)
}

/// A span after an outgoing call ended, one way or the other. For the
/// caller every status but success is an error.
pub open spec fn after_outcome(
    span: SpanView,
    response: Result<ResponseHead, ErrorInfo>,
) -> SpanView {
    match response {
        Ok(r) => grpc::after_response(span, r, false),
        Err(e) => grpc::after_error(span, e),
    }
}

/// Records how an outgoing call ended.
pub fn update_span_from_response_or_error(
    span: &mut Span,
    response: &Result<ResponseHead, ErrorInfo>,
)
    ensures
        final(span)@ == after_outcome(old(span)@, *response),
{
    match response {
        Ok(response) => {
            grpc::update_span_from_response(span, response, false);
        },
        Err(err) => {
            grpc::update_span_from_error(span, err);
        },
    }
}

} // verus!
