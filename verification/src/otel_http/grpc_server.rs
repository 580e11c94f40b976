//! The span of a gRPC call, seen from the server.

use crate::otel_http::grpc;
use crate::otel_http::request::{ErrorInfo, RequestHead, ResponseHead};
use crate::span::{Span, SpanKind};
use vstd::prelude::*;

verus! {

/// Makes the span of an incoming gRPC call.
pub fn make_span_from_request(req: &RequestHead) -> (span: Span)
    ensures
        span@ == grpc::grpc_span(*req, SpanKind::Server),
{
    grpc::make_span_from_request(req, SpanKind::Server)
}

/// Records how an incoming call ended: from the response where there is
/// one, as an unknown error where the call failed.
pub fn update_span_from_response_or_error(
    span: &mut Span,
    response: &Result<ResponseHead, ErrorInfo>,
)
    ensures
        final(span)@ == grpc::after_outcome(old(span)@, *response),
{
    grpc::update_span_from_response_or_error(span, response)
}

} // verus!
