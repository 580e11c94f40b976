//! gRPC over HTTP: status codes, and the span of a gRPC call.

use crate::otel_http::headers::{header_str, header_text, is_plain_name};
use crate::otel_http::request::{ErrorInfo, RequestHead, ResponseHead};
use crate::otel_http::tools::{
    extract_service_method, host_of, http_host, service_method, user_agent, user_agent_of,
};
use crate::span::{
    empty_entry, entries_view, lemma_record_twice, text_entry, Field, FieldValue, Span,
    SpanEntry, SpanKind, SpanView, Value,
};
use crate::text::{parse_number, parse_unsigned};
use http::HeaderMap;
use vstd::prelude::*;

verus! {

/// The status codes of gRPC.
#[derive(Clone, Copy, Debug, PartialEq, Eq, Hash, Structural)]
pub enum GrpcCode {
    /// The operation completed successfully.
    Success,
    /// The operation was cancelled.
    Cancelled,
    /// Unknown error.
    Unknown,
    /// Client specified an invalid argument.
    InvalidArgument,
    /// Deadline expired before operation could complete.
    DeadlineExceeded,
    /// Some requested entity was not found.
    NotFound,
    /// Some entity that we attempted to create already exists.
    AlreadyExists,
    /// The caller does not have permission to execute the specified operation.
    PermissionDenied,
    /// Some resource has been exhausted.
    ResourceExhausted,
    /// The system is not in a state required for the operation's execution.
    FailedPrecondition,
    /// The operation was aborted.
    Aborted,
    /// Operation was attempted past the valid range.
    OutOfRange,
    /// Operation is not implemented or not supported.
    Unimplemented,
    /// Internal error.
    Internal,
    /// The service is currently unavailable.
    Unavailable,
    /// Unrecoverable data loss or corruption.
    DataLoss,
    /// The request does not have valid authentication credentials.
    Unauthenticated,
}

impl GrpcCode {
    /// The number of the code on the wire.
    pub open spec fn spec_code(self) -> u16 {
        match self {
            GrpcCode::Success => 0,
            GrpcCode::Cancelled => 1,
            GrpcCode::Unknown => 2,
            GrpcCode::InvalidArgument => 3,
            GrpcCode::DeadlineExceeded => 4,
            GrpcCode::NotFound => 5,
            GrpcCode::AlreadyExists => 6,
            GrpcCode::PermissionDenied => 7,
            GrpcCode::ResourceExhausted => 8,
            GrpcCode::FailedPrecondition => 9,
            GrpcCode::Aborted => 10,
            GrpcCode::OutOfRange => 11,
            GrpcCode::Unimplemented => 12,
            GrpcCode::Internal => 13,
            GrpcCode::Unavailable => 14,
            GrpcCode::DataLoss => 15,
            GrpcCode::Unauthenticated => 16,
        }
    }

    /// The number of the code on the wire.
    pub fn code(self) -> (n: u16)
        ensures
            n == self.spec_code(),
    {
        match self {
            GrpcCode::Success => 0,
            GrpcCode::Cancelled => 1,
            GrpcCode::Unknown => 2,
            GrpcCode::InvalidArgument => 3,
            GrpcCode::DeadlineExceeded => 4,
            GrpcCode::NotFound => 5,
            GrpcCode::AlreadyExists => 6,
            GrpcCode::PermissionDenied => 7,
            GrpcCode::ResourceExhausted => 8,
            GrpcCode::FailedPrecondition => 9,
            GrpcCode::Aborted => 10,
            GrpcCode::OutOfRange => 11,
            GrpcCode::Unimplemented => 12,
            GrpcCode::Internal => 13,
            GrpcCode::Unavailable => 14,
            GrpcCode::DataLoss => 15,
            GrpcCode::Unauthenticated => 16,
        }
    }
}

/// The status that a `grpc-status` header states: its first value, where
/// that is a number that fits sixteen bits.
pub open spec fn header_status(headers: HeaderMap) -> Option<u16> {
    match header_text(headers, "grpc-status"@) {
        Some(text) => match parse_unsigned(text, 0xffff) {
            Some(n) => Some(n as u16),
            None => None,
        },
        None => None,
    }
}

/// Reads the gRPC status from the headers of a response.
pub fn status_from_http_header(headers: &HeaderMap) -> (status: Option<u16>)
    ensures
        status == header_status(*headers),
{
    proof {
        reveal_strlit("grpc-status");
    }
    match header_str(headers, "grpc-status") {
        Some(text) => match parse_number(text, 0xffff) {
            Some(n) => Some(n as u16),
            None => None,
        },
        None => None,
    }
}

/// The gRPC status that an HTTP status stands for where a response carries
/// no status of its own. A plain 200 stands for none: the call is then
/// taken as finished.
pub open spec fn status_of_http(status_code: u16) -> Option<u16> {
    if status_code == 400 {
        Some(GrpcCode::Internal.spec_code())
    } else if status_code == 401 {
        Some(GrpcCode::Unauthenticated.spec_code())
    } else if status_code == 403 {
        Some(GrpcCode::PermissionDenied.spec_code())
    } else if status_code == 404 {
        Some(GrpcCode::Unimplemented.spec_code())
    } else if status_code == 429 || status_code == 502 || status_code == 503 || status_code
        == 504 {
        Some(GrpcCode::Unavailable.spec_code())
    } else if status_code == 200 {
        None
    } else {
        Some(GrpcCode::Unknown.spec_code())
    }
}

/// Infers the gRPC status from the HTTP status of a response.
pub fn status_from_http_status(status_code: u16) -> (status: Option<u16>)
    ensures
        status == status_of_http(status_code),
{
    if status_code == 400 {
        Some(GrpcCode::Internal.code())
    } else if status_code == 401 {
        Some(GrpcCode::Unauthenticated.code())
    } else if status_code == 403 {
        Some(GrpcCode::PermissionDenied.code())
    } else if status_code == 404 {
        Some(GrpcCode::Unimplemented.code())
    } else if status_code == 429 || status_code == 502 || status_code == 503 || status_code
        == 504 {
        Some(GrpcCode::Unavailable.code())
    } else if status_code == 200 {
        None
    } else {
        Some(GrpcCode::Unknown.code())
    }
}

/// Whether a gRPC status counts as an error of the span. A server answers
/// for the statuses that are its own fault; for a client everything but
/// success is an error.
pub open spec fn is_error_status(status: u16, is_spankind_server: bool) -> bool {
    if is_spankind_server {
        status == 2 || status == 4 || status == 12 || status == 13 || status == 14 || status
            == 15
    } else {
        status != 0
    }
}

/// Whether a gRPC status counts as an error of the span.
pub fn status_is_error(status: u16, is_spankind_server: bool) -> (b: bool)
    ensures
        b == is_error_status(status, is_spankind_server),
{
    if is_spankind_server {
        status == 2 || status == 4 || status == 12 || status == 13 || status == 14 || status
            == 15
    } else {
        status != 0
    }
}

/// The gRPC status of a response: what its headers state, else what its
/// HTTP status stands for, else success.
pub open spec fn response_status(response: ResponseHead) -> u16 {
    match header_status(response.headers) {
        Some(s) => s,
        None => match status_of_http(response.status) {
            Some(s) => s,
            None => 0,
        },
    }
}

/// A span after the response to its call was seen.
pub open spec fn after_response(
    span: SpanView,
    response: ResponseHead,
    is_spankind_server: bool,
) -> SpanView {
    let status = response_status(response);
    span.record(Field::RpcGrpcStatusCode, Value::Number(status as i64)).record(
        Field::OtelStatusCode,
        Value::Text(
            if is_error_status(status, is_spankind_server) {
                "ERROR"@
            } else {
                "OK"@
            },
        ),
    )
}

/// Records the outcome of a call from its response.
pub fn update_span_from_response(
    span: &mut Span,
    response: &ResponseHead,
    is_spankind_server: bool,
)
    ensures
        final(span)@ == after_response(old(span)@, *response, is_spankind_server),
{
    let status = match status_from_http_header(&response.headers) {
        Some(s) => s,
        None => match status_from_http_status(response.status) {
            Some(s) => s,
            None => GrpcCode::Success.code(),
        },
    };
    span.record(Field::RpcGrpcStatusCode, FieldValue::Number(status as i64));
    if status_is_error(status, is_spankind_server) {
        span.record(Field::OtelStatusCode, FieldValue::text("ERROR"));
    } else {
        span.record(Field::OtelStatusCode, FieldValue::text("OK"));
    }
}

/// The message that a failure is reported with: that of its cause where it
/// has one, else its own.
pub open spec fn reported_message(error: ErrorInfo) -> Seq<char> {
    match error.source {
        Some(cause) => cause@,
        None => error.message@,
    }
}

/// A span after its call failed without a response.
pub open spec fn after_error(span: SpanView, error: ErrorInfo) -> SpanView {
    span.record(Field::OtelStatusCode, Value::Text("ERROR"@)).record(
        Field::RpcGrpcStatusCode,
        Value::Number(2),
    ).record(Field::ExceptionMessage, Value::Text(error.message@)).record(
        Field::ExceptionMessage,
        Value::Text(reported_message(error)),
    )
}

/// Records a failure that left no response.
pub fn update_span_from_error(span: &mut Span, error: &ErrorInfo)
    ensures
        final(span)@ == after_error(old(span)@, *error),
{
    span.record(Field::OtelStatusCode, FieldValue::text("ERROR"));
    span.record(Field::RpcGrpcStatusCode, FieldValue::Number(2));
    let ghost before = span@.fields;
    span.record(Field::ExceptionMessage, FieldValue::text(error.message.as_str()));
    match &error.source {
        Some(cause) => {
            span.record(Field::ExceptionMessage, FieldValue::text(cause.as_str()));
        },
        None => {
            proof {
                lemma_record_twice(
                    before,
                    Field::ExceptionMessage,
                    Value::Text(error.message@),
                );
            }
        },
    }
}

/// A span after the call of a server ended, one way or the other.
pub open spec fn after_outcome(
    span: SpanView,
    response: Result<ResponseHead, ErrorInfo>,
) -> SpanView {
    match response {
        Ok(r) => after_response(span, r, true),
        Err(e) => after_error(span, e),
    }
}

/// Records how a call ended.
pub fn update_span_from_response_or_error(
    span: &mut Span,
    response: &Result<ResponseHead, ErrorInfo>,
)
    ensures
        final(span)@ == after_outcome(old(span)@, *response),
{
    match response {
        Ok(response) => {
            update_span_from_response(span, response, true);
        },
        Err(err) => {
            update_span_from_error(span, err);
        },
    }
}

/// The fields that the span of a gRPC call starts with. The status, the
/// exception and the trace identifier are filled in later.
pub open spec fn grpc_fields(req: RequestHead, kind: SpanKind) -> Seq<(Field, Value)> {
    let (service, method) = service_method(req.uri.path@);
    seq![
        (Field::HttpUserAgent, Value::Text(user_agent_of(req))),
        (Field::OtelName, Value::Text(service + seq!['/'] + method)),
        (Field::OtelKind, Value::Text(kind.spec_label())),
        (Field::OtelStatusCode, Value::Empty),
        (Field::RpcSystem, Value::Text("grpc"@)),
        (Field::RpcService, Value::Text(service)),
        (Field::RpcMethod, Value::Text(method)),
        (Field::RpcGrpcStatusCode, Value::Empty),
        (Field::ServerAddress, Value::Text(host_of(req))),
        (Field::ExceptionMessage, Value::Empty),
        (Field::ExceptionDetails, Value::Empty),
        (Field::TraceId, Value::Empty),
    ]
}

/// The span of a gRPC call, as it is when the request comes in.
pub open spec fn grpc_span(req: RequestHead, kind: SpanKind) -> SpanView {
    SpanView {
        enabled: true,
        name: "GRPC request"@,
        fields: grpc_fields(req, kind),
        parent: None,
        link: None,
    }
}

/// Makes the span of a gRPC call.
pub fn make_span_from_request(req: &RequestHead, kind: SpanKind) -> (span: Span)
    ensures
        span@ == grpc_span(*req, kind),
{
    let (service, method) = extract_service_method(req.uri.path.as_str());
    let mut name = service.to_owned();
    proof {
        reveal_strlit("/");
    }
    name.append("/");
    name.append(method);
    assert(name@ =~= service@ + seq!['/'] + method@);
    let mut entries: Vec<SpanEntry> = Vec::new();
    entries.push(text_entry(Field::HttpUserAgent, user_agent(req)));
    entries.push(text_entry(Field::OtelName, name.as_str()));
    entries.push(text_entry(Field::OtelKind, kind.label()));
    entries.push(empty_entry(Field::OtelStatusCode));
    entries.push(text_entry(Field::RpcSystem, "grpc"));
    entries.push(text_entry(Field::RpcService, service));
    entries.push(text_entry(Field::RpcMethod, method));
    entries.push(empty_entry(Field::RpcGrpcStatusCode));
    entries.push(text_entry(Field::ServerAddress, http_host(req)));
    entries.push(empty_entry(Field::ExceptionMessage));
    entries.push(empty_entry(Field::ExceptionDetails));
    entries.push(empty_entry(Field::TraceId));
    assert(entries_view(entries@) =~= grpc_fields(*req, kind));
    Span::new("GRPC request", entries)
}

} // verus!
