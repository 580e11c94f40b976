//! Callbacks for a tracing layer that calls back at each stage of a
//! request: when the span is made, when the response arrives, when the
//! request is classified as failed.
//!
//! The spans of this module carry the trace identifier as a field from the
//! start, so that the first log line of a request already shows it.

use crate::context::{create_context_with_trace, span_context, TraceContext};
use crate::encoding::{decimal, decimal_digits, hex_lower};
use crate::otel_http::http_server::is_server_error;
use crate::otel_http::request::{opt_text, HttpVersion, RequestHead, RequestUri, ResponseHead};
use crate::otel_http::tools::{
    client_ip_from_x_forwarded_for, extract_client_ip_from_x_forwarded_for, flavor_of,
    header_or_empty, lemma_header_names, text_or_empty,
};
use crate::span::{
    empty_entry, entries_view, lemma_lookup_at, lemma_record_keeps_others,
    lemma_record_then_get, lookup, recorded, text_entry, Field, FieldValue, Span, SpanEntry,
    SpanView, Value,
};
use http::HeaderMap;
use vstd::prelude::*;

verus! {

/// Reads the leftmost entry of `X-Forwarded-For`.
pub fn parse_x_forwarded_for<'a>(headers: &'a HeaderMap) -> (ip: Option<&'a str>)
    ensures
        crate::otel_http::request::opt_str(ip) == client_ip_from_x_forwarded_for(*headers),
{
    extract_client_ip_from_x_forwarded_for(headers)
}

/// The method of a request as it is written in a span.
pub fn http_method(method: &str) -> (name: String)
    ensures
        name@ == method@,
{
    method.to_owned()
}

/// The protocol version as it is written in a span.
pub fn http_flavor(version: HttpVersion) -> (flavor: &'static str)
    ensures
        flavor@ == flavor_of(version),
{
    crate::otel_http::tools::http_flavor(version)
}

/// The scheme of a request as it is written in a span.
pub fn http_scheme(scheme: &str) -> (name: String)
    ensures
        name@ == scheme@,
{
    scheme.to_owned()
}

/// The scheme of the target; `HTTP` where the target has none.
pub open spec fn scheme_of(uri: RequestUri) -> Seq<char> {
    match uri.scheme {
        Some(s) => s@,
        None => "HTTP"@,
    }
}

/// Path and query of a target; the path alone where the target has no
/// such part.
pub open spec fn target_of(uri: RequestUri) -> Seq<char> {
    match uri.path_and_query {
        Some(t) => t@,
        None => uri.path@,
    }
}

/// The target that the client asked for: the one from before nested
/// routers cut their prefix off, where that is known.
pub open spec fn full_target(req: RequestHead) -> Seq<char> {
    match req.original_uri {
        Some(uri) => target_of(uri),
        None => target_of(req.uri),
    }
}

/// The address of the client: the leftmost entry of `X-Forwarded-For`,
/// else the peer of the connection, else nothing.
pub open spec fn client_ip_of(req: RequestHead) -> Seq<char> {
    match client_ip_from_x_forwarded_for(req.headers) {
        Some(ip) => ip,
        None => match req.peer_addr {
            Some(addr) => addr@,
            None => Seq::empty(),
        },
    }
}

/// The route that the router matched, or nothing.
pub open spec fn route_of(req: RequestHead) -> Seq<char> {
    match req.matched_path {
        Some(r) => r@,
        None => Seq::empty(),
    }
}

fn target_text<'a>(uri: &'a RequestUri) -> (t: &'a str)
    ensures
        t@ == target_of(*uri),
{
    match &uri.path_and_query {
        Some(t) => t.as_str(),
        None => uri.path.as_str(),
    }
}

fn full_target_text<'a>(req: &'a RequestHead) -> (t: &'a str)
    ensures
        t@ == full_target(*req),
{
    match &req.original_uri {
        Some(uri) => target_text(uri),
        None => target_text(&req.uri),
    }
}

fn route_text<'a>(req: &'a RequestHead) -> (t: &'a str)
    ensures
        t@ == route_of(*req),
{
    match &req.matched_path {
        Some(r) => r.as_str(),
        None => {
            proof {
                reveal_strlit("");
            }
            ""
        },
    }
}

fn client_ip_text<'a>(req: &'a RequestHead) -> (t: &'a str)
    ensures
        t@ == client_ip_of(*req),
{
    match parse_x_forwarded_for(&req.headers) {
        Some(ip) => ip,
        None => match &req.peer_addr {
            Some(addr) => addr.as_str(),
            None => {
                proof {
                    reveal_strlit("");
                }
                ""
            },
        },
    }
}

fn scheme_text<'a>(uri: &'a RequestUri) -> (t: &'a str)
    ensures
        t@ == scheme_of(*uri),
{
    match &uri.scheme {
        Some(s) => s.as_str(),
        None => "HTTP",
    }
}

/// The fields that the span of an HTTP request starts with.
pub open spec fn http_fields(req: RequestHead, trace_id: Seq<u8>) -> Seq<(Field, Value)> {
    seq![
        (Field::OtelName, Value::Text(req.method@ + seq![' '] + route_of(req))),
        (Field::HttpClientIp, Value::Text(client_ip_of(req))),
        (Field::HttpFlavor, Value::Text(flavor_of(req.version))),
        (Field::HttpHost, Value::Text(text_or_empty(req.headers, "host"@))),
        (Field::HttpMethod, Value::Text(req.method@)),
        (Field::HttpRoute, Value::Text(route_of(req))),
        (Field::HttpScheme, Value::Text(scheme_of(req.uri))),
        (Field::HttpStatusCode, Value::Empty),
        (Field::HttpTarget, Value::Text(full_target(req))),
        (Field::HttpUserAgent, Value::Text(text_or_empty(req.headers, "user-agent"@))),
        (Field::OtelKind, Value::Text("server"@)),
        (Field::OtelStatusCode, Value::Empty),
        (Field::TraceId, Value::Text(hex_lower(trace_id))),
    ]
}

/// The fields that the span of a gRPC call starts with. The span is named
/// after the target, as is the custom for gRPC.
pub open spec fn grpc_fields(req: RequestHead, trace_id: Seq<u8>) -> Seq<(Field, Value)> {
    seq![
        (Field::OtelName, Value::Text(full_target(req))),
        (Field::HttpClientIp, Value::Text(client_ip_of(req))),
        (Field::HttpFlavor, Value::Text(flavor_of(req.version))),
        (Field::HttpGrpcStatus, Value::Empty),
        (Field::HttpHost, Value::Text(text_or_empty(req.headers, "host"@))),
        (Field::HttpMethod, Value::Text(req.method@)),
        (Field::HttpRoute, Value::Text(route_of(req))),
        (Field::HttpScheme, Value::Text(scheme_of(req.uri))),
        (Field::HttpStatusCode, Value::Empty),
        (Field::HttpTarget, Value::Text(full_target(req))),
        (Field::HttpUserAgent, Value::Text(text_or_empty(req.headers, "user-agent"@))),
        (Field::OtelKind, Value::Text("server"@)),
        (Field::OtelStatusCode, Value::Empty),
        (Field::TraceId, Value::Text(hex_lower(trace_id))),
    ]
}

/// Makes spans for HTTP requests.
#[derive(Clone, Copy, Debug)]
pub struct OtelMakeSpan;

impl OtelMakeSpan {
    /// Makes the span of a request. `remote` is the context that the
    /// headers of the request carried; the fallback identifiers are used
    /// where that names no trace.
    pub fn make_span(
        &mut self,
        req: &RequestHead,
        remote: TraceContext,
        fallback_trace_id: [u8; 16],
        fallback_span_id: [u8; 8],
    ) -> (span: Span)
        ensures
            span@ == (SpanView {
                enabled: true,
                name: "HTTP request"@,
                fields: http_fields(
                    *req,
                    span_context(remote, fallback_trace_id, fallback_span_id).trace_id@,
                ),
                parent: Some(span_context(remote, fallback_trace_id, fallback_span_id)),
                link: None,
            }),
    {
        proof {
            lemma_header_names();
            reveal_strlit(" ");
        }
        let user_agent = header_or_empty(&req.headers, "user-agent");
        let host = header_or_empty(&req.headers, "host");
        let scheme = scheme_text(&req.uri);
        let http_route = route_text(req);
        let http_target = full_target_text(req);
        let client_ip = client_ip_text(req);
        let http_method_v = http_method(req.method.as_str());
        let mut name = http_method_v.clone();
        name.append(" ");
        name.append(http_route);
        assert(name@ =~= req.method@ + seq![' '] + route_of(*req));
        let (context, _) = create_context_with_trace(remote, fallback_trace_id, fallback_span_id);
        let trace_id = context.trace_id_hex();
        let mut entries: Vec<SpanEntry> = Vec::new();
        entries.push(text_entry(Field::OtelName, name.as_str()));
        entries.push(text_entry(Field::HttpClientIp, client_ip));
        entries.push(text_entry(Field::HttpFlavor, http_flavor(req.version)));
        entries.push(text_entry(Field::HttpHost, host));
        entries.push(text_entry(Field::HttpMethod, http_method_v.as_str()));
        entries.push(text_entry(Field::HttpRoute, http_route));
        entries.push(text_entry(Field::HttpScheme, scheme));
        entries.push(empty_entry(Field::HttpStatusCode));
        entries.push(text_entry(Field::HttpTarget, http_target));
        entries.push(text_entry(Field::HttpUserAgent, user_agent));
        entries.push(text_entry(Field::OtelKind, "server"));
        entries.push(empty_entry(Field::OtelStatusCode));
        entries.push(text_entry(Field::TraceId, trace_id.as_str()));
        assert(entries_view(entries@) =~= http_fields(*req, context.trace_id@));
        let mut span = Span::new("HTTP request", entries);
        span.set_parent(context);
        span
    }
}

/// Makes spans for gRPC calls.
#[derive(Clone, Copy, Debug)]
pub struct OtelMakeGrpcSpan;

impl OtelMakeGrpcSpan {
    /// Makes the span of a call. `remote` is the context that the headers
    /// of the request carried; the fallback identifiers are used where
    /// that names no trace.
    pub fn make_span(
        &mut self,
        req: &RequestHead,
        remote: TraceContext,
        fallback_trace_id: [u8; 16],
        fallback_span_id: [u8; 8],
    ) -> (span: Span)
        ensures
            span@ == (SpanView {
                enabled: true,
                name: "grpc request"@,
                fields: grpc_fields(
                    *req,
                    span_context(remote, fallback_trace_id, fallback_span_id).trace_id@,
                ),
                parent: Some(span_context(remote, fallback_trace_id, fallback_span_id)),
                link: None,
            }),
    {
        proof {
            lemma_header_names();
        }
        let user_agent = header_or_empty(&req.headers, "user-agent");
        let host = header_or_empty(&req.headers, "host");
        let scheme = scheme_text(&req.uri);
        let http_route = route_text(req);
        let http_target = full_target_text(req);
        let client_ip = client_ip_text(req);
        let http_method_v = http_method(req.method.as_str());
        let (context, _) = create_context_with_trace(remote, fallback_trace_id, fallback_span_id);
        let trace_id = context.trace_id_hex();
        let mut entries: Vec<SpanEntry> = Vec::new();
        entries.push(text_entry(Field::OtelName, http_target));
        entries.push(text_entry(Field::HttpClientIp, client_ip));
        entries.push(text_entry(Field::HttpFlavor, http_flavor(req.version)));
        entries.push(empty_entry(Field::HttpGrpcStatus));
        entries.push(text_entry(Field::HttpHost, host));
        entries.push(text_entry(Field::HttpMethod, http_method_v.as_str()));
        entries.push(text_entry(Field::HttpRoute, http_route));
        entries.push(text_entry(Field::HttpScheme, scheme));
        entries.push(empty_entry(Field::HttpStatusCode));
        entries.push(text_entry(Field::HttpTarget, http_target));
        entries.push(text_entry(Field::HttpUserAgent, user_agent));
        entries.push(text_entry(Field::OtelKind, "server"));
        entries.push(empty_entry(Field::OtelStatusCode));
        entries.push(text_entry(Field::TraceId, trace_id.as_str()));
        assert(entries_view(entries@) =~= grpc_fields(*req, context.trace_id@));
        let mut span = Span::new("grpc request", entries);
        span.set_parent(context);
        span
    }
}

/// Called when a request comes in. It records nothing.
#[derive(Clone, Copy, Debug)]
pub struct OtelOnRequest;

impl OtelOnRequest {
    /// Leaves the span as it is.
    pub fn on_request(&mut self, request: &RequestHead, span: &mut Span)
        ensures
            final(span)@ == old(span)@,
    {
    }
}

/// Called when the response to a request is there.
#[derive(Clone, Copy, Debug)]
pub struct OtelOnResponse;

/// A span after its response was seen: the status code is recorded, in
/// decimal, and the span counts as a success until a failure says
/// otherwise.
pub open spec fn after_response(span: SpanView, response: ResponseHead) -> SpanView {
    span.record(
        Field::HttpStatusCode,
        Value::Text(decimal_digits(response.status as nat)),
    ).record(Field::OtelStatusCode, Value::Text("OK"@))
}

impl OtelOnResponse {
    /// Records the status of the response.
    pub fn on_response(self, response: &ResponseHead, span: &mut Span)
        ensures
            final(span)@ == after_response(old(span)@, *response),
    {
        let status = decimal(response.status as u64);
        span.record(Field::HttpStatusCode, FieldValue::text(status.as_str()));
        span.record(Field::OtelStatusCode, FieldValue::text("OK"));
    }
}

/// Called for each chunk of a response body. It records nothing.
#[derive(Clone, Copy, Debug)]
pub struct OtelOnBodyChunk;

impl OtelOnBodyChunk {
    /// Leaves the span as it is.
    pub fn on_body_chunk(&mut self, span: &mut Span)
        ensures
            final(span)@ == old(span)@,
    {
    }
}

/// Called when a streamed response ends. It records nothing.
#[derive(Clone, Copy, Debug)]
pub struct OtelOnEos;

impl OtelOnEos {
    /// Leaves the span as it is.
    pub fn on_eos(self, span: &mut Span)
        ensures
            final(span)@ == old(span)@,
    {
    }
}

/// Why an HTTP request was classified as failed.
#[derive(Debug)]
pub enum ServerErrorsFailureClass {
    /// The response has this status code.
    StatusCode(u16),
    /// The request ended in an error, reported in these words.
    Error(String),
}

/// Called when an HTTP request is classified as failed.
#[derive(Clone, Copy, Debug)]
pub struct OtelOnFailure;

/// A span after its request was classified as failed: an error, unless the
/// failure is a status code outside the server-error class.
pub open spec fn after_failure(span: SpanView, failure: ServerErrorsFailureClass) -> SpanView {
    match failure {
        ServerErrorsFailureClass::StatusCode(status) => if is_server_error(status) {
            span.record(Field::OtelStatusCode, Value::Text("ERROR"@))
        } else {
            span
        },
        ServerErrorsFailureClass::Error(_) => span.record(
            Field::OtelStatusCode,
            Value::Text("ERROR"@),
        ),
    }
}

impl OtelOnFailure {
    /// Records the failure.
    pub fn on_failure(&mut self, failure: ServerErrorsFailureClass, span: &mut Span)
        ensures
            final(span)@ == after_failure(old(span)@, failure),
    {
        match failure {
            ServerErrorsFailureClass::StatusCode(status) => {
                if 500 <= status && status < 600 {
                    span.record(Field::OtelStatusCode, FieldValue::text("ERROR"));
                }
            },
            ServerErrorsFailureClass::Error(_) => {
                span.record(Field::OtelStatusCode, FieldValue::text("ERROR"));
            },
        }
    }
}

/// Why a gRPC call was classified as failed.
#[derive(Debug)]
pub enum GrpcFailureClass {
    /// The call ended with this status, which is not success.
    Code(i32),
    /// The call ended in an error, reported in these words.
    Error(String),
}

/// Called when a gRPC call is classified as failed.
#[derive(Clone, Copy, Debug)]
pub struct OtelOnGrpcFailure;

/// The status that a failed call is recorded with: its own, or
/// "cancelled" where it ended in an error.
pub open spec fn failure_status(failure: GrpcFailureClass) -> i64 {
    match failure {
        GrpcFailureClass::Code(code) => code as i64,
        GrpcFailureClass::Error(_) => 1,
    }
}

impl OtelOnGrpcFailure {
    /// Records the failure.
    pub fn on_failure(&mut self, failure: GrpcFailureClass, span: &mut Span)
        ensures
            final(span)@ == old(span)@.record(
                Field::HttpGrpcStatus,
                Value::Number(failure_status(failure)),
            ),
    {
        match failure {
            GrpcFailureClass::Code(code) => {
                span.record(Field::HttpGrpcStatus, FieldValue::Number(code as i64));
            },
            GrpcFailureClass::Error(_) => {
                span.record(Field::HttpGrpcStatus, FieldValue::Number(1));
            },
        }
    }
}

/// A request that brings a valid trace context is traced under that
/// context: the span descends from it and shows its trace identifier,
/// whatever the fallback identifiers are.
pub proof fn lemma_remote_trace_is_continued(
    req: RequestHead,
    remote: TraceContext,
    fallback_trace_id: [u8; 16],
    fallback_span_id: [u8; 8],
)
    requires
        remote.valid(),
    ensures
        span_context(remote, fallback_trace_id, fallback_span_id) == remote,
        lookup(
            http_fields(req, span_context(remote, fallback_trace_id, fallback_span_id).trace_id@),
            Field::TraceId,
        ) == Some(Value::Text(hex_lower(remote.trace_id@))),
        lookup(
            grpc_fields(req, span_context(remote, fallback_trace_id, fallback_span_id).trace_id@),
            Field::TraceId,
        ) == Some(Value::Text(hex_lower(remote.trace_id@))),
{
    lemma_trace_id_is_shown(req, remote.trace_id@);
}

/// The spans of this module show the trace identifier that they are made
/// with, as two hexadecimal digits for each of its bytes.
pub proof fn lemma_trace_id_is_shown(req: RequestHead, trace_id: Seq<u8>)
    ensures
        lookup(http_fields(req, trace_id), Field::TraceId) == Some(
            Value::Text(hex_lower(trace_id)),
        ),
        lookup(grpc_fields(req, trace_id), Field::TraceId) == Some(
            Value::Text(hex_lower(trace_id)),
        ),
        hex_lower(trace_id).len() == 2 * trace_id.len(),
{
    lemma_lookup_at(http_fields(req, trace_id), Field::TraceId, 12);
    lemma_lookup_at(grpc_fields(req, trace_id), Field::TraceId, 13);
}

/// A request without a trace context of its own still gets a span with a
/// trace identifier: 32 hexadecimal digits, never an empty field.
pub proof fn lemma_trace_id_is_never_empty(
    req: RequestHead,
    remote: TraceContext,
    fallback_trace_id: [u8; 16],
    fallback_span_id: [u8; 8],
)
    ensures
        ({
            let id = span_context(remote, fallback_trace_id, fallback_span_id).trace_id@;
            &&& lookup(http_fields(req, id), Field::TraceId) == Some(Value::Text(hex_lower(id)))
            &&& lookup(grpc_fields(req, id), Field::TraceId) == Some(Value::Text(hex_lower(id)))
            &&& hex_lower(id).len() == 32
            &&& !remote.valid() ==> id == fallback_trace_id@
        }),
{
    let id = span_context(remote, fallback_trace_id, fallback_span_id).trace_id@;
    lemma_trace_id_is_shown(req, id);
}

/// The outcome of a span that declares `otel.status_code`: `OK` once the
/// response is there, whatever its status; `ERROR` once a response with
/// a status of the server-error class, or an error, was classified as a
/// failure after that.
pub proof fn lemma_status_of_outcome(
    span: SpanView,
    response: ResponseHead,
    failure: ServerErrorsFailureClass,
)
    requires
        span.get(Field::OtelStatusCode).is_some(),
    ensures
        after_response(span, response).get(Field::OtelStatusCode) == Some(Value::Text("OK"@)),
        (failure matches ServerErrorsFailureClass::StatusCode(status) ==> is_server_error(status))
            ==> after_failure(after_response(span, response), failure).get(
            Field::OtelStatusCode,
        ) == Some(Value::Text("ERROR"@)),
        !(failure matches ServerErrorsFailureClass::StatusCode(status) ==> is_server_error(status))
            ==> after_failure(after_response(span, response), failure) == after_response(
            span,
            response,
        ),
{
    let code = Value::Text(decimal_digits(response.status as nat));
    let with_code = recorded(span.fields, Field::HttpStatusCode, code);
    lemma_record_keeps_others(span.fields, Field::HttpStatusCode, code, Field::OtelStatusCode);
    lemma_record_then_get(with_code, Field::OtelStatusCode, Value::Text("OK"@));
    let ok = recorded(with_code, Field::OtelStatusCode, Value::Text("OK"@));
    lemma_record_then_get(ok, Field::OtelStatusCode, Value::Text("ERROR"@));
}

} // verus!
