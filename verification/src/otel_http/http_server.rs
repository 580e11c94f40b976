//! The span of an HTTP request, seen from the server.

use crate::otel_http::request::{opt_text, ErrorInfo, RequestHead, ResponseHead};
use crate::otel_http::grpc::reported_message;
use crate::otel_http::tools::{
    flavor_of, host_of, http_flavor, http_host, url_scheme, user_agent, user_agent_of,
};
use crate::span::{
    empty_entry, entries_view, lemma_record_keeps_others, lemma_record_then_get,
    lemma_record_twice, optional, recorded, text_entry, Field, FieldValue, Span, SpanEntry,
    SpanKind, SpanView, Value,
};
use crate::span_type::SpanType;
use vstd::prelude::*;

verus! {

/// The fields that the span of an HTTP request starts with. The router
/// fills in the route, and the name that goes with it, afterwards.
pub open spec fn http_fields(req: RequestHead) -> Seq<(Field, Value)> {
    seq![
        (Field::HttpRequestMethod, Value::Text(req.method@)),
        (Field::HttpRoute, Value::Empty),
        (Field::NetworkProtocolVersion, Value::Text(flavor_of(req.version))),
        (Field::ServerAddress, Value::Text(host_of(req))),
        (Field::HttpClientAddress, Value::Empty),
        (Field::UserAgentOriginal, Value::Text(user_agent_of(req))),
        (Field::HttpResponseStatusCode, Value::Empty),
        (Field::UrlPath, Value::Text(req.uri.path@)),
        (Field::UrlQuery, optional(opt_text(req.uri.query))),
        (
            Field::UrlScheme,
            Value::Text(
                match req.uri.scheme {
                    Some(s) => s@,
                    None => Seq::empty(),
                },
            ),
        ),
        (Field::OtelName, Value::Text(req.method@)),
        (Field::OtelKind, Value::Text(SpanKind::Server.spec_label())),
        (Field::OtelStatusCode, Value::Empty),
        (Field::TraceId, Value::Empty),
        (Field::RequestId, Value::Empty),
        (Field::ExceptionMessage, Value::Empty),
        (Field::SpanType, Value::Text(SpanType::Web.spec_label())),
    ]
}

/// The span of an HTTP request, as it is when the request comes in.
pub open spec fn http_span(req: RequestHead) -> SpanView {
    SpanView {
        enabled: true,
        name: "HTTP request"@,
        fields: http_fields(req),
        parent: None,
        link: None,
    }
}

/// Makes the span of an incoming HTTP request.
pub fn make_span_from_request(req: &RequestHead) -> (span: Span)
    ensures
        span@ == http_span(*req),
{
    let mut entries: Vec<SpanEntry> = Vec::new();
    entries.push(text_entry(Field::HttpRequestMethod, req.method.as_str()));
    entries.push(empty_entry(Field::HttpRoute));
    entries.push(text_entry(Field::NetworkProtocolVersion, http_flavor(req.version)));
    entries.push(text_entry(Field::ServerAddress, http_host(req)));
    entries.push(empty_entry(Field::HttpClientAddress));
    entries.push(text_entry(Field::UserAgentOriginal, user_agent(req)));
    entries.push(empty_entry(Field::HttpResponseStatusCode));
    entries.push(text_entry(Field::UrlPath, req.uri.path.as_str()));
    let query: Option<&str> = match &req.uri.query {
        Some(q) => Some(q.as_str()),
        None => None,
    };
    entries.push(SpanEntry { key: Field::UrlQuery, value: FieldValue::optional_text(query) });
    entries.push(text_entry(Field::UrlScheme, url_scheme(&req.uri)));
    entries.push(text_entry(Field::OtelName, req.method.as_str()));
    entries.push(text_entry(Field::OtelKind, SpanKind::Server.label()));
    entries.push(empty_entry(Field::OtelStatusCode));
    entries.push(empty_entry(Field::TraceId));
    entries.push(empty_entry(Field::RequestId));
    entries.push(empty_entry(Field::ExceptionMessage));
    entries.push(text_entry(Field::SpanType, SpanType::Web.label()));
    assert(entries_view(entries@) =~= http_fields(*req));
    Span::new("HTTP request", entries)
}

/// Whether a status code is in the server-error class, 500 to 599.
pub open spec fn is_server_error(status: u16) -> bool {
    500 <= status < 600
}

/// A span after the response to its request was seen: the status code is
/// recorded, and the span is an error where the server failed. Any other
/// status leaves the outcome of the span open.
pub open spec fn after_response(span: SpanView, response: ResponseHead) -> SpanView {
    let with_code = span.record(
        Field::HttpResponseStatusCode,
        Value::Number(response.status as i64),
    );
    if is_server_error(response.status) {
        with_code.record(Field::OtelStatusCode, Value::Text("ERROR"@))
    } else {
        with_code
    }
}

/// Records the outcome of a request from its response.
pub fn update_span_from_response(span: &mut Span, response: &ResponseHead)
    ensures
        final(span)@ == after_response(old(span)@, *response),
{
    span.record(Field::HttpResponseStatusCode, FieldValue::Number(response.status as i64));
    if 500 <= response.status && response.status < 600 {
        span.record(Field::OtelStatusCode, FieldValue::text("ERROR"));
    }
}

/// A span after its request failed without a response.
pub open spec fn after_error(span: SpanView, error: ErrorInfo) -> SpanView {
    span.record(Field::OtelStatusCode, Value::Text("ERROR"@)).record(
        Field::ExceptionMessage,
        Value::Text(error.message@),
    ).record(Field::ExceptionMessage, Value::Text(reported_message(error)))
}

/// Records a failure that left no response.
pub fn update_span_from_error(span: &mut Span, error: &ErrorInfo)
    ensures
        final(span)@ == after_error(old(span)@, *error),
{
    span.record(Field::OtelStatusCode, FieldValue::text("ERROR"));
    let ghost before = span@.fields;
    span.record(Field::ExceptionMessage, FieldValue::text(error.message.as_str()));
    match &error.source {
        Some(cause) => {
            span.record(Field::ExceptionMessage, FieldValue::text(cause.as_str()));
        },
        None => {
            proof {
                lemma_record_twice(
                    before,
                    Field::ExceptionMessage,
                    Value::Text(error.message@),
                );
            }
        },
    }
}

/// A span after its request ended, one way or the other.
pub open spec fn after_outcome(
    span: SpanView,
    response: Result<ResponseHead, ErrorInfo>,
) -> SpanView {
    match response {
        Ok(r) => after_response(span, r),
        Err(e) => after_error(span, e),
    }
}

/// Records how a request ended.
pub fn update_span_from_response_or_error(
    span: &mut Span,
    response: &Result<ResponseHead, ErrorInfo>,
)
    ensures
        final(span)@ == after_outcome(old(span)@, *response),
{
    match response {
        Ok(response) => {
            update_span_from_response(span, response);
        },
        Err(err) => {
            update_span_from_error(span, err);
        },
    }
}

/// The outcome of a span that declares `otel.status_code`, once the
/// response is there: `ERROR` for a status of the server-error class; for
/// any other status what the span held before.
pub proof fn lemma_status_of_response(span: SpanView, response: ResponseHead)
    requires
        span.get(Field::OtelStatusCode).is_some(),
    ensures
        is_server_error(response.status) ==> after_response(span, response).get(
            Field::OtelStatusCode,
        ) == Some(Value::Text("ERROR"@)),
        !is_server_error(response.status) ==> after_response(span, response).get(
            Field::OtelStatusCode,
        ) == span.get(Field::OtelStatusCode),
{
    let code = Value::Number(response.status as i64);
    let with_code = recorded(span.fields, Field::HttpResponseStatusCode, code);
    lemma_record_keeps_others(
        span.fields,
        Field::HttpResponseStatusCode,
        code,
        Field::OtelStatusCode,
    );
    lemma_record_then_get(with_code, Field::OtelStatusCode, Value::Text("ERROR"@));
}

/// A request that failed without a response leaves its span an error.
pub proof fn lemma_error_is_error(span: SpanView, error: ErrorInfo)
    requires
        span.get(Field::OtelStatusCode).is_some(),
    ensures
        after_error(span, error).get(Field::OtelStatusCode) == Some(Value::Text("ERROR"@)),
{
    let status = Value::Text("ERROR"@);
    lemma_record_then_get(span.fields, Field::OtelStatusCode, status);
    let s1 = recorded(span.fields, Field::OtelStatusCode, status);
    lemma_record_keeps_others(
        s1,
        Field::ExceptionMessage,
        Value::Text(error.message@),
        Field::OtelStatusCode,
    );
    let s2 = recorded(s1, Field::ExceptionMessage, Value::Text(error.message@));
    lemma_record_keeps_others(
        s2,
        Field::ExceptionMessage,
        Value::Text(reported_message(error)),
        Field::OtelStatusCode,
    );
}

} // verus!
