use axum_tracing_opentelemetry::axum_middleware::trace_extractor::opentelemetry_tracing_layer;
use axum_tracing_opentelemetry::collector::trace::{
    EventRecord, ExportTraceServiceRequest, FakeTraceService, ResourceSpans, ScopeSpans,
    SpanRecord,
};
use axum_tracing_opentelemetry::context::{find_trace_id, TraceContext};
use axum_tracing_opentelemetry::otel_http::http_server::update_span_from_response_or_error;
use axum_tracing_opentelemetry::otel_http::request::{
    HttpVersion, RequestHead, RequestUri, ResponseHead,
};
use axum_tracing_opentelemetry::span::{Field, FieldValue, Span};
use http::HeaderMap;
use opentelemetry::propagation::TextMapPropagator;
use opentelemetry::trace::{SpanContext, SpanId, TraceContextExt, TraceFlags, TraceId, TraceState};
use opentelemetry_sdk::propagation::TraceContextPropagator;
use std::collections::HashMap;

type PathFilter = fn(&str) -> bool;

fn remote_from(headers: &[(&str, &str)]) -> TraceContext {
    let carrier: HashMap<String, String> =
        headers.iter().map(|(k, v)| (k.to_string(), v.to_string())).collect();
    let cx = TraceContextPropagator::new().extract(&carrier);
    let span = cx.span();
    let sc = span.span_context();
    TraceContext {
        trace_id: sc.trace_id().to_bytes(),
        span_id: sc.span_id().to_bytes(),
        trace_flags: sc.trace_flags().to_u8(),
        is_remote: sc.is_remote(),
        trace_state: sc.trace_state().header(),
    }
}

fn traced(uri: &str, route: Option<&str>, headers: &[(&'static str, &str)], status: u16) -> Span {
    let uri: http::Uri = uri.parse().unwrap();
    let mut map = HeaderMap::new();
    for (name, value) in headers {
        map.append(*name, value.parse().unwrap());
    }
    let req = RequestHead {
        method: "GET".to_string(),
        uri: RequestUri {
            scheme: uri.scheme_str().map(|s| s.to_string()),
            host: uri.host().map(|s| s.to_string()),
            path: uri.path().to_string(),
            query: uri.query().map(|s| s.to_string()),
            path_and_query: uri.path_and_query().map(|s| s.as_str().to_string()),
        },
        version: HttpVersion::Http11,
        headers: map,
        matched_path: route.map(|r| r.to_string()),
        original_uri: None,
        peer_addr: None,
    };
    let service = opentelemetry_tracing_layer::<PathFilter>().layer(());
    let mut span = service.call(&req, remote_from(headers), [0x5a; 16], [0x5b; 8]);
    update_span_from_response_or_error(
        &mut span,
        &Ok(ResponseHead { status, headers: HeaderMap::new() }),
    );
    span
}

#[test]
fn check_span_event() {
    let span = traced("http://example.com/users/123", Some("/users/{id}"), &[], 200);
    assert_eq!(span.text(Field::HttpRoute), Some("/users/{id}"));
    assert_eq!(span.text(Field::OtelName), Some("GET /users/{id}"));
    assert_eq!(span.text(Field::ServerAddress), Some("example.com"));
    assert_eq!(span.text(Field::UrlScheme), Some("http"));
    assert_eq!(span.text(Field::UrlPath), Some("/users/123"));

    let span = traced("/idontexist/123", None, &[], 404);
    assert_eq!(span.text(Field::HttpRoute), Some(""));
    assert_eq!(span.text(Field::OtelName), Some("GET"));
    assert_eq!(span.number(Field::HttpResponseStatusCode), Some(404));
    assert!(matches!(span.get(Field::OtelStatusCode), Some(FieldValue::Empty)));

    let span = traced("/users/123", Some("/users/{id}"), &[], 200);
    assert_eq!(span.number(Field::HttpResponseStatusCode), Some(200));
    assert!(matches!(span.get(Field::OtelStatusCode), Some(FieldValue::Empty)));

    let span = traced("/status/500", Some("/status/500"), &[], 500);
    assert_eq!(span.number(Field::HttpResponseStatusCode), Some(500));
    assert_eq!(span.text(Field::OtelStatusCode), Some("ERROR"));

    let span = traced(
        "/users/123",
        Some("/users/{id}"),
        &[("user-agent", "tests"), ("x-forwarded-for", "127.0.0.1")],
        200,
    );
    assert_eq!(span.text(Field::UserAgentOriginal), Some("tests"));
    assert!(matches!(span.get(Field::HttpClientAddress), Some(FieldValue::Empty)));

    let span = traced(
        "/users/123",
        Some("/users/{id}"),
        &[("traceparent", "00-b2611246a58fd7ea623d2264c5a1e226-b2c9b811f2f424af-01")],
        200,
    );
    let parent = span.parent().unwrap();
    assert_eq!(find_trace_id(parent).unwrap(), "b2611246a58fd7ea623d2264c5a1e226");
    assert!(parent.is_remote);

    assert_eq!(span.text(Field::TraceId), Some("b2611246a58fd7ea623d2264c5a1e226"));

    let span = traced("/nest/123", Some("/nest/{nest_id}"), &[], 200);
    assert_eq!(span.text(Field::HttpRoute), Some("/nest/{nest_id}"));
    assert_eq!(span.text(Field::TraceId), Some("5a5a5a5a5a5a5a5a5a5a5a5a5a5a5a5a"));
    assert_eq!(span.parent().unwrap().trace_id, [0x5a; 16]);
}

#[test]
fn trace_id_propagate_into_response() {
    let context = TraceContext {
        trace_id: [0x4b; 16],
        span_id: [0x0a; 8],
        trace_flags: 1,
        is_remote: false,
        trace_state: String::new(),
    };
    let cx = opentelemetry::Context::new().with_remote_span_context(SpanContext::new(
        TraceId::from_bytes(context.trace_id),
        SpanId::from_bytes(context.span_id),
        TraceFlags::new(context.trace_flags),
        context.is_remote,
        TraceState::default(),
    ));
    let mut response_headers: HashMap<String, String> = HashMap::new();
    TraceContextPropagator::new().inject_context(&cx, &mut response_headers);
    let trace_id_body = find_trace_id(&context).unwrap_or_default();
    let trace_id_context = response_headers.get("traceparent").cloned().unwrap_or_default();
    assert!(trace_id_context.contains(&trace_id_body));
    assert!(!response_headers.contains_key("X-B3-TraceId"));
}

#[test]
fn demo_fake_tracer_and_collector() {
    let request = ExportTraceServiceRequest {
        resource_spans: vec![ResourceSpans {
            scope_spans: vec![ScopeSpans {
                spans: vec![SpanRecord {
                    trace_id: vec![0x11; 16],
                    span_id: vec![0x22; 8],
                    trace_state: String::new(),
                    parent_span_id: vec![],
                    name: "my-test-span".to_string(),
                    kind: "SPAN_KIND_SERVER".to_string(),
                    start_time_unix_nano: 1,
                    end_time_unix_nano: 2,
                    attributes: vec![],
                    dropped_attributes_count: 0,
                    events: vec![EventRecord {
                        time_unix_nano: 1,
                        name: "my-test-event".to_string(),
                        attributes: vec![],
                        dropped_attributes_count: 0,
                    }],
                    dropped_events_count: 0,
                    links: vec![],
                    dropped_links_count: 0,
                    status: None,
                }],
            }],
        }],
    };
    let otel_spans = FakeTraceService::new().export(request);
    assert_eq!(otel_spans.len(), 1);
    assert_eq!(otel_spans[0].name, "my-test-span");
    assert_eq!(otel_spans[0].kind, "SPAN_KIND_SERVER");
    assert_eq!(otel_spans[0].trace_id.len(), 32);
    assert_eq!(otel_spans[0].span_id.len(), 16);
    assert_eq!(otel_spans[0].parent_span_id, "");
    assert_eq!(otel_spans[0].events[0].name, "my-test-event");
}
