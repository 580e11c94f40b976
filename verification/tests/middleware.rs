use axum_tracing_opentelemetry::axum_middleware::response_injector::{
    response_with_trace_layer, OtelInResponseLayer,
};
use axum_tracing_opentelemetry::axum_middleware::trace_extractor::{
    make_span, opentelemetry_tracing_layer, OtelAxumLayer,
};
use axum_tracing_opentelemetry::context::TraceContext;
use axum_tracing_opentelemetry::otel_http::request::{HttpVersion, RequestHead, RequestUri};
use axum_tracing_opentelemetry::span::{Field, FieldValue};
use axum_tracing_opentelemetry::tonic_middleware::{client, server, trace_extractor};
use axum_tracing_opentelemetry::tonic_middleware::trace_extractor::WithFilter;
use http::HeaderMap;

const FALLBACK_TRACE: [u8; 16] = [0xfa; 16];
const FALLBACK_SPAN: [u8; 8] = [0xfb; 8];

type PathFilter = fn(&str) -> bool;
type CallFilter = fn(&str, &str) -> bool;

fn request(method: &str, path: &str, route: Option<&str>) -> RequestHead {
    RequestHead {
        method: method.to_string(),
        uri: RequestUri {
            scheme: None,
            host: None,
            path: path.to_string(),
            query: None,
            path_and_query: Some(path.to_string()),
        },
        version: HttpVersion::Http11,
        headers: HeaderMap::new(),
        matched_path: route.map(|r| r.to_string()),
        original_uri: None,
        peer_addr: None,
    }
}

fn remote_context() -> TraceContext {
    TraceContext {
        trace_id: [7; 16],
        span_id: [8; 8],
        trace_flags: 1,
        is_remote: true,
        trace_state: String::new(),
    }
}

fn not_health(path: &str) -> bool {
    !path.starts_with("/health")
}

fn not_health_service(service: &str, _method: &str) -> bool {
    service != "grpc.health.v1.Health"
}

#[test]
fn the_default_layer_traces_everything_without_client_address() {
    let layer = opentelemetry_tracing_layer::<PathFilter>();
    assert!(layer.filter.is_none());
    assert!(!layer.try_extract_client_ip);
    let mut req = request("GET", "/users/123", Some("/users/{id}"));
    req.headers.insert("x-forwarded-for", "127.0.0.1".parse().unwrap());
    let service = layer.layer(());
    let span = service.call(&req, remote_context(), FALLBACK_TRACE, FALLBACK_SPAN);
    assert!(span.is_enabled());
    assert_eq!(span.text(Field::HttpRoute), Some("/users/{id}"));
    assert_eq!(span.text(Field::OtelName), Some("GET /users/{id}"));
    assert!(matches!(span.get(Field::HttpClientAddress), Some(FieldValue::Empty)));
    assert_eq!(span.parent().unwrap().trace_id, [7; 16]);
    assert_eq!(span.text(Field::TraceId), Some("07070707070707070707070707070707"));
    assert_eq!(span.text(Field::HttpRequestMethod), Some("GET"));
    assert_eq!(span.text(Field::UrlPath), Some("/users/123"));
}

#[test]
fn the_name_of_an_unrouted_request_is_the_method() {
    let service = opentelemetry_tracing_layer::<PathFilter>().layer(());
    let span = service.call(&request("GET", "/idontexist/123", None), TraceContext::invalid(), FALLBACK_TRACE, FALLBACK_SPAN);
    assert_eq!(span.text(Field::HttpRoute), Some(""));
    assert_eq!(span.text(Field::OtelName), Some("GET"));
    assert!(!span.parent().unwrap().is_remote);
    assert_eq!(span.parent().unwrap().trace_id, FALLBACK_TRACE);
    assert_eq!(span.parent().unwrap().span_id, FALLBACK_SPAN);
    assert_eq!(span.text(Field::TraceId), Some("fafafafafafafafafafafafafafafafa"));
}

#[test]
fn the_filter_suppresses_spans() {
    let layer: OtelAxumLayer<PathFilter> = opentelemetry_tracing_layer().filter(not_health);
    let service = layer.layer(());
    let span = service.call(&request("GET", "/health", None), remote_context(), FALLBACK_TRACE, FALLBACK_SPAN);
    assert!(span.is_none());
    assert_eq!(span.len(), 0);
    assert!(span.parent().is_none());
    let span = service.call(&request("GET", "/users", None), remote_context(), FALLBACK_TRACE, FALLBACK_SPAN);
    assert!(span.is_enabled());
}

#[test]
fn the_client_address_is_looked_for_when_asked() {
    let layer = opentelemetry_tracing_layer::<PathFilter>().try_extract_client_ip(true);
    assert!(layer.try_extract_client_ip);
    let service = layer.layer(());
    let mut req = request("GET", "/", Some("/"));
    assert!(matches!(
        service.call(&req, remote_context(), FALLBACK_TRACE, FALLBACK_SPAN).get(Field::HttpClientAddress),
        Some(FieldValue::Empty)
    ));
    req.peer_addr = Some("192.0.2.1:4711".to_string());
    assert_eq!(
        service.call(&req, remote_context(), FALLBACK_TRACE, FALLBACK_SPAN).text(Field::HttpClientAddress),
        Some("192.0.2.1:4711")
    );
    req.headers.insert("x-forwarded-for", "198.51.100.7".parse().unwrap());
    assert_eq!(
        service.call(&req, remote_context(), FALLBACK_TRACE, FALLBACK_SPAN).text(Field::HttpClientAddress),
        Some("198.51.100.7")
    );
    req.headers.insert("forwarded", "for=[\"2001:db8::1\"]".parse().unwrap());
    assert_eq!(
        service.call(&req, remote_context(), FALLBACK_TRACE, FALLBACK_SPAN).text(Field::HttpClientAddress),
        Some("2001:db8::1")
    );
    assert_eq!(
        make_span(&req, false, remote_context()).text(Field::HttpClientAddress),
        None
    );
    assert_eq!(
        make_span(&req, false, remote_context()).text(Field::TraceId),
        Some("07070707070707070707070707070707")
    );
}

#[test]
fn the_builders_keep_what_they_do_not_set() {
    let layer = opentelemetry_tracing_layer::<PathFilter>()
        .try_extract_client_ip(true)
        .filter(not_health);
    assert!(layer.try_extract_client_ip);
    assert!(layer.filter.is_some());
    let layer = layer.try_extract_client_ip(false);
    assert!(layer.filter.is_some());
    let service = layer.layer(5u8);
    assert_eq!(service.inner, 5);
    assert!(!service.try_extract_client_ip);
}

#[test]
fn the_response_layer_wraps_the_inner_service() {
    let layer: OtelInResponseLayer = response_with_trace_layer();
    assert_eq!(layer.layer(3u8).inner, 3);
}

#[test]
fn the_grpc_client_traces_every_call() {
    let service = client::OtelGrpcLayer.layer(1u8);
    assert_eq!(service.inner, 1);
    let span = service.call(&request("POST", "/module.service/endpoint1", None));
    assert_eq!(span.text(Field::OtelKind), Some("Client"));
    assert_eq!(span.text(Field::OtelName), Some("module.service/endpoint1"));
    assert!(span.parent().is_none());
    assert!(matches!(span.get(Field::TraceId), Some(FieldValue::Empty)));
}

#[test]
fn the_grpc_server_traces_what_the_filter_lets_through() {
    let layer: server::OtelGrpcLayer<PathFilter> = server::OtelGrpcLayer::new();
    assert!(layer.filter.is_none());
    let service = layer.layer(());
    let span = service.call(&request("POST", "/health/Check", None), remote_context(), FALLBACK_TRACE, FALLBACK_SPAN);
    assert_eq!(span.text(Field::OtelKind), Some("Server"));
    assert_eq!(span.text(Field::RpcService), Some("health"));
    assert_eq!(span.parent().unwrap().span_id, [8; 8]);
    assert_eq!(span.text(Field::TraceId), Some("07070707070707070707070707070707"));
    let span = service.call(
        &request("POST", "/health/Check", None),
        TraceContext::invalid(),
        FALLBACK_TRACE,
        FALLBACK_SPAN,
    );
    assert_eq!(span.text(Field::TraceId), Some("fafafafafafafafafafafafafafafafa"));
    assert_eq!(span.parent().unwrap().trace_id, FALLBACK_TRACE);
    assert!(!span.parent().unwrap().is_remote);

    let service = server::OtelGrpcLayer::new().filter(not_health as PathFilter).layer(());
    assert!(service.call(&request("POST", "/health/Check", None), remote_context(), FALLBACK_TRACE, FALLBACK_SPAN).is_none());
    assert!(service.call(&request("POST", "/module.service/endpoint1", None), remote_context(), FALLBACK_TRACE, FALLBACK_SPAN)
        .is_enabled());
}

#[test]
fn check_span_event_grpc() {
    let mut maker: trace_extractor::OtelMakeSpan<CallFilter> = trace_extractor::OtelMakeSpan::new();
    let mut req = request("POST", "/module.service/endpoint1", None);
    req.headers.insert("user-agent", "tests".parse().unwrap());
    req.headers.insert("host", "example.com".parse().unwrap());
    let fallback = [1, 2, 3, 4, 5, 6, 7, 8, 9, 0, 0, 0, 0, 0, 0, 0];
    let span = maker.make_span(&req, TraceContext::invalid(), fallback, [4; 8]);
    assert_eq!(span.name(), "grpc request");
    assert_eq!(span.text(Field::RpcSystem), Some("grpc"));
    assert_eq!(span.text(Field::RpcService), Some("module.service"));
    assert_eq!(span.text(Field::RpcMethod), Some("endpoint1"));
    assert_eq!(span.text(Field::OtelName), Some("/module.service/endpoint1"));
    assert_eq!(span.text(Field::ServerAddress), Some("example.com"));
    assert_eq!(span.text(Field::HttpUserAgent), Some("tests"));
    assert_eq!(span.text(Field::OtelKind), Some("server"));
    assert!(matches!(span.get(Field::OtelStatusCode), Some(FieldValue::Empty)));
    assert_eq!(span.text(Field::TraceId), Some("01020304050607080900000000000000"));
    assert!(span.parent().is_none());
    let link = span.link().unwrap();
    assert_eq!(link.trace_id, fallback);
    assert_eq!(link.span_id, [4; 8]);

    let span = maker.make_span(&req, remote_context(), fallback, [4; 8]);
    assert_eq!(span.text(Field::TraceId), Some("07070707070707070707070707070707"));
    assert!(span.link().is_none());
    assert_eq!(span.parent().unwrap().span_id, [8; 8]);

    let mut failed = maker.make_span(&req, remote_context(), fallback, [4; 8]);
    trace_extractor::OtelOnFailure.on_failure(
        axum_tracing_opentelemetry::tower_trace::GrpcFailureClass::Code(2),
        &mut failed,
    );
    assert_eq!(failed.number(Field::HttpGrpcStatus), None);
}

#[test]
fn the_call_filter_sees_service_and_method() {
    let mut maker: trace_extractor::OtelMakeSpan<CallFilter> =
        trace_extractor::OtelMakeSpan::new().with_filter(not_health_service as CallFilter);
    let health = request("POST", "/grpc.health.v1.Health/Check", None);
    assert!(maker.make_span(&health, remote_context(), [1; 16], [1; 8]).is_none());
    let other = request("POST", "/module.service/endpoint1", None);
    assert!(maker.make_span(&other, remote_context(), [1; 16], [1; 8]).is_enabled());
    assert_eq!(
        trace_extractor::extract_service_method("/grpc.health.v1.Health/Check"),
        ("grpc.health.v1.Health", "Check")
    );
}
