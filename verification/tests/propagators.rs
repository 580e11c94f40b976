use axum_tracing_opentelemetry::context::{find_trace_id, TraceContext};
use axum_tracing_opentelemetry::init::error::Error;
use axum_tracing_opentelemetry::init::propagator::{
    init_propagator, propagator_from_string, PropagatorError, PropagatorKind, PropagatorSupport,
};
use opentelemetry::propagation::TextMapPropagator;
use opentelemetry::trace::{SpanContext, SpanId, TraceContextExt, TraceFlags, TraceId, TraceState};
use opentelemetry_sdk::propagation::TraceContextPropagator;
use std::collections::HashMap;

const ALL: PropagatorSupport = PropagatorSupport { zipkin: true, jaeger: true, xray: true };

fn to_model(cx: &opentelemetry::Context) -> TraceContext {
    let span = cx.span();
    let sc = span.span_context();
    TraceContext {
        trace_id: sc.trace_id().to_bytes(),
        span_id: sc.span_id().to_bytes(),
        trace_flags: sc.trace_flags().to_u8(),
        is_remote: sc.is_remote(),
        trace_state: sc.trace_state().header(),
    }
}

fn from_model(cx: &TraceContext) -> opentelemetry::Context {
    opentelemetry::Context::new().with_remote_span_context(SpanContext::new(
        TraceId::from_bytes(cx.trace_id),
        SpanId::from_bytes(cx.span_id),
        TraceFlags::new(cx.trace_flags),
        cx.is_remote,
        TraceState::default(),
    ))
}

#[test]
fn lib_init_tracing_failed_on_invalid_propagator() {
    assert!(matches!(
        propagator_from_string("xxxxxx", PropagatorSupport::none()),
        Err(_)
    ));
}

#[test]
fn mod_init_tracing_failed_on_invalid_propagator() {
    assert!(matches!(propagator_from_string("xxxxxx", ALL), Err(_)));
}

#[test]
fn the_unknown_name_is_reported() {
    match propagator_from_string("xxxxxx", ALL) {
        Err(PropagatorError::Unsupported(name)) => assert_eq!(name, "xxxxxx"),
        other => panic!("unexpected {other:?}"),
    }
    let error = propagator_from_string("ottrace", ALL).unwrap_err();
    assert_eq!(
        error.to_string(),
        "unsupported propagators form env OTEL_PROPAGATORS: 'ottrace'"
    );
    match error.into_error() {
        Error::TraceError(m) => {
            assert_eq!(m, "unsupported propagators form env OTEL_PROPAGATORS: 'ottrace'")
        }
        other => panic!("unexpected {other:?}"),
    }
}

#[test]
fn the_standard_propagators_are_always_there() {
    let none = PropagatorSupport::none();
    assert_eq!(
        propagator_from_string("tracecontext", none).unwrap(),
        Some(PropagatorKind::TraceContext)
    );
    assert_eq!(propagator_from_string("baggage", none).unwrap(), Some(PropagatorKind::Baggage));
    assert_eq!(propagator_from_string("none", none).unwrap(), None);
}

#[test]
fn the_optional_propagators_need_their_feature() {
    assert_eq!(propagator_from_string("b3", ALL).unwrap(), Some(PropagatorKind::B3));
    assert_eq!(propagator_from_string("b3multi", ALL).unwrap(), Some(PropagatorKind::B3Multi));
    assert_eq!(propagator_from_string("jaeger", ALL).unwrap(), Some(PropagatorKind::Jaeger));
    assert_eq!(propagator_from_string("xray", ALL).unwrap(), Some(PropagatorKind::Xray));

    let none = PropagatorSupport::none();
    let expected = [
        ("b3", PropagatorKind::B3, "zipkin"),
        ("b3multi", PropagatorKind::B3Multi, "zipkin"),
        ("jaeger", PropagatorKind::Jaeger, "jaeger"),
        ("xray", PropagatorKind::Xray, "xray"),
    ];
    for (name, kind, feature) in expected {
        let error = propagator_from_string(name, none).unwrap_err();
        assert!(matches!(&error, PropagatorError::MissingFeature(k) if *k == kind));
        assert_eq!(
            error.to_string(),
            format!(
                "unsupported propagators form env OTEL_PROPAGATORS: '{name}', try to enable compile feature '{feature}'"
            )
        );
    }
    let only_jaeger = PropagatorSupport { zipkin: false, jaeger: true, xray: false };
    assert!(propagator_from_string("jaeger", only_jaeger).is_ok());
    assert!(propagator_from_string("b3", only_jaeger).is_err());
    assert!(propagator_from_string("xray", only_jaeger).is_err());
}

#[test]
fn names_are_matched_as_they_are() {
    assert!(propagator_from_string("TraceContext", ALL).is_err());
    assert!(propagator_from_string(" baggage", ALL).is_err());
    assert!(propagator_from_string("", ALL).is_err());
}

#[test]
fn the_default_list_is_tracecontext_and_baggage() {
    assert_eq!(
        init_propagator(None, PropagatorSupport::none()).unwrap(),
        vec![PropagatorKind::TraceContext, PropagatorKind::Baggage]
    );
}

#[test]
fn the_list_is_read_in_order_trimmed_and_in_lower_case() {
    assert_eq!(
        init_propagator(Some(" B3Multi , TraceContext,baggage ,\tJAEGER"), ALL).unwrap(),
        vec![
            PropagatorKind::B3Multi,
            PropagatorKind::TraceContext,
            PropagatorKind::Baggage,
            PropagatorKind::Jaeger
        ]
    );
    assert_eq!(
        init_propagator(Some("tracecontext,tracecontext"), ALL).unwrap(),
        vec![PropagatorKind::TraceContext, PropagatorKind::TraceContext]
    );
}

#[test]
fn none_selects_nothing() {
    assert_eq!(init_propagator(Some("none"), ALL).unwrap(), vec![]);
    assert_eq!(
        init_propagator(Some("none,xray,NONE"), ALL).unwrap(),
        vec![PropagatorKind::Xray]
    );
}

#[test]
fn the_first_bad_name_fails_the_list() {
    let error = init_propagator(Some("tracecontext,b3,unknown"), PropagatorSupport::none())
        .unwrap_err();
    assert!(matches!(error, PropagatorError::MissingFeature(PropagatorKind::B3)));
    let error = init_propagator(Some("tracecontext,Unknown ,b3"), PropagatorSupport::none())
        .unwrap_err();
    assert!(matches!(error, PropagatorError::Unsupported(name) if name == "unknown"));
    assert!(init_propagator(Some(""), ALL).is_err());
    assert!(init_propagator(Some("tracecontext,"), ALL).is_err());
}

#[test]
fn propagator_names_and_features() {
    assert_eq!(PropagatorKind::TraceContext.name(), "tracecontext");
    assert_eq!(PropagatorKind::B3Multi.name(), "b3multi");
    assert_eq!(PropagatorKind::TraceContext.feature(), "");
    assert_eq!(PropagatorKind::B3.feature(), "zipkin");
}

#[test]
fn injecting_then_extracting_keeps_the_trace_id() {
    let context = TraceContext {
        trace_id: [
            0xb2, 0x61, 0x12, 0x46, 0xa5, 0x8f, 0xd7, 0xea, 0x62, 0x3d, 0x22, 0x64, 0xc5, 0xa1,
            0xe2, 0x26,
        ],
        span_id: [0xb2, 0xc9, 0xb8, 0x11, 0xf2, 0xf4, 0x24, 0xaf],
        trace_flags: 1,
        is_remote: true,
        trace_state: String::new(),
    };
    let propagator = TraceContextPropagator::new();
    let mut headers: HashMap<String, String> = HashMap::new();
    propagator.inject_context(&from_model(&context), &mut headers);
    let extracted = to_model(&propagator.extract(&headers));
    assert_eq!(extracted.trace_id, context.trace_id);
    assert_eq!(find_trace_id(&extracted), find_trace_id(&context));
    assert_eq!(find_trace_id(&extracted).unwrap(), "b2611246a58fd7ea623d2264c5a1e226");
}

#[test]
fn a_traceparent_header_gives_its_trace_id() {
    let mut headers: HashMap<String, String> = HashMap::new();
    headers.insert(
        "traceparent".to_string(),
        "00-b2611246a58fd7ea623d2264c5a1e226-b2c9b811f2f424af-01".to_string(),
    );
    let extracted = to_model(&TraceContextPropagator::new().extract(&headers));
    assert!(extracted.is_valid());
    assert_eq!(find_trace_id(&extracted).unwrap(), "b2611246a58fd7ea623d2264c5a1e226");

    let nothing = to_model(&TraceContextPropagator::new().extract(&HashMap::new()));
    assert!(!nothing.is_valid());
    assert_eq!(find_trace_id(&nothing), None);
}
