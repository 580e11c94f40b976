use axum_tracing_opentelemetry::context::TraceContext;
use axum_tracing_opentelemetry::inmemory_exporter::{
    opentelemetry_value_to_json, span_data_to_jaeger_json, Attribute, AttributeValue, EventData,
    InMemoryJsonExporter, JaegerValue, RefType, SpanData,
};

fn context(trace: u8, span: u8) -> TraceContext {
    TraceContext {
        trace_id: [trace; 16],
        span_id: [span; 8],
        trace_flags: 1,
        is_remote: false,
        trace_state: String::new(),
    }
}

fn span(trace: u8, id: u8, name: &str) -> SpanData {
    SpanData {
        span_context: context(trace, id),
        parent_span_id: [0; 8],
        name: name.to_string(),
        start_time_nanos: 1_000_999,
        end_time_nanos: 3_500_000,
        attributes: vec![],
        events: vec![],
        links: vec![],
    }
}

fn attribute(key: &str, value: AttributeValue) -> Attribute {
    Attribute { key: key.to_string(), value }
}

#[test]
fn values_are_written_with_the_name_of_their_type() {
    assert!(matches!(
        opentelemetry_value_to_json(&AttributeValue::Bool(true)),
        ("bool", JaegerValue::Bool(true))
    ));
    assert!(matches!(
        opentelemetry_value_to_json(&AttributeValue::I64(-3)),
        ("int64", JaegerValue::Int(-3))
    ));
    assert!(matches!(
        opentelemetry_value_to_json(&AttributeValue::F64("1.5".to_string())),
        ("float64", JaegerValue::Float(f)) if f == "1.5"
    ));
    assert!(matches!(
        opentelemetry_value_to_json(&AttributeValue::String("x".to_string())),
        ("string", JaegerValue::Text(t)) if t == "x"
    ));
    assert!(matches!(
        opentelemetry_value_to_json(&AttributeValue::Array("[1,2]".to_string())),
        ("string", JaegerValue::Text(t)) if t == "[1,2]"
    ));
}

#[test]
fn a_root_span_without_links_has_no_references() {
    let out = span_data_to_jaeger_json(&span(0xab, 0xcd, "root"));
    assert_eq!(out.trace_id, "abababababababababababababababab");
    assert_eq!(out.span_id, "cdcdcdcdcdcdcdcd");
    assert_eq!(out.start_time, 1_000);
    assert_eq!(out.duration, 2_499);
    assert_eq!(out.operation_name, "root");
    assert!(out.tags.is_empty());
    assert!(out.logs.is_empty());
    assert_eq!(out.flags, 1);
    assert_eq!(out.process_id, "p1");
    assert!(out.warnings.is_none());
    assert!(out.references.is_none());
}

#[test]
fn a_child_span_refers_to_its_parent_after_its_links() {
    let mut data = span(1, 2, "child");
    data.parent_span_id = [0, 0, 0, 0, 0, 0, 0, 3];
    let refs = span_data_to_jaeger_json(&data).references.unwrap();
    assert_eq!(refs.len(), 1);
    assert_eq!(refs[0].ref_type, RefType::ChildOf);
    assert_eq!(refs[0].trace_id, "01010101010101010101010101010101");
    assert_eq!(refs[0].span_id, "0000000000000003");

    data.links = vec![context(4, 5), context(6, 7)];
    let refs = span_data_to_jaeger_json(&data).references.unwrap();
    assert_eq!(refs.len(), 3);
    assert_eq!(refs[0].ref_type, RefType::FollowsFrom);
    assert_eq!(refs[0].trace_id, "04040404040404040404040404040404");
    assert_eq!(refs[0].span_id, "0505050505050505");
    assert_eq!(refs[1].span_id, "0707070707070707");
    assert_eq!(refs[2].ref_type, RefType::ChildOf);
    assert_eq!(refs[2].span_id, "0000000000000003");

    data.parent_span_id = [0; 8];
    let refs = span_data_to_jaeger_json(&data).references.unwrap();
    assert_eq!(refs.len(), 2);
    assert_eq!(RefType::FollowsFrom.name(), "FOLLOWS_FROM");
    assert_eq!(RefType::ChildOf.name(), "CHILD_OF");
}

#[test]
fn attributes_become_tags_and_events_become_logs() {
    let mut data = span(1, 2, "s");
    data.attributes = vec![
        attribute("http.route", AttributeValue::String("/".to_string())),
        attribute("retries", AttributeValue::I64(2)),
    ];
    data.events = vec![EventData {
        name: "my-test-event".to_string(),
        timestamp_nanos: 2_000_500,
        attributes: vec![attribute("ok", AttributeValue::Bool(true))],
    }];
    let out = span_data_to_jaeger_json(&data);
    assert_eq!(out.tags.len(), 2);
    assert_eq!(out.tags[0].key, "http.route");
    assert_eq!(out.tags[0].tpe, "string");
    assert!(matches!(&out.tags[0].value, JaegerValue::Text(t) if t == "/"));
    assert_eq!(out.tags[1].key, "retries");
    assert_eq!(out.tags[1].tpe, "int64");
    assert!(matches!(out.tags[1].value, JaegerValue::Int(2)));
    assert_eq!(out.logs.len(), 1);
    assert_eq!(out.logs[0].timestamp, 2_000);
    assert_eq!(out.logs[0].fields.len(), 2);
    assert_eq!(out.logs[0].fields[0].key, "ok");
    assert_eq!(out.logs[0].fields[0].tpe, "bool");
    assert_eq!(out.logs[0].fields[1].key, "event");
    assert_eq!(out.logs[0].fields[1].tpe, "string");
    assert!(matches!(&out.logs[0].fields[1].value, JaegerValue::Text(t) if t == "my-test-event"));
}

#[test]
fn a_batch_is_kept_trace_by_trace() {
    let mut exporter = InMemoryJsonExporter::new("my-service");
    assert!(exporter.get_exported().is_empty());
    exporter.export(&vec![
        span(1, 1, "a"),
        span(2, 1, "b"),
        span(1, 2, "c"),
        span(3, 1, "d"),
        span(2, 2, "e"),
    ]);
    exporter.export(&vec![]);
    exporter.export(&vec![span(9, 9, "z")]);
    let batches = exporter.get_exported();
    assert_eq!(batches.len(), 3);
    let first = &batches[0].data;
    assert_eq!(first.len(), 3);
    assert_eq!(first[0].trace_id, "01010101010101010101010101010101");
    assert_eq!(first[0].service_name, "my-service");
    let names: Vec<&str> = first[0].spans.iter().map(|s| s.operation_name.as_str()).collect();
    assert_eq!(names, vec!["a", "c"]);
    let names: Vec<&str> = first[1].spans.iter().map(|s| s.operation_name.as_str()).collect();
    assert_eq!(names, vec!["b", "e"]);
    assert_eq!(first[2].trace_id, "03030303030303030303030303030303");
    assert_eq!(first[2].spans.len(), 1);
    assert!(batches[1].data.is_empty());
    assert_eq!(batches[2].data.len(), 1);
    assert_eq!(batches[2].data[0].spans[0].span_id, "0909090909090909");
}
