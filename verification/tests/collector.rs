use axum_tracing_opentelemetry::collector::common::{cnv_attributes, text_less, KeyValue};
use axum_tracing_opentelemetry::collector::logs::{
    ExportLogsServiceRequest, ExportedLog, FakeLogsService, LogRecord, ResourceLogs, ScopeLogs,
};
use axum_tracing_opentelemetry::collector::metrics::{Buckets, BucketsRecord};
use axum_tracing_opentelemetry::collector::trace::{
    EventRecord, ExportTraceServiceRequest, ExportedSpan, FakeTraceService, LinkRecord,
    MockTraceService, ResourceSpans, ScopeSpans, SpanRecord, Status, StatusRecord,
};
use axum_tracing_opentelemetry::collector::{poll_pause_millis, recv_many};

fn kv(key: &str, value: &str) -> KeyValue {
    KeyValue { key: key.to_string(), value: value.to_string() }
}

fn flat(attributes: &[KeyValue]) -> Vec<(&str, &str)> {
    attributes.iter().map(|a| (a.key.as_str(), a.value.as_str())).collect()
}

fn span(name: &str) -> SpanRecord {
    SpanRecord {
        trace_id: vec![0xb2, 0x61, 0x12, 0x46, 0xa5, 0x8f, 0xd7, 0xea, 0x62, 0x3d, 0x22, 0x64, 0xc5, 0xa1, 0xe2, 0x26],
        span_id: vec![0xb2, 0xc9, 0xb8, 0x11, 0xf2, 0xf4, 0x24, 0xaf],
        trace_state: "vendor=1".to_string(),
        parent_span_id: vec![],
        name: name.to_string(),
        kind: "SPAN_KIND_SERVER".to_string(),
        start_time_unix_nano: 10,
        end_time_unix_nano: 20,
        attributes: vec![kv("b", "2"), kv("a", "1")],
        dropped_attributes_count: 1,
        events: vec![EventRecord {
            time_unix_nano: 15,
            name: "my-test-event".to_string(),
            attributes: vec![kv("z", "26"), kv("y", "25")],
            dropped_attributes_count: 2,
        }],
        dropped_events_count: 3,
        links: vec![LinkRecord {
            trace_id: vec![0x00, 0x0f, 0xf0, 0xff],
            span_id: vec![0x01],
            trace_state: String::new(),
            attributes: vec![],
            dropped_attributes_count: 4,
        }],
        dropped_links_count: 5,
        status: Some(StatusRecord {
            message: "fine".to_string(),
            code: "STATUS_CODE_OK".to_string(),
        }),
    }
}

#[test]
fn attributes_are_ordered_by_key() {
    let out = cnv_attributes(&vec![kv("b", "2"), kv("a", "1"), kv("c", "3"), kv("ab", "4")]);
    assert_eq!(flat(&out), vec![("a", "1"), ("ab", "4"), ("b", "2"), ("c", "3")]);
    assert!(cnv_attributes(&vec![]).is_empty());
}

#[test]
fn the_last_value_of_a_key_stays() {
    let out = cnv_attributes(&vec![kv("k", "1"), kv("a", "x"), kv("k", "2"), kv("k", "3")]);
    assert_eq!(flat(&out), vec![("a", "x"), ("k", "3")]);
}

#[test]
fn keys_are_ordered_as_texts() {
    let out = cnv_attributes(&vec![kv("é", "4"), kv("Z", "2"), kv("a", "3"), kv("", "1"), kv("z", "5")]);
    assert_eq!(flat(&out), vec![("", "1"), ("Z", "2"), ("a", "3"), ("z", "5"), ("é", "4")]);
    assert!(text_less("", "a"));
    assert!(!text_less("a", ""));
    assert!(!text_less("a", "a"));
    assert!(text_less("a", "ab"));
    assert!(text_less("ab", "b"));
    assert!(!text_less("b", "ab"));
    assert!(text_less("code.filepath", "code.lineno"));
}

#[test]
fn a_span_is_exported_with_hexadecimal_identifiers() {
    let out = ExportedSpan::from(span("my-test-span"));
    assert_eq!(out.trace_id, "b2611246a58fd7ea623d2264c5a1e226");
    assert_eq!(out.span_id, "b2c9b811f2f424af");
    assert_eq!(out.parent_span_id, "");
    assert_eq!(out.trace_state, "vendor=1");
    assert_eq!(out.name, "my-test-span");
    assert_eq!(out.kind, "SPAN_KIND_SERVER");
    assert_eq!(out.start_time_unix_nano, 10);
    assert_eq!(out.end_time_unix_nano, 20);
    assert_eq!(flat(&out.attributes), vec![("a", "1"), ("b", "2")]);
    assert_eq!(out.dropped_attributes_count, 1);
    assert_eq!(out.events.len(), 1);
    assert_eq!(out.events[0].time_unix_nano, 15);
    assert_eq!(out.events[0].name, "my-test-event");
    assert_eq!(flat(&out.events[0].attributes), vec![("y", "25"), ("z", "26")]);
    assert_eq!(out.events[0].dropped_attributes_count, 2);
    assert_eq!(out.dropped_events_count, 3);
    assert_eq!(out.links.len(), 1);
    assert_eq!(out.links[0].trace_id, "000ff0ff");
    assert_eq!(out.links[0].span_id, "01");
    assert_eq!(out.links[0].trace_state, "");
    assert!(out.links[0].attributes.is_empty());
    assert_eq!(out.links[0].dropped_attributes_count, 4);
    assert_eq!(out.dropped_links_count, 5);
    let status = out.status.unwrap();
    assert_eq!(status.message, "fine");
    assert_eq!(status.code, "STATUS_CODE_OK");
}

#[test]
fn a_span_without_status_has_none() {
    let mut record = span("x");
    record.status = None;
    record.events.clear();
    record.links.clear();
    let out = ExportedSpan::from_record(&record);
    assert!(out.status.is_none());
    assert!(out.events.is_empty());
    assert!(out.links.is_empty());
    let status = Status::from(StatusRecord { message: "m".to_string(), code: "c".to_string() });
    assert_eq!((status.message.as_str(), status.code.as_str()), ("m", "c"));
}

#[test]
fn test_mock_tracer_and_collector() {
    let request = ExportTraceServiceRequest {
        resource_spans: vec![
            ResourceSpans {
                scope_spans: vec![
                    ScopeSpans { spans: vec![span("a"), span("b")] },
                    ScopeSpans { spans: vec![] },
                    ScopeSpans { spans: vec![span("c")] },
                ],
            },
            ResourceSpans { scope_spans: vec![] },
            ResourceSpans { scope_spans: vec![ScopeSpans { spans: vec![span("d")] }] },
        ],
    };
    let out = MockTraceService::new().export(request);
    let names: Vec<&str> = out.iter().map(|s| s.name.as_str()).collect();
    assert_eq!(names, vec!["a", "b", "c", "d"]);
    assert!(out.iter().all(|s| s.trace_id.len() == 32 && s.span_id.len() == 16));
    assert!(FakeTraceService::new()
        .export(ExportTraceServiceRequest { resource_spans: vec![] })
        .is_empty());
}

fn log(text: &str) -> LogRecord {
    LogRecord {
        trace_id: vec![0xab; 16],
        span_id: vec![0xcd; 8],
        observed_time_unix_nano: 7,
        severity_number: 9,
        severity_text: "INFO".to_string(),
        body: Some(text.to_string()),
        attributes: vec![kv("k2", "v2"), kv("k1", "v1")],
        dropped_attributes_count: 0,
        flags: 1,
    }
}

#[test]
fn demo_fake_logger_and_collector() {
    let out = ExportedLog::from(log("hello"));
    assert_eq!(out.trace_id, "abababababababababababababababab");
    assert_eq!(out.span_id, "cdcdcdcdcdcdcdcd");
    assert_eq!(out.observed_time_unix_nano, 7);
    assert_eq!(out.severity_number, 9);
    assert_eq!(out.severity_text, "INFO");
    assert_eq!(out.body.as_deref(), Some("hello"));
    assert_eq!(flat(&out.attributes), vec![("k1", "v1"), ("k2", "v2")]);
    assert_eq!(out.flags, 1);

    let mut without_body = log("x");
    without_body.body = None;
    assert_eq!(ExportedLog::from_record(&without_body).body, None);

    let request = ExportLogsServiceRequest {
        resource_logs: vec![
            ResourceLogs { scope_logs: vec![ScopeLogs { log_records: vec![log("1")] }] },
            ResourceLogs {
                scope_logs: vec![
                    ScopeLogs { log_records: vec![] },
                    ScopeLogs { log_records: vec![log("2"), log("3")] },
                ],
            },
        ],
    };
    let out = FakeLogsService::new().export(request);
    let bodies: Vec<&str> = out.iter().map(|l| l.body.as_deref().unwrap()).collect();
    assert_eq!(bodies, vec!["1", "2", "3"]);
}

#[test]
fn buckets_are_copied() {
    let out = Buckets::from(&BucketsRecord { offset: -3, bucket_counts: vec![1, 0, 7] });
    assert_eq!(out, Buckets { offset: -3, bucket_counts: vec![1, 0, 7] });
    assert!(Buckets::from(&BucketsRecord { offset: 0, bucket_counts: vec![] })
        .bucket_counts
        .is_empty());
}

#[test]
fn the_pause_is_a_tenth_of_the_timeout_and_ten_milliseconds_at_most() {
    assert_eq!(poll_pause_millis(0), 0);
    assert_eq!(poll_pause_millis(9), 0);
    assert_eq!(poll_pause_millis(50), 5);
    assert_eq!(poll_pause_millis(99), 9);
    assert_eq!(poll_pause_millis(100), 10);
    assert_eq!(poll_pause_millis(20_000), 10);
    assert_eq!(poll_pause_millis(u64::MAX), 10);
}

#[test]
fn waiting_ends_with_enough_records_or_with_the_time() {
    assert!(recv_many(0, 1, 0, 100));
    assert!(!recv_many(1, 1, 0, 100));
    assert!(!recv_many(0, 1, 100, 100));
    assert!(!recv_many(0, 0, 0, 100));
    assert!(recv_many(3, 4, 99, 100));
}
