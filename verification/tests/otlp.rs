use axum_tracing_opentelemetry::init::otlp::{
    infer_protocol, infer_protocol_and_endpoint, init_meterprovider, init_tracerprovider,
    read_protocol_and_endpoint_from_env, read_sampler_from_env, sampler_from_name,
    select_exporter, supported_sampler, temporality_from_name, ExporterChoice, ExporterKind,
    MetricsEnv, OtlpEnv, Sampler, Signal, Temporality,
};

fn both(protocol: Option<&str>, endpoint: Option<&str>) -> (String, String) {
    infer_protocol_and_endpoint((
        protocol.map(|s| s.to_string()),
        endpoint.map(|s| s.to_string()),
    ))
}

fn pair(protocol: &str, endpoint: &str) -> (String, String) {
    (protocol.to_string(), endpoint.to_string())
}

fn env(
    signal_protocol: Option<&str>,
    protocol: Option<&str>,
    signal_endpoint: Option<&str>,
    endpoint: Option<&str>,
) -> OtlpEnv {
    OtlpEnv {
        signal_protocol: signal_protocol.map(|s| s.to_string()),
        protocol: protocol.map(|s| s.to_string()),
        signal_endpoint: signal_endpoint.map(|s| s.to_string()),
        endpoint: endpoint.map(|s| s.to_string()),
    }
}

#[test]
fn test_infer_protocol_and_endpoint_nothing() {
    assert_eq!(both(None, None), pair("http/protobuf", "http://localhost:4318"));
}

#[test]
fn test_infer_protocol_and_endpoint_http_protocol() {
    assert_eq!(both(Some("http/protobuf"), None), pair("http/protobuf", "http://localhost:4318"));
}

#[test]
fn test_infer_protocol_and_endpoint_grpc_protocol() {
    assert_eq!(both(Some("grpc"), None), pair("grpc", "http://localhost:4317"));
}

#[test]
fn test_infer_protocol_and_endpoint_grpc_port() {
    assert_eq!(both(None, Some("http://localhost:4317")), pair("grpc", "http://localhost:4317"));
}

#[test]
fn test_infer_protocol_and_endpoint_both() {
    assert_eq!(
        both(Some("http/protobuf"), Some("http://localhost:4318")),
        pair("http/protobuf", "http://localhost:4318")
    );
    assert_eq!(
        both(Some("http/protobuf"), Some("https://examples.com:4318")),
        pair("http/protobuf", "https://examples.com:4318")
    );
    assert_eq!(
        both(Some("http/protobuf"), Some("https://examples.com:4317")),
        pair("http/protobuf", "https://examples.com:4317")
    );
}

#[test]
fn infer_protocol_and_endpoint_other_cases() {
    assert_eq!(
        both(None, Some("http://collector:4318")),
        pair("http/protobuf", "http://collector:4318")
    );
    assert_eq!(both(Some("grpc/tls"), None), pair("grpc/tls", "http://localhost:4317"));
    assert_eq!(both(Some("whatever"), None), pair("whatever", "http://localhost:4317"));
    assert_eq!(both(None, Some("")), pair("http/protobuf", ""));
    assert_eq!(both(None, Some(":4317")), pair("grpc", ":4317"));
    assert_eq!(both(None, Some("http://h:43170/x")), pair("grpc", "http://h:43170/x"));
}

#[test]
fn test_infer_protocol() {
    for tls in [false, true] {
        assert_eq!(infer_protocol(None, None, tls).as_deref(), Some("http/protobuf"));
        assert_eq!(
            infer_protocol(Some("http/protobuf"), None, tls).as_deref(),
            Some("http/protobuf")
        );
        assert_eq!(infer_protocol(Some("grpc"), None, tls).as_deref(), Some("grpc"));
        assert_eq!(
            infer_protocol(None, Some("http://localhost:4317"), tls).as_deref(),
            Some("grpc")
        );
        assert_eq!(
            infer_protocol(Some("http/protobuf"), Some("http://localhost:4318/v1/traces"), tls)
                .as_deref(),
            Some("http/protobuf")
        );
        assert_eq!(
            infer_protocol(Some("http/protobuf"), Some("https://examples.com:4318/v1/traces"), tls)
                .as_deref(),
            Some("http/protobuf")
        );
        assert_eq!(
            infer_protocol(Some("http/protobuf"), Some("https://examples.com:4317"), tls)
                .as_deref(),
            Some("http/protobuf")
        );
    }
}

#[test]
fn infer_protocol_with_tls() {
    assert_eq!(
        infer_protocol(None, Some("https://localhost:4317"), true).as_deref(),
        Some("grpc/tls")
    );
    assert_eq!(
        infer_protocol(Some("grpc/tls"), Some("https://localhost:4317"), true).as_deref(),
        Some("grpc/tls")
    );
    assert_eq!(
        infer_protocol(Some("grpc"), Some("https://localhost:1234"), true).as_deref(),
        Some("grpc/tls")
    );
    assert_eq!(
        infer_protocol(Some("grpc"), Some("http://localhost:4317"), true).as_deref(),
        Some("grpc")
    );
    assert_eq!(infer_protocol(Some("grpc"), None, true).as_deref(), Some("grpc"));
}

#[test]
fn infer_protocol_without_tls() {
    assert_eq!(
        infer_protocol(None, Some("https://localhost:4317"), false).as_deref(),
        Some("grpc")
    );
    assert_eq!(
        infer_protocol(None, Some("https://localhost:4318"), false).as_deref(),
        Some("http/protobuf")
    );
}

#[test]
fn the_signal_variables_go_first() {
    let (p, e) = read_protocol_and_endpoint_from_env(
        &env(Some("grpc"), Some("http/protobuf"), Some("http://a:1"), Some("http://b:2")),
        Signal::Traces,
    );
    assert_eq!(p.as_deref(), Some("grpc"));
    assert_eq!(e.as_deref(), Some("http://a:1"));
}

#[test]
fn the_general_endpoint_gets_the_path_of_the_signal_over_http() {
    let general = env(None, Some("http/protobuf"), None, Some("http://b:4318"));
    let (p, e) = read_protocol_and_endpoint_from_env(&general, Signal::Traces);
    assert_eq!(p.as_deref(), Some("http/protobuf"));
    assert_eq!(e.as_deref(), Some("http://b:4318/v1/traces"));
    let (_, e) = read_protocol_and_endpoint_from_env(&general, Signal::Metrics);
    assert_eq!(e.as_deref(), Some("http://b:4318/v1/metrics"));

    let grpc = env(None, Some("grpc"), None, Some("http://b:4317"));
    let (_, e) = read_protocol_and_endpoint_from_env(&grpc, Signal::Traces);
    assert_eq!(e.as_deref(), Some("http://b:4317"));

    let no_protocol = env(None, None, None, Some("http://b:4318"));
    let (p, e) = read_protocol_and_endpoint_from_env(&no_protocol, Signal::Traces);
    assert_eq!(p, None);
    assert_eq!(e.as_deref(), Some("http://b:4318"));

    let signal_endpoint = env(None, Some("http/protobuf"), Some("http://a:1"), None);
    let (_, e) = read_protocol_and_endpoint_from_env(&signal_endpoint, Signal::Traces);
    assert_eq!(e.as_deref(), Some("http://a:1"));

    let nothing = env(None, None, None, None);
    assert_eq!(read_protocol_and_endpoint_from_env(&nothing, Signal::Traces), (None, None));
}

#[test]
fn the_exporter_follows_the_protocol() {
    assert!(matches!(
        select_exporter(Some("http/protobuf"), false),
        ExporterChoice::Build(ExporterKind::Http)
    ));
    assert!(matches!(
        select_exporter(Some("grpc"), false),
        ExporterChoice::Build(ExporterKind::Grpc)
    ));
    assert!(matches!(
        select_exporter(Some("grpc/tls"), true),
        ExporterChoice::Build(ExporterKind::GrpcTls)
    ));
    assert!(matches!(
        select_exporter(Some("grpc/tls"), false),
        ExporterChoice::Unknown(p) if p == "grpc/tls"
    ));
    assert!(matches!(
        select_exporter(Some("http/json"), true),
        ExporterChoice::Unknown(p) if p == "http/json"
    ));
    assert!(matches!(select_exporter(None, true), ExporterChoice::Unset));
}

#[test]
fn the_tracer_provider_is_planned_from_the_environment() {
    assert!(matches!(
        init_tracerprovider(&env(None, None, None, None), false),
        ExporterChoice::Build(ExporterKind::Http)
    ));
    assert!(matches!(
        init_tracerprovider(&env(None, None, None, None), true),
        ExporterChoice::Build(ExporterKind::Http)
    ));
    assert!(matches!(
        init_tracerprovider(&env(None, None, None, Some("http://localhost:4317")), false),
        ExporterChoice::Build(ExporterKind::Grpc)
    ));
    assert!(matches!(
        init_tracerprovider(&env(None, None, Some("https://c:4317"), None), true),
        ExporterChoice::Build(ExporterKind::GrpcTls)
    ));
    assert!(matches!(
        init_tracerprovider(&env(None, None, Some("https://c:4317"), None), false),
        ExporterChoice::Build(ExporterKind::Grpc)
    ));
    assert!(matches!(
        init_tracerprovider(&env(None, Some("http/protobuf"), None, Some("http://c:4317")), false),
        ExporterChoice::Build(ExporterKind::Http)
    ));
    assert!(matches!(
        init_tracerprovider(&env(Some("kafka"), None, None, None), false),
        ExporterChoice::Unknown(p) if p == "kafka"
    ));
}

#[test]
fn the_meter_provider_has_defaults() {
    let plan = init_meterprovider(
        &MetricsEnv {
            otlp: env(None, None, None, None),
            timeout: None,
            temporality: None,
            export_interval: None,
        },
        false,
    );
    assert!(matches!(plan.exporter, ExporterChoice::Build(ExporterKind::Http)));
    assert_eq!(plan.timeout_secs, 10);
    assert_eq!(plan.temporality, Temporality::Cumulative);
    assert_eq!(plan.export_interval_millis, 60_000);
}

#[test]
fn the_meter_provider_reads_its_variables() {
    let plan = init_meterprovider(
        &MetricsEnv {
            otlp: env(Some("grpc"), None, None, None),
            timeout: Some("3".to_string()),
            temporality: Some("DELTA".to_string()),
            export_interval: Some("250".to_string()),
        },
        false,
    );
    assert!(matches!(plan.exporter, ExporterChoice::Build(ExporterKind::Grpc)));
    assert_eq!(plan.timeout_secs, 3);
    assert_eq!(plan.temporality, Temporality::Delta);
    assert_eq!(plan.export_interval_millis, 250);

    let plan = init_meterprovider(
        &MetricsEnv {
            otlp: env(None, Some("http/protobuf"), None, Some("http://c:4318")),
            timeout: Some("3s".to_string()),
            temporality: Some("lowmemory".to_string()),
            export_interval: Some("-1".to_string()),
        },
        false,
    );
    assert!(matches!(plan.exporter, ExporterChoice::Build(ExporterKind::Http)));
    assert_eq!(plan.timeout_secs, 10);
    assert_eq!(plan.temporality, Temporality::Cumulative);
    assert_eq!(plan.export_interval_millis, 60_000);

    let plan = init_meterprovider(
        &MetricsEnv {
            otlp: env(None, None, None, None),
            timeout: Some("18446744073709551615".to_string()),
            temporality: Some("Cumulative".to_string()),
            export_interval: Some("18446744073709551616".to_string()),
        },
        false,
    );
    assert_eq!(plan.timeout_secs, u64::MAX);
    assert_eq!(plan.temporality, Temporality::Cumulative);
    assert_eq!(plan.export_interval_millis, 60_000);
}

#[test]
fn temporality_names() {
    assert_eq!(temporality_from_name("delta"), Some(Temporality::Delta));
    assert_eq!(temporality_from_name("cumulative"), Some(Temporality::Cumulative));
    assert_eq!(temporality_from_name("Delta"), None);
    assert_eq!(temporality_from_name(""), None);
}

#[test]
fn sampler_names() {
    assert_eq!(sampler_from_name("always_on"), Sampler::AlwaysOn);
    assert_eq!(sampler_from_name("always_off"), Sampler::AlwaysOff);
    assert_eq!(sampler_from_name("traceidratio"), Sampler::TraceIdRatioBased);
    assert_eq!(sampler_from_name("parentbased_always_on"), Sampler::ParentBasedAlwaysOn);
    assert_eq!(sampler_from_name("parentbased_always_off"), Sampler::ParentBasedAlwaysOff);
    assert_eq!(
        sampler_from_name("parentbased_traceidratio"),
        Sampler::ParentBasedTraceIdRatioBased
    );
    assert_eq!(sampler_from_name(""), Sampler::ParentBasedAlwaysOn);
    assert_eq!(sampler_from_name("something"), Sampler::ParentBasedAlwaysOn);
}

#[test]
fn the_sampler_is_read_in_lower_case() {
    assert_eq!(read_sampler_from_env(None), Some(Sampler::ParentBasedAlwaysOn));
    assert_eq!(read_sampler_from_env(Some("ALWAYS_OFF")), Some(Sampler::AlwaysOff));
    assert_eq!(read_sampler_from_env(Some("TraceIdRatio")), Some(Sampler::TraceIdRatioBased));
    assert_eq!(read_sampler_from_env(Some("jaeger_remote")), None);
    assert_eq!(read_sampler_from_env(Some("XRay")), None);
    assert_eq!(read_sampler_from_env(Some("xray ")), Some(Sampler::ParentBasedAlwaysOn));
}

#[test]
fn signal_paths() {
    assert_eq!(Signal::Traces.path(), "/v1/traces");
    assert_eq!(Signal::Metrics.path(), "/v1/metrics");
}

#[test]
fn a_protocol_is_inferred_whatever_is_configured() {
    assert_eq!(infer_protocol(None, None, false).as_deref(), Some("http/protobuf"));
    assert_eq!(infer_protocol(None, None, true).as_deref(), Some("http/protobuf"));
    assert_eq!(infer_protocol(None, Some(""), false).as_deref(), Some("http/protobuf"));
    assert_eq!(infer_protocol(Some(""), None, false).as_deref(), Some(""));
}

#[test]
fn samplers_without_support_select_nothing() {
    assert_eq!(supported_sampler("jaeger_remote"), None);
    assert_eq!(supported_sampler("xray"), None);
    assert_eq!(supported_sampler("always_on"), Some(Sampler::AlwaysOn));
    assert_eq!(supported_sampler("traceidratio"), Some(Sampler::TraceIdRatioBased));
    assert_eq!(supported_sampler("XRAY"), Some(Sampler::ParentBasedAlwaysOn));
    assert_eq!(supported_sampler(""), Some(Sampler::ParentBasedAlwaysOn));
}
