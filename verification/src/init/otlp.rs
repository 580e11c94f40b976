//! Where to export to, and over which protocol.
//!
//! The settings come from environment variables, one set for each signal
//! and one for all signals. This module holds the rules that turn their
//! values into a choice of exporter; reading the variables and building
//! the exporter is left to the caller.

use crate::text::{
    contains, has_prefix, has_substring, lowercase, parse_number, parse_unsigned, same_text,
    starts_with, to_lowercase,
};
use vstd::prelude::*;

verus! {

/// Optional text as a mathematical value.
pub open spec fn text_view(s: Option<String>) -> Option<Seq<char>> {
    match s {
        Some(t) => Some(t@),
        None => None,
    }
}

/// Optional borrowed text as a mathematical value.
pub open spec fn str_view(s: Option<&str>) -> Option<Seq<char>> {
    match s {
        Some(t) => Some(t@),
        None => None,
    }
}

/// The signal that an exporter carries.
#[derive(Clone, Copy, Debug, PartialEq, Eq, Structural)]
pub enum Signal {
    Traces,
    Metrics,
}

impl Signal {
    /// The path that the signal is posted to over HTTP.
    pub open spec fn spec_path(self) -> Seq<char> {
        match self {
            Signal::Traces => "/v1/traces"@,
            Signal::Metrics => "/v1/metrics"@,
        }
    }

    /// The path that the signal is posted to over HTTP.
    pub fn path(self) -> (path: &'static str)
        ensures
            path@ == self.spec_path(),
    {
        match self {
            Signal::Traces => "/v1/traces",
            Signal::Metrics => "/v1/metrics",
        }
    }
}

/// The values of the variables that configure the exporter of one signal.
/// A variable that is not set, or set to something that is no text, is
/// `None`.
pub struct OtlpEnv {
    /// `OTEL_EXPORTER_OTLP_<SIGNAL>_PROTOCOL`
    pub signal_protocol: Option<String>,
    /// `OTEL_EXPORTER_OTLP_PROTOCOL`
    pub protocol: Option<String>,
    /// `OTEL_EXPORTER_OTLP_<SIGNAL>_ENDPOINT`
    pub signal_endpoint: Option<String>,
    /// `OTEL_EXPORTER_OTLP_ENDPOINT`
    pub endpoint: Option<String>,
}

/// The protocol that is configured: that of the signal, else the general
/// one.
pub open spec fn configured_protocol(env: OtlpEnv) -> Option<Seq<char>> {
    match env.signal_protocol {
        Some(p) => Some(p@),
        None => text_view(env.protocol),
    }
}

/// The endpoint that is configured: that of the signal as it is, else the
/// general one, with the path of the signal added where the configured
/// protocol is one over HTTP.
pub open spec fn configured_endpoint(env: OtlpEnv, signal: Signal) -> Option<Seq<char>> {
    match env.signal_endpoint {
        Some(e) => Some(e@),
        None => match env.endpoint {
            Some(e) => match configured_protocol(env) {
                Some(p) => if has_substring(p, "http"@) {
                    Some(e@ + signal.spec_path())
                } else {
                    Some(e@)
                },
                None => Some(e@),
            },
            None => None,
        },
    }
}

/// Picks protocol and endpoint out of the variables of a signal.
pub fn read_protocol_and_endpoint_from_env(env: &OtlpEnv, signal: Signal) -> (r: (
    Option<String>,
    Option<String>,
))
    ensures
        text_view(r.0) == configured_protocol(*env),
        text_view(r.1) == configured_endpoint(*env, signal),
{
    let maybe_protocol: Option<String> = match &env.signal_protocol {
        Some(p) => Some(p.clone()),
        None => match &env.protocol {
            Some(p) => Some(p.clone()),
            None => None,
        },
    };
    let maybe_endpoint: Option<String> = match &env.signal_endpoint {
        Some(e) => Some(e.clone()),
        None => match &env.endpoint {
            Some(e) => {
                let over_http = match &maybe_protocol {
                    Some(p) => contains(p.as_str(), "http"),
                    None => false,
                };
                if over_http {
                    let mut with_path = e.clone();
                    with_path.append(signal.path());
                    Some(with_path)
                } else {
                    Some(e.clone())
                }
            },
            None => None,
        },
    };
    (maybe_protocol, maybe_endpoint)
}

/// The protocol to export over: the configured one; else, going by the
/// endpoint, gRPC for port 4317 and HTTP with protobuf for anything else,
/// also where no endpoint is configured. Where TLS is built in, gRPC to an
/// `https` endpoint becomes gRPC over TLS.
pub open spec fn inferred_protocol(
    protocol: Option<Seq<char>>,
    endpoint: Option<Seq<char>>,
    tls: bool,
) -> Option<Seq<char>> {
    let plain = match protocol {
        Some(p) => Some(p),
        None => match endpoint {
            Some(e) => if has_substring(e, ":4317"@) {
                Some("grpc"@)
            } else {
                Some("http/protobuf"@)
            },
            None => Some("http/protobuf"@),
        },
    };
    if tls && plain == Some("grpc"@) && endpoint.is_some() && has_prefix(
        endpoint.unwrap(),
        "https"@,
    ) {
        Some("grpc/tls"@)
    } else {
        plain
    }
}

/// There always is a protocol to export over: with nothing configured it
/// is protobuf over HTTP, with and without TLS.
pub proof fn lemma_protocol_is_always_inferred(
    protocol: Option<Seq<char>>,
    endpoint: Option<Seq<char>>,
    tls: bool,
)
    ensures
        inferred_protocol(protocol, endpoint, tls).is_some(),
        inferred_protocol(None, None, tls) == Some("http/protobuf"@),
        protocol.is_some() && !tls ==> inferred_protocol(protocol, endpoint, tls) == protocol,
{
}

/// Infers the protocol to export over. `tls` says whether support for TLS
/// is built in. There always is a protocol: protobuf over HTTP is the
/// default.
pub fn infer_protocol(maybe_protocol: Option<&str>, maybe_endpoint: Option<&str>, tls: bool) -> (r:
    Option<String>)
    ensures
        r.is_some(),
        text_view(r) == inferred_protocol(str_view(maybe_protocol), str_view(maybe_endpoint), tls),
{
    let plain: Option<String> = match maybe_protocol {
        Some(protocol) => Some(protocol.to_owned()),
        None => match maybe_endpoint {
            Some(endpoint) => {
                if contains(endpoint, ":4317") {
                    Some("grpc".to_owned())
                } else {
                    Some("http/protobuf".to_owned())
                }
            },
            None => Some("http/protobuf".to_owned()),
        },
    };
    if tls {
        let is_grpc = match &plain {
            Some(p) => same_text(p.as_str(), "grpc"),
            None => false,
        };
        let is_https = match maybe_endpoint {
            Some(e) => starts_with(e, "https"),
            None => false,
        };
        if is_grpc && is_https {
            return Some("grpc/tls".to_owned());
        }
    }
    plain
}

/// Protocol and endpoint to export to, whatever is configured: the
/// protocol as configured, else gRPC where the endpoint has port 4317,
/// else HTTP with protobuf; the endpoint as configured, else the local
/// collector on the port of the protocol, 4318 for HTTP with protobuf and
/// 4317 for any other.
pub open spec fn inferred_protocol_and_endpoint(
    protocol: Option<Seq<char>>,
    endpoint: Option<Seq<char>>,
) -> (Seq<char>, Seq<char>) {
    let p = match protocol {
        Some(p) => p,
        None => if endpoint.is_some() && has_substring(endpoint.unwrap(), ":4317"@) {
            "grpc"@
        } else {
            "http/protobuf"@
        },
    };
    let e = match endpoint {
        Some(e) => e,
        None => if p == "http/protobuf"@ {
            "http://localhost:4318"@
        } else {
            "http://localhost:4317"@
        },
    };
    (p, e)
}

/// What is configured is what is used: a configured protocol is the
/// protocol, a configured endpoint is the endpoint. With nothing
/// configured the export goes to the local collector, as protobuf over
/// HTTP.
pub proof fn lemma_configured_settings_are_kept(
    protocol: Option<Seq<char>>,
    endpoint: Option<Seq<char>>,
)
    ensures
        protocol.is_some() ==> inferred_protocol_and_endpoint(protocol, endpoint).0
            == protocol.unwrap(),
        endpoint.is_some() ==> inferred_protocol_and_endpoint(protocol, endpoint).1
            == endpoint.unwrap(),
        protocol.is_none() && endpoint.is_some() ==> inferred_protocol_and_endpoint(
            protocol,
            endpoint,
        ).0 == (if has_substring(endpoint.unwrap(), ":4317"@) {
            "grpc"@
        } else {
            "http/protobuf"@
        }),
        inferred_protocol_and_endpoint(None, None) == ("http/protobuf"@, "http://localhost:4318"@),
{
}

/// Infers protocol and endpoint to export to.
pub fn infer_protocol_and_endpoint(configured: (Option<String>, Option<String>)) -> (r: (
    String,
    String,
))
    ensures
        (r.0@, r.1@) == inferred_protocol_and_endpoint(
            text_view(configured.0),
            text_view(configured.1),
        ),
{
    let (maybe_protocol, maybe_endpoint) = configured;
    let protocol: String = match maybe_protocol {
        Some(p) => p,
        None => {
            let to_grpc_port = match &maybe_endpoint {
                Some(e) => contains(e.as_str(), ":4317"),
                None => false,
            };
            if to_grpc_port {
                "grpc".to_owned()
            } else {
                "http/protobuf".to_owned()
            }
        },
    };
    let endpoint: String = match maybe_endpoint {
        Some(e) => e,
        None => {
            if same_text(protocol.as_str(), "http/protobuf") {
                "http://localhost:4318".to_owned()
            } else {
                "http://localhost:4317".to_owned()
            }
        },
    };
    (protocol, endpoint)
}

/// A transport that an exporter can be built for.
#[derive(Clone, Copy, Debug, PartialEq, Eq, Structural)]
pub enum ExporterKind {
    /// Protobuf over HTTP.
    Http,
    /// gRPC over TLS, with the root certificates of the system.
    GrpcTls,
    /// gRPC.
    Grpc,
}

/// What to do about an exporter.
#[derive(Debug)]
pub enum ExporterChoice {
    /// Build one for this transport.
    Build(ExporterKind),
    /// Build none: the protocol is not one that can be exported over.
    Unknown(String),
    /// Build none: no protocol is configured and none can be inferred.
    Unset,
}

/// What to do about an exporter, as a mathematical value.
pub enum ExporterChoiceView {
    Build(ExporterKind),
    Unknown(Seq<char>),
    Unset,
}

impl View for ExporterChoice {
    type V = ExporterChoiceView;

    open spec fn view(&self) -> ExporterChoiceView {
        match self {
            ExporterChoice::Build(k) => ExporterChoiceView::Build(*k),
            ExporterChoice::Unknown(p) => ExporterChoiceView::Unknown(p@),
            ExporterChoice::Unset => ExporterChoiceView::Unset,
        }
    }
}

/// The exporter that a protocol calls for. gRPC over TLS is a protocol
/// only where TLS is built in.
pub open spec fn exporter_for(protocol: Option<Seq<char>>, tls: bool) -> ExporterChoiceView {
    match protocol {
        Some(p) => if p == "http/protobuf"@ {
            ExporterChoiceView::Build(ExporterKind::Http)
        } else if tls && p == "grpc/tls"@ {
            ExporterChoiceView::Build(ExporterKind::GrpcTls)
        } else if p == "grpc"@ {
            ExporterChoiceView::Build(ExporterKind::Grpc)
        } else {
            ExporterChoiceView::Unknown(p)
        },
        None => ExporterChoiceView::Unset,
    }
}

/// Chooses the exporter that a protocol calls for.
pub fn select_exporter(protocol: Option<&str>, tls: bool) -> (choice: ExporterChoice)
    ensures
        choice@ == exporter_for(str_view(protocol), tls),
{
    match protocol {
        Some(p) => {
            if same_text(p, "http/protobuf") {
                ExporterChoice::Build(ExporterKind::Http)
            } else if tls && same_text(p, "grpc/tls") {
                ExporterChoice::Build(ExporterKind::GrpcTls)
            } else if same_text(p, "grpc") {
                ExporterChoice::Build(ExporterKind::Grpc)
            } else {
                ExporterChoice::Unknown(p.to_owned())
            }
        },
        None => ExporterChoice::Unset,
    }
}

/// The exporter of a signal, going by its variables.
pub open spec fn planned_exporter(env: OtlpEnv, signal: Signal, tls: bool) -> ExporterChoiceView {
    exporter_for(
        inferred_protocol(configured_protocol(env), configured_endpoint(env, signal), tls),
        tls,
    )
}

fn plan_exporter(env: &OtlpEnv, signal: Signal, tls: bool) -> (choice: ExporterChoice)
    ensures
        choice@ == planned_exporter(*env, signal, tls),
{
    let (maybe_protocol, maybe_endpoint) = read_protocol_and_endpoint_from_env(env, signal);
    let p: Option<&str> = match &maybe_protocol {
        Some(p) => Some(p.as_str()),
        None => None,
    };
    let e: Option<&str> = match &maybe_endpoint {
        Some(e) => Some(e.as_str()),
        None => None,
    };
    let protocol = infer_protocol(p, e, tls);
    let chosen: Option<&str> = match &protocol {
        Some(p) => Some(p.as_str()),
        None => None,
    };
    select_exporter(chosen, tls)
}

/// Decides which span exporter a tracer provider gets, going by the
/// variables for traces.
pub fn init_tracerprovider(env: &OtlpEnv, tls: bool) -> (choice: ExporterChoice)
    ensures
        choice@ == planned_exporter(*env, Signal::Traces, tls),
{
    plan_exporter(env, Signal::Traces, tls)
}

/// How an exporter of metrics adds up what it reports.
#[derive(Clone, Copy, Debug, PartialEq, Eq, Structural)]
pub enum Temporality {
    /// Each report covers everything since the start.
    Cumulative,
    /// Each report covers what came since the last one.
    Delta,
}

/// The temporality that a name selects, where it selects one. The name is
/// matched as it is, in lower case.
pub open spec fn temporality_of(name: Seq<char>) -> Option<Temporality> {
    if name == "delta"@ {
        Some(Temporality::Delta)
    } else if name == "cumulative"@ {
        Some(Temporality::Cumulative)
    } else {
        None
    }
}

/// Looks up the temporality that a name selects.
pub fn temporality_from_name(name: &str) -> (t: Option<Temporality>)
    ensures
        t == temporality_of(name@),
{
    if same_text(name, "delta") {
        Some(Temporality::Delta)
    } else if same_text(name, "cumulative") {
        Some(Temporality::Cumulative)
    } else {
        None
    }
}

/// The values of the variables that configure the export of metrics.
pub struct MetricsEnv {
    /// The variables for protocol and endpoint of the metrics signal.
    pub otlp: OtlpEnv,
    /// `OTEL_EXPORTER_OTLP_METRICS_TIMEOUT`, in seconds.
    pub timeout: Option<String>,
    /// `OTEL_EXPORTER_OTLP_METRICS_TEMPORALITY_PREFERENCE`
    pub temporality: Option<String>,
    /// `OTEL_METRIC_EXPORT_INTERVAL`, in milliseconds.
    pub export_interval: Option<String>,
}

/// How metrics are exported.
#[derive(Debug)]
pub struct MeterPlan {
    pub exporter: ExporterChoice,
    /// How long one export may take, in seconds.
    pub timeout_secs: u64,
    pub temporality: Temporality,
    /// The time between two exports, in milliseconds.
    pub export_interval_millis: u64,
}

/// The number that a variable holds, or `default` where it is not set or
/// holds no number that fits 64 bits.
pub open spec fn number_or(value: Option<String>, default: u64) -> u64 {
    match value {
        Some(v) => match parse_unsigned(v@, 0xffff_ffff_ffff_ffff) {
            Some(n) => n as u64,
            None => default,
        },
        None => default,
    }
}

fn read_number(value: &Option<String>, default: u64) -> (n: u64)
    ensures
        n == number_or(*value, default),
{
    match value {
        Some(v) => match parse_number(v.as_str(), 0xffff_ffff_ffff_ffff) {
            Some(n) => n,
            None => default,
        },
        None => default,
    }
}

/// The temporality that is configured: what the variable names, read in
/// lower case; cumulative where it is not set or names nothing known.
pub open spec fn configured_temporality(value: Option<String>) -> Temporality {
    match value {
        Some(v) => match temporality_of(lowercase(v@)) {
            Some(t) => t,
            None => Temporality::Cumulative,
        },
        None => Temporality::Cumulative,
    }
}

/// Decides how a meter provider exports, going by the variables for
/// metrics: ten seconds for one export and a minute between two, unless
/// the variables say otherwise.
pub fn init_meterprovider(env: &MetricsEnv, tls: bool) -> (plan: MeterPlan)
    ensures
        plan.exporter@ == planned_exporter(env.otlp, Signal::Metrics, tls),
        plan.timeout_secs == number_or(env.timeout, 10),
        plan.temporality == configured_temporality(env.temporality),
        plan.export_interval_millis == number_or(env.export_interval, 60_000),
{
    let exporter = plan_exporter(&env.otlp, Signal::Metrics, tls);
    let timeout_secs = read_number(&env.timeout, 10);
    let temporality = match &env.temporality {
        Some(v) => {
            let lowered = to_lowercase(v.as_str());
            match temporality_from_name(lowered.as_str()) {
                Some(t) => t,
                None => Temporality::Cumulative,
            }
        },
        None => Temporality::Cumulative,
    };
    let export_interval_millis = read_number(&env.export_interval, 60_000);
    MeterPlan { exporter, timeout_secs, temporality, export_interval_millis }
}

/// One step of shutting the export down.
#[derive(Clone, Copy, Debug, PartialEq, Eq, Structural)]
pub enum ShutdownStep {
    FlushTraces,
    ShutdownTraces,
    FlushMetrics,
    ShutdownMetrics,
}

/// What keeps the export of traces, and of metrics where they are
/// compiled in, alive. When it goes, what is still waiting is flushed and
/// the providers are shut down; failures on the way are ignored.
#[derive(Clone, Copy, Debug, PartialEq, Eq, Structural)]
pub struct OtelGuard {
    /// Whether there is a meter provider to shut down.
    pub metrics: bool,
}

impl OtelGuard {
    /// The steps that are taken when the guard goes, in order.
    pub open spec fn spec_shutdown_steps(self) -> Seq<ShutdownStep> {
        if self.metrics {
            seq![
                ShutdownStep::FlushTraces,
                ShutdownStep::ShutdownTraces,
                ShutdownStep::FlushMetrics,
                ShutdownStep::ShutdownMetrics,
            ]
        } else {
            seq![ShutdownStep::FlushTraces, ShutdownStep::ShutdownTraces]
        }
    }

    /// The steps to take when the guard goes, in order.
    pub fn shutdown_steps(&self) -> (steps: Vec<ShutdownStep>)
        ensures
            steps@ == self.spec_shutdown_steps(),
    {
        let mut steps: Vec<ShutdownStep> = Vec::new();
        steps.push(ShutdownStep::FlushTraces);
        steps.push(ShutdownStep::ShutdownTraces);
        if self.metrics {
            steps.push(ShutdownStep::FlushMetrics);
            steps.push(ShutdownStep::ShutdownMetrics);
        }
        steps
    }
}

/// A rule for which traces are recorded.
#[derive(Clone, Copy, Debug, PartialEq, Eq, Structural)]
pub enum Sampler {
    AlwaysOn,
    AlwaysOff,
    /// A share of the traces, picked by trace identifier.
    TraceIdRatioBased,
    /// As the parent span decides; every trace where there is no parent.
    ParentBasedAlwaysOn,
    /// As the parent span decides; no trace where there is no parent.
    ParentBasedAlwaysOff,
    /// As the parent span decides; a share of the traces where there is
    /// no parent.
    ParentBasedTraceIdRatioBased,
}

/// Whether a sampler of this name exists and is not supported.
pub open spec fn is_unsupported_sampler(name: Seq<char>) -> bool {
    name == "jaeger_remote"@ || name == "xray"@
}

/// The sampler that a name selects. A name that selects none stands for
/// the default: as the parent decides, else every trace.
pub open spec fn sampler_of(name: Seq<char>) -> Sampler {
    if name == "always_on"@ {
        Sampler::AlwaysOn
    } else if name == "always_off"@ {
        Sampler::AlwaysOff
    } else if name == "traceidratio"@ {
        Sampler::TraceIdRatioBased
    } else if name == "parentbased_always_on"@ {
        Sampler::ParentBasedAlwaysOn
    } else if name == "parentbased_always_off"@ {
        Sampler::ParentBasedAlwaysOff
    } else if name == "parentbased_traceidratio"@ {
        Sampler::ParentBasedTraceIdRatioBased
    } else {
        Sampler::ParentBasedAlwaysOn
    }
}

/// Looks up the sampler that a name selects. The name is matched as it
/// is, in lower case.
pub fn sampler_from_name(name: &str) -> (sampler: Sampler)
    requires
        !is_unsupported_sampler(name@),
    ensures
        sampler == sampler_of(name@),
{
    if same_text(name, "always_on") {
        Sampler::AlwaysOn
    } else if same_text(name, "always_off") {
        Sampler::AlwaysOff
    } else if same_text(name, "traceidratio") {
        Sampler::TraceIdRatioBased
    } else if same_text(name, "parentbased_always_on") {
        Sampler::ParentBasedAlwaysOn
    } else if same_text(name, "parentbased_always_off") {
        Sampler::ParentBasedAlwaysOff
    } else if same_text(name, "parentbased_traceidratio") {
        Sampler::ParentBasedTraceIdRatioBased
    } else {
        Sampler::ParentBasedAlwaysOn
    }
}

/// The sampler that a name selects, where the name is not that of a
/// sampler without support. The name is matched as it is, in lower case.
pub open spec fn supported_sampler_of(name: Seq<char>) -> Option<Sampler> {
    if is_unsupported_sampler(name) {
        None
    } else {
        Some(sampler_of(name))
    }
}

/// Looks up the sampler that a name selects. `jaeger_remote` and `xray`
/// name samplers that are not supported, and select nothing.
pub fn supported_sampler(name: &str) -> (sampler: Option<Sampler>)
    ensures
        sampler == supported_sampler_of(name@),
{
    if same_text(name, "jaeger_remote") || same_text(name, "xray") {
        None
    } else {
        Some(sampler_from_name(name))
    }
}

/// The sampler that is configured: what the variable names, read in lower
/// case, and the default where it is not set. Nothing where it names a
/// sampler that is not supported.
pub open spec fn configured_sampler(value: Option<Seq<char>>) -> Option<Sampler> {
    supported_sampler_of(
        match value {
            Some(v) => lowercase(v),
            None => lowercase(Seq::empty()),
        },
    )
}

/// Reads the sampler from the value of `OTEL_TRACES_SAMPLER`.
pub fn read_sampler_from_env(value: Option<&str>) -> (sampler: Option<Sampler>)
    ensures
        sampler == configured_sampler(str_view(value)),
{
    proof {
        reveal_strlit("");
    }
    let name = match value {
        Some(v) => to_lowercase(v),
        None => to_lowercase(""),
    };
    assert(""@ =~= Seq::<char>::empty());
    supported_sampler(name.as_str())
}

} // verus!
