//! Shortcuts for the common set-up: a level filter from the usual
//! variables, and the guard of a set-up that must have OpenTelemetry.

use crate::init::config::{
    BuildProfile, FeatureSet, FilterPlan, FmtSpan, Guard, LevelFilter, LogFormat, LogTimer,
    OtelConfig, TracingConfig, WriterView,
};
use crate::init::error::{Error, ErrorView};
use crate::init::formats::{LayerPlan, LayerPlanView};
use vstd::prelude::*;

verus! {

/// Plans the log layer of the default settings.
pub fn build_logger_text() -> (plan: LayerPlan)
    ensures
        plan@ == (LayerPlanView::Fmt {
            format: LogFormat::Json,
            file_names: true,
            line_numbers: false,
            thread_names: false,
            thread_ids: false,
            span_events: FmtSpan::spec_none(),
            target_display: true,
            timer: LogTimer::Time,
            writer: WriterView::Stdout,
        }),
{
    let config = TracingConfig::default();
    config.build_layer()
}

/// The directives of the usual level filter: the given ones where they
/// are not empty, else those of `RUST_LOG`, else those of
/// `OTEL_LOG_LEVEL`, else `info`.
pub open spec fn level_directives(
    log_directives: Seq<char>,
    rust_log: Option<Seq<char>>,
    otel_log_level: Option<Seq<char>>,
) -> Seq<char> {
    if log_directives.len() > 0 {
        log_directives
    } else {
        match rust_log {
            Some(d) => d,
            None => match otel_log_level {
                Some(d) => d,
                None => "info"@,
            },
        }
    }
}

/// Optional borrowed text as a mathematical value.
pub open spec fn str_view(s: Option<&str>) -> Option<Seq<char>> {
    match s {
        Some(t) => Some(t@),
        None => None,
    }
}

/// Plans the usual level filter. `rust_log` and `otel_log_level` are the
/// values of the variables of those names, `None` for one that is not
/// set. Spans for OpenTelemetry are let through at level `trace`.
pub fn build_level_filter_layer(
    log_directives: &str,
    rust_log: Option<&str>,
    otel_log_level: Option<&str>,
) -> (plan: FilterPlan)
    ensures
        plan.directives@ == level_directives(
            log_directives@,
            str_view(rust_log),
            str_view(otel_log_level),
        ),
        plan.default_level == LevelFilter::Info,
        plan.otel_directive@ == "otel::tracing=trace"@,
{
    let directives = if log_directives.unicode_len() == 0 {
        match rust_log {
            Some(d) => d.to_owned(),
            None => match otel_log_level {
                Some(d) => d.to_owned(),
                None => "info".to_owned(),
            },
        }
    } else {
        log_directives.to_owned()
    };
    FilterPlan {
        directives,
        default_level: LevelFilter::Info,
        otel_directive: "otel::tracing=trace".to_owned(),
    }
}

/// Plans the usual level filter without directives of the caller.
pub fn build_loglevel_filter_layer(rust_log: Option<&str>, otel_log_level: Option<&str>) -> (plan:
    FilterPlan)
    ensures
        plan.directives@ == level_directives(
            Seq::empty(),
            str_view(rust_log),
            str_view(otel_log_level),
        ),
        plan.default_level == LevelFilter::Info,
        plan.otel_directive@ == "otel::tracing=trace"@,
{
    proof {
        reveal_strlit("");
    }
    build_level_filter_layer("", rust_log, otel_log_level)
}

/// What is left of a guard for a caller that wants the guard of the
/// providers only.
pub open spec fn providers_of<O, D>(guard: Guard<O, D>) -> Result<(O, Option<D>), ErrorView> {
    match guard.otel_guard {
        Some(otel_guard) => Ok((otel_guard, guard.default_guard)),
        None => Err(
            ErrorView::IoError("OpenTelemetry is disabled but OtelGuard was requested"@),
        ),
    }
}

/// The outcome, as a mathematical value.
pub open spec fn providers_view<O, D>(r: Result<(O, Option<D>), Error>) -> Result<
    (O, Option<D>),
    ErrorView,
> {
    match r {
        Ok(p) => Ok(p),
        Err(e) => Err(e@),
    }
}

/// Takes the guard of the providers out of the guard of a set-up. A
/// set-up without OpenTelemetry has none, which is an error here. The
/// guard of a thread's subscriber comes along, for the caller to keep or
/// to leak.
pub fn init_subscribers<O, D>(guard: Guard<O, D>) -> (r: Result<(O, Option<D>), Error>)
    ensures
        providers_view(r) == providers_of(guard),
{
    match guard.otel_guard {
        Some(otel_guard) => Ok((otel_guard, guard.default_guard)),
        None => Err(
            Error::IoError("OpenTelemetry is disabled but OtelGuard was requested".to_owned()),
        ),
    }
}

/// The settings of the usual set-up with directives of the caller: those
/// for production, filtered by `log_directives`.
pub fn init_subscribers_and_loglevel(log_directives: &str) -> (config: TracingConfig)
    ensures
        config.format == LogFormat::Json,
        config.writer@ == WriterView::Stdout,
        config.level_config.directives@ == log_directives@,
        config.level_config.env_fallbacks@.len() == 2,
        config.level_config.env_fallbacks@[0]@ == "RUST_LOG"@,
        config.level_config.env_fallbacks@[1]@ == "OTEL_LOG_LEVEL"@,
        config.level_config.default_level == LevelFilter::Info,
        config.level_config.otel_trace_level == LevelFilter::Trace,
        config.features == (FeatureSet {
            line_numbers: false,
            thread_names: false,
            span_events: None,
            ..FeatureSet::spec_default_for(BuildProfile::spec_release())
        }),
        config.otel_config == (OtelConfig {
            enabled: true,
            ..OtelConfig::spec_default_for(BuildProfile::spec_release())
        }),
        config.global_subscriber,
{
    TracingConfig::production().with_log_directives(log_directives)
}

} // verus!
