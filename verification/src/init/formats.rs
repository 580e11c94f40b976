//! One builder for each layout of log lines.

use crate::init::config::{
    FmtSpan, LogFormat, LogTimer, TracingConfig, WriterConfig, WriterView,
};
use vstd::prelude::*;

verus! {

/// The settings of a log layer that writes formatted lines.
#[derive(Debug)]
pub struct FmtLayerPlan {
    pub format: LogFormat,
    pub file_names: bool,
    pub line_numbers: bool,
    pub thread_names: bool,
    pub thread_ids: bool,
    /// The moments in the life of spans at which a line is logged.
    pub span_events: FmtSpan,
    pub target_display: bool,
    pub timer: LogTimer,
    pub writer: WriterConfig,
}

/// A log layer to build.
#[derive(Debug)]
pub enum LayerPlan {
    /// A layer that writes formatted lines.
    Fmt(FmtLayerPlan),
    /// A layer that writes `key=value` lines to standard output. It has
    /// no settings.
    Logfmt,
}

/// A log layer to build, as a mathematical value.
pub enum LayerPlanView {
    Fmt {
        format: LogFormat,
        file_names: bool,
        line_numbers: bool,
        thread_names: bool,
        thread_ids: bool,
        span_events: FmtSpan,
        target_display: bool,
        timer: LogTimer,
        writer: WriterView,
    },
    Logfmt,
}

impl View for LayerPlan {
    type V = LayerPlanView;

    open spec fn view(&self) -> LayerPlanView {
        match self {
            LayerPlan::Fmt(p) => LayerPlanView::Fmt {
                format: p.format,
                file_names: p.file_names,
                line_numbers: p.line_numbers,
                thread_names: p.thread_names,
                thread_ids: p.thread_ids,
                span_events: p.span_events,
                target_display: p.target_display,
                timer: p.timer,
                writer: p.writer@,
            },
            LayerPlan::Logfmt => LayerPlanView::Logfmt,
        }
    }
}

/// The layer of a layout under some settings: the optional output, the
/// timer and the destination are those of the settings; no span events
/// where the settings name none. The `key=value` layout takes no
/// settings.
pub open spec fn planned_layer(format: LogFormat, config: TracingConfig) -> LayerPlanView {
    if format == LogFormat::Logfmt {
        LayerPlanView::Logfmt
    } else {
        LayerPlanView::Fmt {
            format,
            file_names: config.features.file_names,
            line_numbers: config.features.line_numbers,
            thread_names: config.features.thread_names,
            thread_ids: config.features.thread_ids,
            span_events: match config.features.span_events {
                Some(events) => events,
                None => FmtSpan::spec_none(),
            },
            target_display: config.features.target_display,
            timer: config.features.timer,
            writer: config.writer@,
        }
    }
}

/// Something that plans the log layer of one layout.
pub trait LayerBuilder {
    /// The layout that the builder is for.
    spec fn format(&self) -> LogFormat;

    /// Plans the layer under the given settings.
    fn build_layer(&self, config: &TracingConfig) -> (plan: LayerPlan)
        ensures
            plan@ == planned_layer(self.format(), *config),
    ;
}

fn configure_writer(plan: FmtLayerPlan, config: &TracingConfig) -> (out: LayerPlan)
    ensures
        out@ == (LayerPlan::Fmt(FmtLayerPlan { writer: config.writer, ..plan }))@,
{
    LayerPlan::Fmt(
        FmtLayerPlan {
            format: plan.format,
            file_names: plan.file_names,
            line_numbers: plan.line_numbers,
            thread_names: plan.thread_names,
            thread_ids: plan.thread_ids,
            span_events: plan.span_events,
            target_display: plan.target_display,
            timer: plan.timer,
            writer: config.writer.duplicate(),
        },
    )
}

fn configure_layer(format: LogFormat, config: &TracingConfig) -> (out: LayerPlan)
    requires
        format != LogFormat::Logfmt,
    ensures
        out@ == planned_layer(format, *config),
{
    let span_events = match config.features.span_events {
        Some(events) => events,
        None => FmtSpan::none(),
    };
    let plan = FmtLayerPlan {
        format,
        file_names: config.features.file_names,
        line_numbers: config.features.line_numbers,
        thread_names: config.features.thread_names,
        thread_ids: config.features.thread_ids,
        span_events,
        target_display: config.features.target_display,
        timer: config.features.timer,
        writer: WriterConfig::Stdout,
    };
    configure_writer(plan, config)
}

/// Plans layers that lay lines out for reading while developing.
#[derive(Debug, Default, Clone, Copy)]
pub struct PrettyLayerBuilder;

impl LayerBuilder for PrettyLayerBuilder {
    open spec fn format(&self) -> LogFormat {
        LogFormat::Pretty
    }

    fn build_layer(&self, config: &TracingConfig) -> (plan: LayerPlan) {
        configure_layer(LogFormat::Pretty, config)
    }
}

/// Plans layers that write one JSON object per event.
#[derive(Debug, Default, Clone, Copy)]
pub struct JsonLayerBuilder;

impl LayerBuilder for JsonLayerBuilder {
    open spec fn format(&self) -> LogFormat {
        LogFormat::Json
    }

    fn build_layer(&self, config: &TracingConfig) -> (plan: LayerPlan) {
        configure_layer(LogFormat::Json, config)
    }
}

/// Plans layers that write one line per event.
#[derive(Debug, Default, Clone, Copy)]
pub struct FullLayerBuilder;

impl LayerBuilder for FullLayerBuilder {
    open spec fn format(&self) -> LogFormat {
        LogFormat::Full
    }

    fn build_layer(&self, config: &TracingConfig) -> (plan: LayerPlan) {
        configure_layer(LogFormat::Full, config)
    }
}

/// Plans layers that write one short line per event.
#[derive(Debug, Default, Clone, Copy)]
pub struct CompactLayerBuilder;

impl LayerBuilder for CompactLayerBuilder {
    open spec fn format(&self) -> LogFormat {
        LogFormat::Compact
    }

    fn build_layer(&self, config: &TracingConfig) -> (plan: LayerPlan) {
        configure_layer(LogFormat::Compact, config)
    }
}

/// Plans layers that write `key=value` lines.
#[derive(Debug, Default, Clone, Copy)]
pub struct LogfmtLayerBuilder;

impl LayerBuilder for LogfmtLayerBuilder {
    open spec fn format(&self) -> LogFormat {
        LogFormat::Logfmt
    }

    fn build_layer(&self, config: &TracingConfig) -> (plan: LayerPlan) {
        LayerPlan::Logfmt
    }
}

} // verus!
