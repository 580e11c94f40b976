//! The settings of logging and tracing, and the builder that collects
//! them: format, destination, levels, optional output, OpenTelemetry.

use crate::init::error::{Error, ErrorView};
use crate::init::formats::{
    CompactLayerBuilder, FullLayerBuilder, JsonLayerBuilder, LayerBuilder, LayerPlan,
    LogfmtLayerBuilder, PrettyLayerBuilder,
};
use crate::init::resource::DetectResource;
use vstd::prelude::*;

verus! {

/// What keeps an installed subscriber, and the export behind it, alive.
/// Dropping it flushes what is still waiting to be exported.
///
/// `O` is the guard of the OpenTelemetry providers, `D` the guard of a
/// subscriber that is the default of one thread only.
pub struct Guard<O, D> {
    /// The guard of the providers; `None` where OpenTelemetry is off.
    pub otel_guard: Option<O>,
    /// The guard of the thread's subscriber; `None` where the subscriber
    /// is the global one.
    pub default_guard: Option<D>,
}

impl<O, D> Guard<O, D> {
    /// The guard of a global subscriber.
    pub fn global(otel_guard: Option<O>) -> (guard: Self)
        ensures
            guard.otel_guard == otel_guard,
            guard.default_guard.is_none(),
    {
        Guard { otel_guard, default_guard: None }
    }

    /// The guard of a subscriber that is the default of this thread.
    pub fn non_global(otel_guard: Option<O>, default_guard: D) -> (guard: Self)
        ensures
            guard.otel_guard == otel_guard,
            guard.default_guard == Some(default_guard),
    {
        Guard { otel_guard, default_guard: Some(default_guard) }
    }

    /// The guard of the providers, if there is one.
    pub fn otel_guard(&self) -> (guard: Option<&O>)
        ensures
            match guard {
                Some(g) => self.otel_guard == Some(*g),
                None => self.otel_guard.is_none(),
            },
    {
        self.otel_guard.as_ref()
    }

    /// Whether OpenTelemetry is on.
    pub fn has_otel(&self) -> (b: bool)
        ensures
            b == self.otel_guard.is_some(),
    {
        self.otel_guard.is_some()
    }

    /// Whether the subscriber is the default of one thread only.
    pub fn is_non_global(&self) -> (b: bool)
        ensures
            b == self.default_guard.is_some(),
    {
        self.default_guard.is_some()
    }

    /// Whether the subscriber is the global one.
    pub fn is_global(&self) -> (b: bool)
        ensures
            b == self.default_guard.is_none(),
    {
        self.default_guard.is_none()
    }
}

/// What a build was made with, as far as the defaults depend on it.
#[derive(Clone, Copy, Debug, PartialEq, Eq, Structural)]
pub struct BuildProfile {
    /// Whether debug assertions are compiled in.
    pub debug_assertions: bool,
    /// Whether support for metrics is compiled in.
    pub metrics: bool,
}

impl BuildProfile {
    /// An optimised build without metrics.
    pub open spec fn spec_release() -> BuildProfile {
        BuildProfile { debug_assertions: false, metrics: false }
    }

    /// An optimised build without metrics.
    pub fn release() -> (p: BuildProfile)
        ensures
            p == Self::spec_release(),
    {
        BuildProfile { debug_assertions: false, metrics: false }
    }
}

/// How log lines are laid out.
#[derive(Debug, Clone, Copy, PartialEq, Eq, Structural)]
pub enum LogFormat {
    /// Several lines per event, coloured and indented.
    Pretty,
    /// One JSON object per event.
    Json,
    /// One line per event.
    Full,
    /// One short line per event.
    Compact,
    /// One line of `key=value` pairs per event.
    Logfmt,
}

impl LogFormat {
    /// The format that is used where none is chosen: pretty while
    /// developing, JSON otherwise.
    pub open spec fn spec_default_for(profile: BuildProfile) -> LogFormat {
        if profile.debug_assertions {
            LogFormat::Pretty
        } else {
            LogFormat::Json
        }
    }

    /// The format that is used where none is chosen.
    pub fn default_for(profile: BuildProfile) -> (f: LogFormat)
        ensures
            f == Self::spec_default_for(profile),
    {
        if profile.debug_assertions {
            LogFormat::Pretty
        } else {
            LogFormat::Json
        }
    }
}

impl Default for LogFormat {
    fn default() -> (f: LogFormat)
        ensures
            f == LogFormat::spec_default_for(BuildProfile::spec_release()),
    {
        LogFormat::default_for(BuildProfile::release())
    }
}

/// Which time log lines show.
#[derive(Debug, Clone, Copy, PartialEq, Eq, Structural)]
pub enum LogTimer {
    /// No time.
    Off,
    /// The time of day.
    Time,
    /// The time since the process started.
    Uptime,
}

impl LogTimer {
    /// The timer that is used where none is chosen: time since start
    /// while developing, time of day otherwise.
    pub open spec fn spec_default_for(profile: BuildProfile) -> LogTimer {
        if profile.debug_assertions {
            LogTimer::Uptime
        } else {
            LogTimer::Time
        }
    }

    /// The timer that is used where none is chosen.
    pub fn default_for(profile: BuildProfile) -> (t: LogTimer)
        ensures
            t == Self::spec_default_for(profile),
    {
        if profile.debug_assertions {
            LogTimer::Uptime
        } else {
            LogTimer::Time
        }
    }
}

impl Default for LogTimer {
    fn default() -> (t: LogTimer)
        ensures
            t == LogTimer::spec_default_for(BuildProfile::spec_release()),
    {
        LogTimer::default_for(BuildProfile::release())
    }
}

/// Where log lines go.
#[derive(Debug, Clone)]
pub enum WriterConfig {
    Stdout,
    Stderr,
    /// A file at this path; lines are appended to it.
    File(String),
}

/// Where log lines go, as a mathematical value.
pub enum WriterView {
    Stdout,
    Stderr,
    File(Seq<char>),
}

impl View for WriterConfig {
    type V = WriterView;

    open spec fn view(&self) -> WriterView {
        match self {
            WriterConfig::Stdout => WriterView::Stdout,
            WriterConfig::Stderr => WriterView::Stderr,
            WriterConfig::File(p) => WriterView::File(p@),
        }
    }
}

impl WriterConfig {
    /// A copy of the destination.
    pub fn duplicate(&self) -> (w: WriterConfig)
        ensures
            w@ == self@,
    {
        match self {
            WriterConfig::Stdout => WriterConfig::Stdout,
            WriterConfig::Stderr => WriterConfig::Stderr,
            WriterConfig::File(p) => WriterConfig::File(p.clone()),
        }
    }
}

impl Default for WriterConfig {
    fn default() -> (w: WriterConfig)
        ensures
            w@ == WriterView::Stdout,
    {
        WriterConfig::Stdout
    }
}

/// How much is logged: everything up to a level, or nothing.
#[derive(Debug, Clone, Copy, PartialEq, Eq, Structural)]
pub enum LevelFilter {
    Off,
    Error,
    Warn,
    Info,
    Debug,
    Trace,
}

impl LevelFilter {
    /// The level as it is written in a filter directive.
    pub open spec fn spec_name(self) -> Seq<char> {
        match self {
            LevelFilter::Off => "off"@,
            LevelFilter::Error => "error"@,
            LevelFilter::Warn => "warn"@,
            LevelFilter::Info => "info"@,
            LevelFilter::Debug => "debug"@,
            LevelFilter::Trace => "trace"@,
        }
    }

    /// The level as it is written in a filter directive.
    pub fn name(self) -> (name: &'static str)
        ensures
            name@ == self.spec_name(),
    {
        match self {
            LevelFilter::Off => "off",
            LevelFilter::Error => "error",
            LevelFilter::Warn => "warn",
            LevelFilter::Info => "info",
            LevelFilter::Debug => "debug",
            LevelFilter::Trace => "trace",
        }
    }
}

/// Which levels are logged.
#[derive(Debug)]
pub struct LevelConfig {
    /// Filter directives. Where they are not empty, the environment is
    /// not asked.
    pub directives: String,
    /// The environment variables that are asked for directives, in this
    /// order.
    pub env_fallbacks: Vec<String>,
    /// The level where neither directives nor environment say anything.
    pub default_level: LevelFilter,
    /// The level of the spans that become OpenTelemetry spans.
    pub otel_trace_level: LevelFilter,
}

/// Whether the levels are those that are used where none are chosen: no
/// directives, `RUST_LOG` then `OTEL_LOG_LEVEL` as fallbacks, `info` for
/// logs and `trace` for OpenTelemetry spans.
pub open spec fn is_default_levels(c: LevelConfig) -> bool {
    &&& c.directives@.len() == 0
    &&& c.env_fallbacks@.len() == 2
    &&& c.env_fallbacks@[0]@ == "RUST_LOG"@
    &&& c.env_fallbacks@[1]@ == "OTEL_LOG_LEVEL"@
    &&& c.default_level == LevelFilter::Info
    &&& c.otel_trace_level == LevelFilter::Trace
}

impl Default for LevelConfig {
    fn default() -> (c: LevelConfig)
        ensures
            is_default_levels(c),
    {
        let mut env_fallbacks: Vec<String> = Vec::new();
        env_fallbacks.push("RUST_LOG".to_owned());
        env_fallbacks.push("OTEL_LOG_LEVEL".to_owned());
        LevelConfig {
            directives: String::new(),
            env_fallbacks,
            default_level: LevelFilter::Info,
            otel_trace_level: LevelFilter::Trace,
        }
    }
}

/// The moments in the life of a span at which a line is logged.
#[derive(Debug, Clone, Copy, PartialEq, Eq, Structural)]
pub struct FmtSpan {
    /// When the span is made.
    pub new: bool,
    /// When the span is entered.
    pub enter: bool,
    /// When the span is left.
    pub exit: bool,
    /// When the span is closed.
    pub close: bool,
}

impl FmtSpan {
    /// No moment.
    pub open spec fn spec_none() -> FmtSpan {
        FmtSpan { new: false, enter: false, exit: false, close: false }
    }

    /// When a span is made and when it is closed.
    pub open spec fn spec_new_and_close() -> FmtSpan {
        FmtSpan { new: true, enter: false, exit: false, close: true }
    }

    /// Every moment.
    pub open spec fn spec_full() -> FmtSpan {
        FmtSpan { new: true, enter: true, exit: true, close: true }
    }

    /// No moment.
    pub fn none() -> (s: FmtSpan)
        ensures
            s == Self::spec_none(),
    {
        FmtSpan { new: false, enter: false, exit: false, close: false }
    }

    /// When a span is made.
    pub fn on_new() -> (s: FmtSpan)
        ensures
            s == (FmtSpan { new: true, ..Self::spec_none() }),
    {
        FmtSpan { new: true, enter: false, exit: false, close: false }
    }

    /// When a span is closed.
    pub fn on_close() -> (s: FmtSpan)
        ensures
            s == (FmtSpan { close: true, ..Self::spec_none() }),
    {
        FmtSpan { new: false, enter: false, exit: false, close: true }
    }

    /// When a span is entered and when it is left.
    pub fn active() -> (s: FmtSpan)
        ensures
            s == (FmtSpan { enter: true, exit: true, ..Self::spec_none() }),
    {
        FmtSpan { new: false, enter: true, exit: true, close: false }
    }

    /// Every moment.
    pub fn full() -> (s: FmtSpan)
        ensures
            s == Self::spec_full(),
    {
        FmtSpan { new: true, enter: true, exit: true, close: true }
    }

    /// The moments of either.
    pub fn union(self, other: FmtSpan) -> (s: FmtSpan)
        ensures
            s == (FmtSpan {
                new: self.new || other.new,
                enter: self.enter || other.enter,
                exit: self.exit || other.exit,
                close: self.close || other.close,
            }),
    {
        FmtSpan {
            new: self.new || other.new,
            enter: self.enter || other.enter,
            exit: self.exit || other.exit,
            close: self.close || other.close,
        }
    }
}

/// What log lines show besides the message.
#[derive(Debug, Clone, Copy, PartialEq, Eq, Structural)]
pub struct FeatureSet {
    /// The name of the source file.
    pub file_names: bool,
    /// The line in the source file.
    pub line_numbers: bool,
    /// The name of the thread.
    pub thread_names: bool,
    /// The identifier of the thread.
    pub thread_ids: bool,
    /// The time.
    pub timer: LogTimer,
    /// Lines for moments in the life of spans; `None` for no such lines.
    pub span_events: Option<FmtSpan>,
    /// The target of the event.
    pub target_display: bool,
}

impl FeatureSet {
    /// What is shown where nothing is chosen: file names and targets
    /// always; line numbers, thread names and the making and closing of
    /// spans while developing.
    pub open spec fn spec_default_for(profile: BuildProfile) -> FeatureSet {
        FeatureSet {
            file_names: true,
            line_numbers: profile.debug_assertions,
            thread_names: profile.debug_assertions,
            thread_ids: false,
            timer: LogTimer::spec_default_for(profile),
            span_events: if profile.debug_assertions {
                Some(FmtSpan::spec_new_and_close())
            } else {
                None
            },
            target_display: true,
        }
    }

    /// What is shown where nothing is chosen.
    pub fn default_for(profile: BuildProfile) -> (f: FeatureSet)
        ensures
            f == Self::spec_default_for(profile),
    {
        FeatureSet {
            file_names: true,
            line_numbers: profile.debug_assertions,
            thread_names: profile.debug_assertions,
            thread_ids: false,
            timer: LogTimer::default_for(profile),
            span_events: if profile.debug_assertions {
                Some(FmtSpan::on_new().union(FmtSpan::on_close()))
            } else {
                None
            },
            target_display: true,
        }
    }
}

impl Default for FeatureSet {
    fn default() -> (f: FeatureSet)
        ensures
            f == FeatureSet::spec_default_for(BuildProfile::spec_release()),
    {
        FeatureSet::default_for(BuildProfile::release())
    }
}

/// Whether and how OpenTelemetry takes part.
#[derive(Debug)]
pub struct OtelConfig {
    /// Whether spans are exported.
    pub enabled: bool,
    /// How the service is described; `None` for what the environment
    /// says and nothing else.
    pub resource_config: Option<DetectResource>,
    /// Whether metrics are exported.
    pub metrics_enabled: bool,
}

impl OtelConfig {
    /// The part of OpenTelemetry where nothing is chosen: tracing is on,
    /// and metrics are where they are compiled in.
    pub open spec fn spec_default_for(profile: BuildProfile) -> OtelConfig {
        OtelConfig { enabled: true, resource_config: None, metrics_enabled: profile.metrics }
    }

    /// The part of OpenTelemetry where nothing is chosen.
    pub fn default_for(profile: BuildProfile) -> (c: OtelConfig)
        ensures
            c == Self::spec_default_for(profile),
    {
        OtelConfig { enabled: true, resource_config: None, metrics_enabled: profile.metrics }
    }
}

impl Default for OtelConfig {
    fn default() -> (c: OtelConfig)
        ensures
            c == OtelConfig::spec_default_for(BuildProfile::spec_release()),
    {
        OtelConfig::default_for(BuildProfile::release())
    }
}

/// The settings of logging and tracing. Build one from the defaults or
/// from a preset, change it with the `with_` methods, then install it.
#[derive(Debug)]
pub struct TracingConfig {
    pub format: LogFormat,
    pub writer: WriterConfig,
    pub level_config: LevelConfig,
    pub features: FeatureSet,
    pub otel_config: OtelConfig,
    /// Whether the subscriber becomes the default of the whole process,
    /// rather than of the installing thread.
    pub global_subscriber: bool,
}

/// Whether the settings are those that are used where nothing is chosen.
pub open spec fn is_default_config(c: TracingConfig, profile: BuildProfile) -> bool {
    &&& c.format == LogFormat::spec_default_for(profile)
    &&& c.writer@ == WriterView::Stdout
    &&& is_default_levels(c.level_config)
    &&& c.features == FeatureSet::spec_default_for(profile)
    &&& c.otel_config == OtelConfig::spec_default_for(profile)
    &&& c.global_subscriber
}

impl Default for TracingConfig {
    fn default() -> (c: TracingConfig)
        ensures
            is_default_config(c, BuildProfile::spec_release()),
    {
        TracingConfig::default_for(BuildProfile::release())
    }
}

/// What is to be done to install a subscriber.
#[derive(Clone, Copy, Debug, PartialEq, Eq, Structural)]
pub struct InitPlan {
    /// Whether the OpenTelemetry layers are registered.
    pub register_otel: bool,
    /// Whether the subscriber is installed for the whole process.
    pub install_global: bool,
}

/// How the installation of a subscriber went. `D` is the guard of a
/// subscriber that is the default of one thread only.
pub enum Installed<D> {
    /// The subscriber is the global default now.
    Global,
    /// The process already had a global default; nothing changed.
    GlobalRefused,
    /// The subscriber is the default of this thread, for as long as the
    /// guard lives.
    ThreadLocal(D),
}

/// The directives of a level filter.
#[derive(Debug)]
pub struct FilterPlan {
    /// The directives to parse. A directive that does not parse makes the
    /// filter fail: see [`finish_filter_layer`].
    pub directives: String,
    /// The level for what no directive covers.
    pub default_level: LevelFilter,
    /// The directive that lets the spans through that become
    /// OpenTelemetry spans.
    pub otel_directive: String,
}

/// The first of the values that is there.
pub open spec fn first_set(values: Seq<Option<String>>) -> Option<Seq<char>>
    decreases values.len(),
{
    if values.len() == 0 {
        None
    } else if values[0].is_some() {
        Some(values[0].unwrap()@)
    } else {
        first_set(values.skip(1))
    }
}

/// The directives that a configuration filters by: its own where it has
/// some, else those of the first fallback variable that is set, else the
/// default level.
pub open spec fn directives_of(c: LevelConfig, env_values: Seq<Option<String>>) -> Seq<char> {
    if c.directives@.len() > 0 {
        c.directives@
    } else {
        match first_set(env_values) {
            Some(d) => d,
            None => c.default_level.spec_name(),
        }
    }
}

/// The directive that lets spans for OpenTelemetry through at `level`.
pub open spec fn otel_directive_of(level: LevelFilter) -> Seq<char> {
    "otel::tracing="@ + level.spec_name()
}

fn first_value(values: &Vec<Option<String>>) -> (r: Option<&str>)
    ensures
        match r {
            Some(t) => first_set(values@) == Some(t@),
            None => first_set(values@).is_none(),
        },
{
    let mut i: usize = 0;
    assert(values@.skip(0) == values@);
    while i < values.len()
        invariant
            i <= values.len(),
            first_set(values@) == first_set(values@.skip(i as int)),
        decreases values.len() - i,
    {
        if let Some(v) = &values[i] {
            return Some(v.as_str());
        }
        assert(values@.skip(i as int).skip(1) == values@.skip(i + 1));
        i += 1;
    }
    None
}

impl TracingConfig {
    /// The settings that are used where nothing is chosen, for a build.
    pub fn default_for(profile: BuildProfile) -> (c: TracingConfig)
        ensures
            is_default_config(c, profile),
    {
        TracingConfig {
            format: LogFormat::default_for(profile),
            writer: WriterConfig::Stdout,
            level_config: LevelConfig::default(),
            features: FeatureSet::default_for(profile),
            otel_config: OtelConfig::default_for(profile),
            global_subscriber: true,
        }
    }

    /// Sets the layout of log lines.
    pub fn with_format(self, format: LogFormat) -> (c: Self)
        ensures
            c == (TracingConfig { format: format, ..self }),
    {
        let mut me = self;
        me.format = format;
        me
    }

    /// Lays log lines out for reading while developing.
    pub fn with_pretty_format(self) -> (c: Self)
        ensures
            c == (TracingConfig { format: LogFormat::Pretty, ..self }),
    {
        self.with_format(LogFormat::Pretty)
    }

    /// Writes each event as one JSON object.
    pub fn with_json_format(self) -> (c: Self)
        ensures
            c == (TracingConfig { format: LogFormat::Json, ..self }),
    {
        self.with_format(LogFormat::Json)
    }

    /// Writes each event on one line.
    pub fn with_full_format(self) -> (c: Self)
        ensures
            c == (TracingConfig { format: LogFormat::Full, ..self }),
    {
        self.with_format(LogFormat::Full)
    }

    /// Writes each event on one short line.
    pub fn with_compact_format(self) -> (c: Self)
        ensures
            c == (TracingConfig { format: LogFormat::Compact, ..self }),
    {
        self.with_format(LogFormat::Compact)
    }

    /// Writes each event as `key=value` pairs.
    pub fn with_logfmt_format(self) -> (c: Self)
        ensures
            c == (TracingConfig { format: LogFormat::Logfmt, ..self }),
    {
        self.with_format(LogFormat::Logfmt)
    }

    /// Sets where log lines go.
    pub fn with_writer(self, writer: WriterConfig) -> (c: Self)
        ensures
            c == (TracingConfig { writer, ..self }),
    {
        let mut me = self;
        me.writer = writer;
        me
    }

    /// Writes logs to standard output.
    pub fn with_stdout(self) -> (c: Self)
        ensures
            c == (TracingConfig { writer: WriterConfig::Stdout, ..self }),
    {
        self.with_writer(WriterConfig::Stdout)
    }

    /// Writes logs to standard error.
    pub fn with_stderr(self) -> (c: Self)
        ensures
            c == (TracingConfig { writer: WriterConfig::Stderr, ..self }),
    {
        self.with_writer(WriterConfig::Stderr)
    }

    /// Sets the level for what no directive covers.
    pub fn with_default_level(self, level: LevelFilter) -> (c: Self)
        ensures
            c == (TracingConfig {
                level_config: LevelConfig { default_level: level, ..self.level_config },
                ..self
            }),
    {
        let mut me = self;
        me.level_config.default_level = level;
        me
    }

    /// Sets the level of the spans that become OpenTelemetry spans.
    pub fn with_otel_trace_level(self, level: LevelFilter) -> (c: Self)
        ensures
            c == (TracingConfig {
                level_config: LevelConfig { otel_trace_level: level, ..self.level_config },
                ..self
            }),
    {
        let mut me = self;
        me.level_config.otel_trace_level = level;
        me
    }

    /// Shows or hides the name of the source file.
    pub fn with_file_names(self, enabled: bool) -> (c: Self)
        ensures
            c == (TracingConfig {
                features: FeatureSet { file_names: enabled, ..self.features },
                ..self
            }),
    {
        let mut me = self;
        me.features.file_names = enabled;
        me
    }

    /// Shows or hides the line in the source file.
    pub fn with_line_numbers(self, enabled: bool) -> (c: Self)
        ensures
            c == (TracingConfig {
                features: FeatureSet { line_numbers: enabled, ..self.features },
                ..self
            }),
    {
        let mut me = self;
        me.features.line_numbers = enabled;
        me
    }

    /// Shows or hides the name of the thread.
    pub fn with_thread_names(self, enabled: bool) -> (c: Self)
        ensures
            c == (TracingConfig {
                features: FeatureSet { thread_names: enabled, ..self.features },
                ..self
            }),
    {
        let mut me = self;
        me.features.thread_names = enabled;
        me
    }

    /// Shows or hides the identifier of the thread.
    pub fn with_thread_ids(self, enabled: bool) -> (c: Self)
        ensures
            c == (TracingConfig {
                features: FeatureSet { thread_ids: enabled, ..self.features },
                ..self
            }),
    {
        let mut me = self;
        me.features.thread_ids = enabled;
        me
    }

    /// Logs lines at these moments in the life of spans.
    pub fn with_span_events(self, events: FmtSpan) -> (c: Self)
        ensures
            c == (TracingConfig {
                features: FeatureSet { span_events: Some(events), ..self.features },
                ..self
            }),
    {
        let mut me = self;
        me.features.span_events = Some(events);
        me
    }

    /// Sets which time log lines show.
    pub fn with_timer(self, timer: LogTimer) -> (c: Self)
        ensures
            c == (TracingConfig {
                features: FeatureSet { timer: timer, ..self.features },
                ..self
            }),
    {
        let mut me = self;
        me.features.timer = timer;
        me
    }

    /// Shows or hides the target of the event.
    pub fn with_target_display(self, enabled: bool) -> (c: Self)
        ensures
            c == (TracingConfig {
                features: FeatureSet { target_display: enabled, ..self.features },
                ..self
            }),
    {
        let mut me = self;
        me.features.target_display = enabled;
        me
    }

    /// Turns the export of spans on or off.
    pub fn with_otel(self, enabled: bool) -> (c: Self)
        ensures
            c == (TracingConfig {
                otel_config: OtelConfig { enabled: enabled, ..self.otel_config },
                ..self
            }),
    {
        let mut me = self;
        me.otel_config.enabled = enabled;
        me
    }

    /// Turns the export of metrics on or off.
    pub fn with_metrics(self, enabled: bool) -> (c: Self)
        ensures
            c == (TracingConfig {
                otel_config: OtelConfig { metrics_enabled: enabled, ..self.otel_config },
                ..self
            }),
    {
        let mut me = self;
        me.otel_config.metrics_enabled = enabled;
        me
    }

    /// Makes the subscriber the default of the whole process, or of the installing thread only. The guard of a thread's subscriber must be kept for as long as the subscriber is to stay.
    pub fn with_global_subscriber(self, global: bool) -> (c: Self)
        ensures
            c == (TracingConfig { global_subscriber: global, ..self }),
    {
        let mut me = self;
        me.global_subscriber = global;
        me
    }


    /// Sets the filter directives. They go before what the environment
    /// says.
    pub fn with_log_directives(self, directives: &str) -> (c: Self)
        ensures
            c.level_config.directives@ == directives@,
            c == (TracingConfig {
                level_config: LevelConfig {
                    directives: c.level_config.directives,
                    ..self.level_config
                },
                ..self
            }),
    {
        let mut me = self;
        me.level_config.directives = directives.to_owned();
        me
    }

    /// Adds an environment variable to those that are asked for
    /// directives, after the ones that are there.
    pub fn with_env_fallback(self, env_var: &str) -> (c: Self)
        ensures
            c.level_config.env_fallbacks@.len() == self.level_config.env_fallbacks@.len() + 1,
            c.level_config.env_fallbacks@.last()@ == env_var@,
            c.level_config.env_fallbacks@.drop_last() == self.level_config.env_fallbacks@,
            c == (TracingConfig {
                level_config: LevelConfig {
                    env_fallbacks: c.level_config.env_fallbacks,
                    ..self.level_config
                },
                ..self
            }),
    {
        let mut me = self;
        me.level_config.env_fallbacks.push(env_var.to_owned());
        me
    }

    /// Writes logs to a file.
    pub fn with_file(self, path: &str) -> (c: Self)
        ensures
            c.writer@ == WriterView::File(path@),
            c == (TracingConfig { writer: c.writer, ..self }),
    {
        self.with_writer(WriterConfig::File(path.to_owned()))
    }

    /// Shows the time since the process started, or the time of day.
    pub fn with_uptime_timer(self, enabled: bool) -> (c: Self)
        ensures
            c == (TracingConfig {
                features: FeatureSet {
                    timer: if enabled {
                        LogTimer::Uptime
                    } else {
                        LogTimer::Time
                    },
                    ..self.features
                },
                ..self
            }),
    {
        let mut me = self;
        me.features.timer = if enabled {
            LogTimer::Uptime
        } else {
            LogTimer::Time
        };
        me
    }

    /// Logs no lines for moments in the life of spans.
    pub fn without_span_events(self) -> (c: Self)
        ensures
            c == (TracingConfig {
                features: FeatureSet { span_events: None, ..self.features },
                ..self
            }),
    {
        let mut me = self;
        me.features.span_events = None;
        me
    }

    /// Sets how the service is described to OpenTelemetry.
    pub fn with_resource_config(self, config: DetectResource) -> (c: Self)
        ensures
            c == (TracingConfig {
                otel_config: OtelConfig { resource_config: Some(config), ..self.otel_config },
                ..self
            }),
    {
        let mut me = self;
        me.otel_config.resource_config = Some(config);
        me
    }

    /// The layout of the log layer that these settings ask for.
    pub open spec fn layer_plan(self) -> crate::init::formats::LayerPlanView {
        crate::init::formats::planned_layer(self.format, self)
    }

    /// Plans the log layer that these settings ask for.
    pub fn build_layer(&self) -> (plan: LayerPlan)
        ensures
            plan@ == self.layer_plan(),
    {
        match &self.format {
            LogFormat::Pretty => PrettyLayerBuilder.build_layer(self),
            LogFormat::Json => JsonLayerBuilder.build_layer(self),
            LogFormat::Full => FullLayerBuilder.build_layer(self),
            LogFormat::Compact => CompactLayerBuilder.build_layer(self),
            LogFormat::Logfmt => LogfmtLayerBuilder.build_layer(self),
        }
    }

    /// Plans the level filter that these settings ask for. `env_values`
    /// holds the value of each fallback variable, in the order of
    /// `env_fallbacks`, `None` for one that is not set. The plan holds the
    /// directives as text; whether they parse is settled by
    /// [`finish_filter_layer`].
    pub fn build_filter_layer(&self, env_values: &Vec<Option<String>>) -> (plan: FilterPlan)
        ensures
            plan.directives@ == directives_of(self.level_config, env_values@),
            plan.default_level == self.level_config.default_level,
            plan.otel_directive@ == otel_directive_of(self.level_config.otel_trace_level),
    {
        let directives = if self.level_config.directives.as_str().unicode_len() == 0 {
            match first_value(env_values) {
                Some(d) => d.to_owned(),
                None => self.level_config.default_level.name().to_owned(),
            }
        } else {
            self.level_config.directives.clone()
        };
        let mut otel_directive = "otel::tracing=".to_owned();
        otel_directive.append(self.level_config.otel_trace_level.name());
        FilterPlan {
            directives,
            default_level: self.level_config.default_level,
            otel_directive,
        }
    }

    /// Says what installing these settings takes: whether the
    /// OpenTelemetry layers are registered, and whether the subscriber
    /// becomes the default of the process or of the thread.
    pub fn init_subscriber(&self) -> (plan: InitPlan)
        ensures
            plan == (InitPlan {
                register_otel: self.otel_config.enabled,
                install_global: self.global_subscriber,
            }),
    {
        self.init_subscriber_ext()
    }

    /// As [`TracingConfig::init_subscriber`], for a caller that puts
    /// layers of its own under the ones of these settings.
    pub fn init_subscriber_ext(&self) -> (plan: InitPlan)
        ensures
            plan == (InitPlan {
                register_otel: self.otel_config.enabled,
                install_global: self.global_subscriber,
            }),
    {
        InitPlan {
            register_otel: self.otel_config.enabled,
            install_global: self.global_subscriber,
        }
    }

    /// For development: pretty lines on standard error, with line numbers, thread names and the making and closing of spans; OpenTelemetry on.
    pub fn development() -> (c: Self)
        ensures
            c.format == LogFormat::Pretty,
            c.writer@ == WriterView::Stderr,
            is_default_levels(c.level_config),
            c.features == (FeatureSet {
                line_numbers: true, thread_names: true, span_events: Some(FmtSpan::spec_new_and_close()),
                ..FeatureSet::spec_default_for(BuildProfile::spec_release())
            }),
            c.otel_config == (OtelConfig {
                enabled: true,
                ..OtelConfig::spec_default_for(BuildProfile::spec_release())
            }),
            c.global_subscriber == true,
    {
        Self::default().with_pretty_format().with_stderr().with_line_numbers(true).with_thread_names(
            true,
        ).with_span_events(FmtSpan::on_new().union(FmtSpan::on_close())).with_otel(true)
    }

    /// For production: JSON on standard output, without line numbers, thread names and span events; OpenTelemetry on.
    pub fn production() -> (c: Self)
        ensures
            c.format == LogFormat::Json,
            c.writer@ == WriterView::Stdout,
            is_default_levels(c.level_config),
            c.features == (FeatureSet {
                line_numbers: false, thread_names: false, span_events: None,
                ..FeatureSet::spec_default_for(BuildProfile::spec_release())
            }),
            c.otel_config == (OtelConfig {
                enabled: true,
                ..OtelConfig::spec_default_for(BuildProfile::spec_release())
            }),
            c.global_subscriber == true,
    {
        Self::default().with_json_format().with_stdout().with_line_numbers(false).with_thread_names(
            false,
        ).without_span_events().with_otel(true)
    }

    /// For debugging: as for development, at level `debug`, with a line at every moment in the life of spans.
    pub fn debug() -> (c: Self)
        ensures
            c.format == LogFormat::Pretty,
            c.writer@ == WriterView::Stderr,
            c.level_config.directives@ == "debug"@,
            c.level_config.env_fallbacks@.len() == 2,
            c.level_config.env_fallbacks@[0]@ == "RUST_LOG"@,
            c.level_config.env_fallbacks@[1]@ == "OTEL_LOG_LEVEL"@,
            c.level_config.default_level == LevelFilter::Info,
            c.level_config.otel_trace_level == LevelFilter::Trace,
            c.features == (FeatureSet {
                line_numbers: true, thread_names: true, span_events: Some(FmtSpan::spec_full()), target_display: true,
                ..FeatureSet::spec_default_for(BuildProfile::spec_release())
            }),
            c.otel_config == (OtelConfig {
                enabled: true,
                ..OtelConfig::spec_default_for(BuildProfile::spec_release())
            }),
            c.global_subscriber == true,
    {
        Self::development().with_log_directives("debug").with_span_events(
            FmtSpan::full(),
        ).with_target_display(true)
    }

    /// For little output: short lines on standard output with nothing added; OpenTelemetry off.
    pub fn minimal() -> (c: Self)
        ensures
            c.format == LogFormat::Compact,
            c.writer@ == WriterView::Stdout,
            is_default_levels(c.level_config),
            c.features == (FeatureSet {
                line_numbers: false, thread_names: false, span_events: None, target_display: false,
                ..FeatureSet::spec_default_for(BuildProfile::spec_release())
            }),
            c.otel_config == (OtelConfig {
                enabled: false,
                ..OtelConfig::spec_default_for(BuildProfile::spec_release())
            }),
            c.global_subscriber == true,
    {
        Self::default().with_compact_format().with_stdout().with_line_numbers(false).with_thread_names(
            false,
        ).without_span_events().with_target_display(false).with_otel(false)
    }

    /// For tests: short lines on standard error; OpenTelemetry off; the subscriber is that of the thread.
    pub fn testing() -> (c: Self)
        ensures
            c.format == LogFormat::Compact,
            c.writer@ == WriterView::Stderr,
            is_default_levels(c.level_config),
            c.features == (FeatureSet {
                line_numbers: false, thread_names: false, span_events: None,
                ..FeatureSet::spec_default_for(BuildProfile::spec_release())
            }),
            c.otel_config == (OtelConfig {
                enabled: false,
                ..OtelConfig::spec_default_for(BuildProfile::spec_release())
            }),
            c.global_subscriber == false,
    {
        Self::default().with_compact_format().with_stderr().with_line_numbers(false).with_thread_names(
            false,
        ).without_span_events().with_otel(false).with_global_subscriber(false)
    }

}

/// The outcome of building a filter, as a mathematical value.
pub open spec fn filter_view<T>(r: Result<T, Error>) -> Result<T, ErrorView> {
    match r {
        Ok(filter) => Ok(filter),
        Err(e) => Err(e@),
    }
}

/// What becomes of a filter once its directives were parsed: the filter
/// itself where they parse, and a parse error with the words of the parser
/// where one of them does not.
pub open spec fn filter_after<T>(parsed: Result<T, String>) -> Result<T, ErrorView> {
    match parsed {
        Ok(filter) => Ok(filter),
        Err(words) => Err(ErrorView::FilterParseError(words@)),
    }
}

/// Finishes a level filter. `parsed` is what parsing the directives of a
/// [`FilterPlan`] gave: the filter, or the words of the parser about the
/// directive that it could not read. An invalid directive is an error of
/// the set-up; no filter is built from the rest.
pub fn finish_filter_layer<T>(parsed: Result<T, String>) -> (r: Result<T, Error>)
    ensures
        filter_view(r) == filter_after(parsed),
{
    match parsed {
        Ok(filter) => Ok(filter),
        Err(words) => Err(Error::FilterParseError(words)),
    }
}

/// The guard of an installation, as a mathematical value.
pub open spec fn guard_after<O, D>(otel_guard: Option<O>, installed: Installed<D>) -> Result<
    Guard<O, D>,
    ErrorView,
> {
    match installed {
        Installed::Global => Ok(Guard { otel_guard, default_guard: None }),
        Installed::ThreadLocal(d) => Ok(Guard { otel_guard, default_guard: Some(d) }),
        Installed::GlobalRefused => Err(ErrorView::SetGlobalDefaultError),
    }
}

/// The outcome of an installation, as a mathematical value.
pub open spec fn outcome_view<O, D>(r: Result<Guard<O, D>, Error>) -> Result<
    Guard<O, D>,
    ErrorView,
> {
    match r {
        Ok(g) => Ok(g),
        Err(e) => Err(e@),
    }
}

/// Makes the guard of an installation: one without a thread guard for a
/// subscriber that became the global default, one with it for a
/// subscriber of the thread. Where the process already had a global
/// default the installation has failed.
pub fn finish_init<O, D>(otel_guard: Option<O>, installed: Installed<D>) -> (r: Result<
    Guard<O, D>,
    Error,
>)
    ensures
        outcome_view(r) == guard_after(otel_guard, installed),
{
    match installed {
        Installed::Global => Ok(Guard::global(otel_guard)),
        Installed::ThreadLocal(default_guard) => Ok(Guard::non_global(otel_guard, default_guard)),
        Installed::GlobalRefused => Err(Error::SetGlobalDefaultError),
    }
}

} // verus!
