//! An exporter that keeps what it exports, in the layout of Jaeger's JSON
//! files: for tests, and for looking at traces without a collector.

use crate::context::{has_nonzero, TraceContext};
use crate::encoding::{hex_encode, hex_lower};
use vstd::prelude::*;

verus! {

/// The value of an attribute. A floating-point number and an array come
/// as the text that they are written as.
#[derive(Debug)]
pub enum AttributeValue {
    Bool(bool),
    I64(i64),
    F64(String),
    String(String),
    Array(String),
}

/// An attribute of a span or of an event.
#[derive(Debug)]
pub struct Attribute {
    pub key: String,
    pub value: AttributeValue,
}

/// An event of a finished span.
#[derive(Debug)]
pub struct EventData {
    pub name: String,
    /// When the event happened, in nanoseconds since the Unix epoch.
    pub timestamp_nanos: u64,
    pub attributes: Vec<Attribute>,
}

/// A finished span.
#[derive(Debug)]
pub struct SpanData {
    pub span_context: TraceContext,
    /// The identifier of the parent span; all zero for a root span.
    pub parent_span_id: [u8; 8],
    pub name: String,
    /// When the span started, in nanoseconds since the Unix epoch.
    pub start_time_nanos: u64,
    /// When the span ended, in nanoseconds since the Unix epoch.
    pub end_time_nanos: u64,
    pub attributes: Vec<Attribute>,
    pub events: Vec<EventData>,
    /// The contexts of the spans that this one is linked to.
    pub links: Vec<TraceContext>,
}

/// The value of a tag.
#[derive(Debug)]
pub enum JaegerValue {
    Bool(bool),
    Int(i64),
    /// A floating-point number, as it is written.
    Float(String),
    Text(String),
}

/// The value of a tag, as a mathematical value.
pub enum JaegerValueView {
    Bool(bool),
    Int(i64),
    Float(Seq<char>),
    Text(Seq<char>),
}

impl View for JaegerValue {
    type V = JaegerValueView;

    open spec fn view(&self) -> JaegerValueView {
        match self {
            JaegerValue::Bool(b) => JaegerValueView::Bool(*b),
            JaegerValue::Int(i) => JaegerValueView::Int(*i),
            JaegerValue::Float(f) => JaegerValueView::Float(f@),
            JaegerValue::Text(t) => JaegerValueView::Text(t@),
        }
    }
}

/// A tag of a span, or a field of a log: a key, the name of the type of
/// the value, and the value.
#[derive(Debug)]
pub struct JaegerField {
    pub key: String,
    pub tpe: &'static str,
    pub value: JaegerValue,
}

/// A log of a span: an event with its attributes as fields.
#[derive(Debug)]
pub struct JaegerLog {
    /// When the event happened, in microseconds since the Unix epoch.
    pub timestamp: i64,
    pub fields: Vec<JaegerField>,
}

/// How a span refers to another.
#[derive(Clone, Copy, Debug, PartialEq, Eq, Structural)]
pub enum RefType {
    FollowsFrom,
    ChildOf,
}

impl RefType {
    /// The kind of reference as it is written.
    pub open spec fn spec_name(self) -> Seq<char> {
        match self {
            RefType::FollowsFrom => "FOLLOWS_FROM"@,
            RefType::ChildOf => "CHILD_OF"@,
        }
    }

    /// The kind of reference as it is written.
    pub fn name(self) -> (name: &'static str)
        ensures
            name@ == self.spec_name(),
    {
        match self {
            RefType::FollowsFrom => "FOLLOWS_FROM",
            RefType::ChildOf => "CHILD_OF",
        }
    }
}

/// A reference from a span to another.
#[derive(Debug)]
pub struct JaegerReference {
    pub ref_type: RefType,
    pub trace_id: String,
    pub span_id: String,
}

/// A span in the layout of Jaeger's JSON.
#[derive(Debug)]
pub struct JaegerSpan {
    pub trace_id: String,
    pub span_id: String,
    /// In microseconds since the Unix epoch.
    pub start_time: i64,
    /// In microseconds.
    pub duration: i64,
    pub operation_name: String,
    pub tags: Vec<JaegerField>,
    pub logs: Vec<JaegerLog>,
    pub flags: u8,
    pub process_id: &'static str,
    pub warnings: Option<String>,
    /// `None` for a span that refers to no other.
    pub references: Option<Vec<JaegerReference>>,
}

/// The name of the type of a value, and the value as it is written: text
/// for an array, the value itself for everything else.
pub open spec fn json_of(value: AttributeValue) -> (Seq<char>, JaegerValueView) {
    match value {
        AttributeValue::Bool(b) => ("bool"@, JaegerValueView::Bool(b)),
        AttributeValue::I64(i) => ("int64"@, JaegerValueView::Int(i)),
        AttributeValue::F64(f) => ("float64"@, JaegerValueView::Float(f@)),
        AttributeValue::String(s) => ("string"@, JaegerValueView::Text(s@)),
        AttributeValue::Array(a) => ("string"@, JaegerValueView::Text(a@)),
    }
}

/// Names the type of a value and writes the value.
pub fn opentelemetry_value_to_json(value: &AttributeValue) -> (r: (&'static str, JaegerValue))
    ensures
        (r.0@, r.1@) == json_of(*value),
{
    match value {
        AttributeValue::Bool(b) => ("bool", JaegerValue::Bool(*b)),
        AttributeValue::I64(i) => ("int64", JaegerValue::Int(*i)),
        AttributeValue::F64(f) => ("float64", JaegerValue::Float(f.clone())),
        AttributeValue::String(s) => ("string", JaegerValue::Text(s.clone())),
        AttributeValue::Array(a) => ("string", JaegerValue::Text(a.clone())),
    }
}

/// Whether `out` is the field that `attribute` is written as.
pub open spec fn is_field_of(out: JaegerField, attribute: Attribute) -> bool {
    &&& out.key@ == attribute.key@
    &&& (out.tpe@, out.value@) == json_of(attribute.value)
}

/// Whether `out` holds the field of each attribute, in order.
pub open spec fn are_fields_of(out: Seq<JaegerField>, attributes: Seq<Attribute>) -> bool {
    &&& out.len() == attributes.len()
    &&& forall|i: int|
        0 <= i < attributes.len() ==> is_field_of(#[trigger] out[i], attributes[i])
}

fn fields_of(attributes: &Vec<Attribute>) -> (out: Vec<JaegerField>)
    ensures
        are_fields_of(out@, attributes@),
{
    let mut out: Vec<JaegerField> = Vec::new();
    let mut i: usize = 0;
    while i < attributes.len()
        invariant
            i <= attributes.len(),
            out.len() == i,
            forall|j: int| 0 <= j < i ==> is_field_of(#[trigger] out@[j], attributes@[j]),
        decreases attributes.len() - i,
    {
        let (tpe, value) = opentelemetry_value_to_json(&attributes[i].value);
        out.push(JaegerField { key: attributes[i].key.clone(), tpe, value });
        i += 1;
    }
    out
}

/// Whether `out` is the log that `event` is written as: the attributes of
/// the event as fields, then its name as the field `event`; the time in
/// whole microseconds.
pub open spec fn is_log_of(out: JaegerLog, event: EventData) -> bool {
    &&& out.timestamp == event.timestamp_nanos / 1000
    &&& out.fields@.len() == event.attributes@.len() + 1
    &&& are_fields_of(out.fields@.drop_last(), event.attributes@)
    &&& out.fields@.last().key@ == "event"@
    &&& out.fields@.last().tpe@ == "string"@
    &&& out.fields@.last().value@ == JaegerValueView::Text(event.name@)
}

fn log_of(event: &EventData) -> (out: JaegerLog)
    ensures
        is_log_of(out, *event),
{
    let mut fields = fields_of(&event.attributes);
    fields.push(
        JaegerField {
            key: "event".to_owned(),
            tpe: "string",
            value: JaegerValue::Text(event.name.clone()),
        },
    );
    JaegerLog { timestamp: (event.timestamp_nanos / 1000) as i64, fields }
}

/// Whether `out` is the reference of kind `ref_type` to the span with
/// these identifiers.
pub open spec fn is_reference_to(
    out: JaegerReference,
    ref_type: RefType,
    trace_id: Seq<u8>,
    span_id: Seq<u8>,
) -> bool {
    &&& out.ref_type == ref_type
    &&& out.trace_id@ == hex_lower(trace_id)
    &&& out.span_id@ == hex_lower(span_id)
}

/// Whether `out` holds the references of a span: one that follows from
/// each link, in order, and after them the one to the parent, for a span
/// that has a parent. A span with neither has no list at all.
pub open spec fn are_references_of(out: Option<Vec<JaegerReference>>, span: SpanData) -> bool {
    let has_parent = has_nonzero(span.parent_span_id@);
    let links = span.links@;
    if links.len() == 0 && !has_parent {
        out.is_none()
    } else {
        &&& out.is_some()
        &&& out.unwrap()@.len() == links.len() + (if has_parent {
            1int
        } else {
            0int
        })
        &&& forall|i: int|
            0 <= i < links.len() ==> is_reference_to(
                #[trigger] out.unwrap()@[i],
                RefType::FollowsFrom,
                links[i].trace_id@,
                links[i].span_id@,
            )
        &&& has_parent ==> is_reference_to(
            out.unwrap()@[links.len() as int],
            RefType::ChildOf,
            span.span_context.trace_id@,
            span.parent_span_id@,
        )
    }
}

fn is_set(id: &[u8; 8]) -> (b: bool)
    ensures
        b == has_nonzero(id@),
{
    let mut i: usize = 0;
    while i < 8
        invariant
            i <= 8,
            forall|j: int| 0 <= j < i ==> #[trigger] id@[j] == 0,
        decreases 8 - i,
    {
        if id[i] != 0 {
            return true;
        }
        i += 1;
    }
    false
}

fn references_of(span: &SpanData) -> (out: Option<Vec<JaegerReference>>)
    ensures
        are_references_of(out, *span),
{
    let has_parent = is_set(&span.parent_span_id);
    if span.links.len() == 0 && !has_parent {
        return None;
    }
    let mut refs: Vec<JaegerReference> = Vec::new();
    let mut i: usize = 0;
    while i < span.links.len()
        invariant
            i <= span.links.len(),
            refs.len() == i,
            forall|j: int|
                0 <= j < i ==> is_reference_to(
                    #[trigger] refs@[j],
                    RefType::FollowsFrom,
                    span.links@[j].trace_id@,
                    span.links@[j].span_id@,
                ),
        decreases span.links.len() - i,
    {
        refs.push(
            JaegerReference {
                ref_type: RefType::FollowsFrom,
                trace_id: span.links[i].trace_id_hex(),
                span_id: span.links[i].span_id_hex(),
            },
        );
        i += 1;
    }
    if has_parent {
        refs.push(
            JaegerReference {
                ref_type: RefType::ChildOf,
                trace_id: span.span_context.trace_id_hex(),
                span_id: hex_encode(span.parent_span_id.as_slice()),
            },
        );
    }
    Some(refs)
}

/// Whether `out` is the span that `span` is written as.
pub open spec fn is_jaeger_of(out: JaegerSpan, span: SpanData) -> bool {
    &&& out.trace_id@ == hex_lower(span.span_context.trace_id@)
    &&& out.span_id@ == hex_lower(span.span_context.span_id@)
    &&& out.start_time == span.start_time_nanos / 1000
    &&& out.duration == (span.end_time_nanos - span.start_time_nanos) / 1000
    &&& out.operation_name@ == span.name@
    &&& are_fields_of(out.tags@, span.attributes@)
    &&& out.logs@.len() == span.events@.len()
    &&& forall|i: int|
        0 <= i < span.events@.len() ==> is_log_of(#[trigger] out.logs@[i], span.events@[i])
    &&& out.flags == span.span_context.trace_flags
    &&& out.process_id@ == "p1"@
    &&& out.warnings.is_none()
    &&& are_references_of(out.references, span)
}

/// Writes a finished span in the layout of Jaeger's JSON. Times are cut
/// to whole microseconds.
pub fn span_data_to_jaeger_json(span: &SpanData) -> (out: JaegerSpan)
    requires
        span.start_time_nanos <= span.end_time_nanos,
    ensures
        is_jaeger_of(out, *span),
{
    let mut logs: Vec<JaegerLog> = Vec::new();
    let mut i: usize = 0;
    while i < span.events.len()
        invariant
            i <= span.events.len(),
            logs.len() == i,
            forall|j: int| 0 <= j < i ==> is_log_of(#[trigger] logs@[j], span.events@[j]),
        decreases span.events.len() - i,
    {
        logs.push(log_of(&span.events[i]));
        i += 1;
    }
    let tags = fields_of(&span.attributes);
    let references = references_of(span);
    JaegerSpan {
        trace_id: span.span_context.trace_id_hex(),
        span_id: span.span_context.span_id_hex(),
        start_time: (span.start_time_nanos / 1000) as i64,
        duration: ((span.end_time_nanos - span.start_time_nanos) / 1000) as i64,
        operation_name: span.name.clone(),
        tags,
        logs,
        flags: span.span_context.trace_flags,
        process_id: "p1",
        warnings: None,
        references,
    }
}

/// The spans of one trace, as one export call brought them.
#[derive(Debug)]
pub struct JaegerTrace {
    pub trace_id: String,
    pub spans: Vec<JaegerSpan>,
    /// The name of the service of the one process, `p1`.
    pub service_name: String,
}

/// What one export call brought: its spans, trace by trace.
#[derive(Debug)]
pub struct JaegerBatch {
    pub data: Vec<JaegerTrace>,
}

/// Spans sorted into traces: each span goes to the trace of its trace
/// identifier, after the spans that are there; a span of a trace that is
/// not there yet opens that trace after the others.
pub open spec fn sorted_in(traces: Seq<(Seq<u8>, Seq<SpanData>)>, span: SpanData) -> Seq<
    (Seq<u8>, Seq<SpanData>),
>
    decreases traces.len(),
{
    let id = span.span_context.trace_id@;
    if traces.len() == 0 {
        seq![(id, seq![span])]
    } else if traces[0].0 == id {
        seq![(id, traces[0].1.push(span))] + traces.skip(1)
    } else {
        seq![traces[0]] + sorted_in(traces.skip(1), span)
    }
}

/// The spans of a batch, trace by trace: the traces in the order in which
/// the batch first names them, the spans of a trace in the order of the
/// batch.
pub open spec fn by_trace(batch: Seq<SpanData>) -> Seq<(Seq<u8>, Seq<SpanData>)>
    decreases batch.len(),
{
    if batch.len() == 0 {
        Seq::empty()
    } else {
        sorted_in(by_trace(batch.drop_last()), batch.last())
    }
}

/// Whether no trace identifier names two of the traces.
pub open spec fn are_distinct(traces: Seq<(Seq<u8>, Seq<SpanData>)>) -> bool {
    forall|i: int, j: int|
        0 <= i < j < traces.len() ==> (#[trigger] traces[i]).0 != (#[trigger] traces[j]).0
}

/// Sorting a span into traces with distinct identifiers leaves the
/// identifiers distinct; every trace of the outcome is that of the span or
/// one that was there.
pub proof fn lemma_sorted_in_keeps_distinct(traces: Seq<(Seq<u8>, Seq<SpanData>)>, span: SpanData)
    requires
        are_distinct(traces),
    ensures
        are_distinct(sorted_in(traces, span)),
        forall|i: int|
            0 <= i < sorted_in(traces, span).len() ==> (#[trigger] sorted_in(traces, span)[i]).0
                == span.span_context.trace_id@ || exists|j: int|
                0 <= j < traces.len() && traces[j].0 == sorted_in(traces, span)[i].0,
    decreases traces.len(),
{
    if traces.len() > 0 && traces[0].0 != span.span_context.trace_id@ {
        lemma_sorted_in_keeps_distinct(traces.skip(1), span);
    }
}

/// The traces of a batch have distinct identifiers: all spans of one trace
/// stand together.
pub proof fn lemma_by_trace_is_distinct(batch: Seq<SpanData>)
    ensures
        are_distinct(by_trace(batch)),
    decreases batch.len(),
{
    if batch.len() > 0 {
        lemma_by_trace_is_distinct(batch.drop_last());
        lemma_sorted_in_keeps_distinct(by_trace(batch.drop_last()), batch.last());
    }
}

/// Whether `out` is what the spans of one trace are written as.
pub open spec fn is_trace_of(
    out: JaegerTrace,
    trace: (Seq<u8>, Seq<SpanData>),
    service_name: Seq<char>,
) -> bool {
    &&& out.trace_id@ == hex_lower(trace.0)
    &&& out.service_name@ == service_name
    &&& out.spans@.len() == trace.1.len()
    &&& forall|i: int| 0 <= i < trace.1.len() ==> is_jaeger_of(#[trigger] out.spans@[i], trace.1[i])
}

/// Whether `out` is what a batch is written as.
pub open spec fn is_batch_of(out: JaegerBatch, batch: Seq<SpanData>, service_name: Seq<char>) -> bool {
    &&& out.data@.len() == by_trace(batch).len()
    &&& forall|i: int|
        0 <= i < by_trace(batch).len() ==> is_trace_of(
            #[trigger] out.data@[i],
            by_trace(batch)[i],
            service_name,
        )
}

/// Whether every span of the batch ended no earlier than it started.
pub open spec fn well_timed(batch: Seq<SpanData>) -> bool {
    forall|i: int|
        0 <= i < batch.len() ==> (#[trigger] batch[i]).start_time_nanos <= batch[i].end_time_nanos
}

/// An exporter that keeps every batch that it is given.
#[derive(Debug)]
pub struct InMemoryJsonExporter {
    service_name: String,
    spans: Vec<JaegerBatch>,
}

fn same_id(a: &[u8; 16], b: &[u8; 16]) -> (same: bool)
    ensures
        same == (a@ == b@),
{
    let mut i: usize = 0;
    while i < 16
        invariant
            i <= 16,
            forall|j: int| 0 <= j < i ==> a@[j] == b@[j],
        decreases 16 - i,
    {
        if a[i] != b[i] {
            return false;
        }
        i += 1;
    }
    assert(a@ =~= b@);
    true
}

impl InMemoryJsonExporter {
    /// An exporter for the service of this name, with nothing exported
    /// yet.
    pub fn new(service_name: &str) -> (exporter: Self)
        ensures
            exporter.service_name()@ == service_name@,
            exporter.exported().len() == 0,
    {
        InMemoryJsonExporter { service_name: service_name.to_owned(), spans: Vec::new() }
    }

    /// The name of the service.
    pub closed spec fn service_name(&self) -> String {
        self.service_name
    }

    /// What was exported so far, batch by batch.
    pub closed spec fn exported(&self) -> Seq<JaegerBatch> {
        self.spans@
    }

    /// What was exported so far, batch by batch.
    pub fn get_exported(&self) -> (batches: &Vec<JaegerBatch>)
        ensures
            batches@ == self.exported(),
    {
        &self.spans
    }

    /// Keeps a batch of finished spans, sorted into traces.
    pub fn export(&mut self, batch: &Vec<SpanData>)
        requires
            well_timed(batch@),
        ensures
            final(self).service_name() == old(self).service_name(),
            final(self).exported().len() == old(self).exported().len() + 1,
            final(self).exported().drop_last() == old(self).exported(),
            is_batch_of(final(self).exported().last(), batch@, old(self).service_name()@),
    {
        let mut ids: Vec<[u8; 16]> = Vec::new();
        let mut data: Vec<JaegerTrace> = Vec::new();
        let ghost mut model: Seq<(Seq<u8>, Seq<SpanData>)> = Seq::empty();
        let mut i: usize = 0;
        while i < batch.len()
            invariant
                i <= batch.len(),
                well_timed(batch@),
                model == by_trace(batch@.take(i as int)),
                ids.len() == model.len(),
                data.len() == model.len(),
                forall|j: int| 0 <= j < model.len() ==> (#[trigger] ids@[j])@ == model[j].0,
                forall|j: int|
                    0 <= j < model.len() ==> is_trace_of(
                        #[trigger] data@[j],
                        model[j],
                        self.service_name@,
                    ),
                self.service_name == old(self).service_name,
                self.spans == old(self).spans,
            decreases batch.len() - i,
        {
            let span = &batch[i];
            let written = span_data_to_jaeger_json(span);
            let ghost id = span.span_context.trace_id@;
            let ghost next = sorted_in(model, *span);
            proof {
                assert(batch@.take(i + 1).drop_last() == batch@.take(i as int));
            }
            let mut k: usize = 0;
            assert(model.skip(0) == model);
            while k < ids.len() && !same_id(&ids[k], &span.span_context.trace_id)
                invariant
                    k <= ids.len(),
                    ids.len() == model.len(),
                    id == span.span_context.trace_id@,
                    forall|j: int| 0 <= j < model.len() ==> (#[trigger] ids@[j])@ == model[j].0,
                    next == model.take(k as int) + sorted_in(model.skip(k as int), *span),
                decreases ids.len() - k,
            {
                let ghost rest = model.skip(k as int);
                assert(rest.skip(1) == model.skip(k + 1));
                k += 1;
            }
            if k < ids.len() {
                let mut trace = data.remove(k);
                trace.spans.push(written);
                data.insert(k, trace);
                proof {
                    model = next;
                }
            } else {
                ids.push(span.span_context.trace_id);
                let mut spans: Vec<JaegerSpan> = Vec::new();
                spans.push(written);
                data.push(
                    JaegerTrace {
                        trace_id: span.span_context.trace_id_hex(),
                        spans,
                        service_name: self.service_name.clone(),
                    },
                );
                proof {
                    model = next;
                }
            }
            i += 1;
        }
        assert(batch@.take(i as int) == batch@);
        self.spans.push(JaegerBatch { data });
    }
}

} // verus!
