//! Spans as the collector hands them to tests.

use crate::collector::common::{cnv_attributes, collected, pairs, KeyValue};
use crate::encoding::{hex_encode, hex_lower};
use vstd::prelude::*;

verus! {

/// The status of a span as it arrives: the message and the name of the
/// status code.
#[derive(Debug)]
pub struct StatusRecord {
    pub message: String,
    pub code: String,
}

/// An event of a span as it arrives.
#[derive(Debug)]
pub struct EventRecord {
    pub time_unix_nano: u64,
    pub name: String,
    pub attributes: Vec<KeyValue>,
    pub dropped_attributes_count: u32,
}

/// A link of a span as it arrives, with identifiers as bytes.
#[derive(Debug)]
pub struct LinkRecord {
    pub trace_id: Vec<u8>,
    pub span_id: Vec<u8>,
    pub trace_state: String,
    pub attributes: Vec<KeyValue>,
    pub dropped_attributes_count: u32,
}

/// A span as it arrives, with identifiers as bytes and `kind` as the
/// name of the span kind.
#[derive(Debug)]
pub struct SpanRecord {
    pub trace_id: Vec<u8>,
    pub span_id: Vec<u8>,
    pub trace_state: String,
    pub parent_span_id: Vec<u8>,
    pub name: String,
    pub kind: String,
    pub start_time_unix_nano: u64,
    pub end_time_unix_nano: u64,
    pub attributes: Vec<KeyValue>,
    pub dropped_attributes_count: u32,
    pub events: Vec<EventRecord>,
    pub dropped_events_count: u32,
    pub links: Vec<LinkRecord>,
    pub dropped_links_count: u32,
    pub status: Option<StatusRecord>,
}

/// The spans of one instrumentation scope.
#[derive(Debug)]
pub struct ScopeSpans {
    pub spans: Vec<SpanRecord>,
}

/// The spans of one resource.
#[derive(Debug)]
pub struct ResourceSpans {
    pub scope_spans: Vec<ScopeSpans>,
}

/// What one export call brings.
#[derive(Debug)]
pub struct ExportTraceServiceRequest {
    pub resource_spans: Vec<ResourceSpans>,
}

/// The status of an exported span.
#[derive(Debug)]
pub struct Status {
    pub message: String,
    pub code: String,
}

impl Status {
    /// The status of a span that arrived.
    pub fn from(value: StatusRecord) -> (out: Status)
        ensures
            out.message == value.message,
            out.code == value.code,
    {
        Status { message: value.message, code: value.code }
    }
}

/// An event of an exported span, with its attributes in the order of
/// their keys.
#[derive(Debug)]
pub struct Event {
    pub time_unix_nano: u64,
    pub name: String,
    pub attributes: Vec<KeyValue>,
    pub dropped_attributes_count: u32,
}

/// Whether `out` is the event that `record` is exported as.
pub open spec fn is_event_of(out: Event, record: EventRecord) -> bool {
    &&& out.time_unix_nano == record.time_unix_nano
    &&& out.name@ == record.name@
    &&& pairs(out.attributes@) == collected(pairs(record.attributes@))
    &&& out.dropped_attributes_count == record.dropped_attributes_count
}

impl Event {
    /// The event that a record is exported as.
    pub fn from(value: &EventRecord) -> (out: Event)
        ensures
            is_event_of(out, *value),
    {
        Event {
            time_unix_nano: value.time_unix_nano,
            name: value.name.clone(),
            attributes: cnv_attributes(&value.attributes),
            dropped_attributes_count: value.dropped_attributes_count,
        }
    }
}

/// A link of an exported span, with identifiers in hexadecimal and its
/// attributes in the order of their keys.
#[derive(Debug)]
pub struct Link {
    pub trace_id: String,
    pub span_id: String,
    pub trace_state: String,
    pub attributes: Vec<KeyValue>,
    pub dropped_attributes_count: u32,
}

/// Whether `out` is the link that `record` is exported as.
pub open spec fn is_link_of(out: Link, record: LinkRecord) -> bool {
    &&& out.trace_id@ == hex_lower(record.trace_id@)
    &&& out.span_id@ == hex_lower(record.span_id@)
    &&& out.trace_state@ == record.trace_state@
    &&& pairs(out.attributes@) == collected(pairs(record.attributes@))
    &&& out.dropped_attributes_count == record.dropped_attributes_count
}

impl Link {
    /// The link that a record is exported as.
    pub fn from(value: &LinkRecord) -> (out: Link)
        ensures
            is_link_of(out, *value),
    {
        Link {
            trace_id: hex_encode(value.trace_id.as_slice()),
            span_id: hex_encode(value.span_id.as_slice()),
            trace_state: value.trace_state.clone(),
            attributes: cnv_attributes(&value.attributes),
            dropped_attributes_count: value.dropped_attributes_count,
        }
    }
}

/// A span as tests see it: identifiers in hexadecimal, attributes in the
/// order of their keys, everything else as it arrived.
#[derive(Debug)]
pub struct ExportedSpan {
    pub trace_id: String,
    pub span_id: String,
    pub trace_state: String,
    pub parent_span_id: String,
    pub name: String,
    pub kind: String,
    pub start_time_unix_nano: u64,
    pub end_time_unix_nano: u64,
    pub attributes: Vec<KeyValue>,
    pub dropped_attributes_count: u32,
    pub events: Vec<Event>,
    pub dropped_events_count: u32,
    pub links: Vec<Link>,
    pub dropped_links_count: u32,
    pub status: Option<Status>,
}

/// Whether `out` is the span that `record` is exported as.
pub open spec fn is_span_of(out: ExportedSpan, record: SpanRecord) -> bool {
    &&& out.trace_id@ == hex_lower(record.trace_id@)
    &&& out.span_id@ == hex_lower(record.span_id@)
    &&& out.trace_state@ == record.trace_state@
    &&& out.parent_span_id@ == hex_lower(record.parent_span_id@)
    &&& out.name@ == record.name@
    &&& out.kind@ == record.kind@
    &&& out.start_time_unix_nano == record.start_time_unix_nano
    &&& out.end_time_unix_nano == record.end_time_unix_nano
    &&& pairs(out.attributes@) == collected(pairs(record.attributes@))
    &&& out.dropped_attributes_count == record.dropped_attributes_count
    &&& out.events@.len() == record.events@.len()
    &&& forall|i: int|
        0 <= i < record.events@.len() ==> is_event_of(#[trigger] out.events@[i], record.events@[i])
    &&& out.dropped_events_count == record.dropped_events_count
    &&& out.links@.len() == record.links@.len()
    &&& forall|i: int|
        0 <= i < record.links@.len() ==> is_link_of(#[trigger] out.links@[i], record.links@[i])
    &&& out.dropped_links_count == record.dropped_links_count
    &&& match record.status {
        Some(s) => out.status.is_some() && out.status.unwrap().message@ == s.message@
            && out.status.unwrap().code@ == s.code@,
        None => out.status.is_none(),
    }
}

impl ExportedSpan {
    /// The span that a record is exported as.
    pub fn from(value: SpanRecord) -> (out: ExportedSpan)
        ensures
            is_span_of(out, value),
    {
        ExportedSpan::from_record(&value)
    }

    /// The span that a record is exported as.
    pub fn from_record(value: &SpanRecord) -> (out: ExportedSpan)
        ensures
            is_span_of(out, *value),
    {
        let mut events: Vec<Event> = Vec::new();
        let mut i: usize = 0;
        while i < value.events.len()
            invariant
                i <= value.events.len(),
                events.len() == i,
                forall|j: int|
                    0 <= j < i ==> is_event_of(#[trigger] events@[j], value.events@[j]),
            decreases value.events.len() - i,
        {
            events.push(Event::from(&value.events[i]));
            i += 1;
        }
        let mut links: Vec<Link> = Vec::new();
        let mut k: usize = 0;
        while k < value.links.len()
            invariant
                k <= value.links.len(),
                links.len() == k,
                forall|j: int| 0 <= j < k ==> is_link_of(#[trigger] links@[j], value.links@[j]),
            decreases value.links.len() - k,
        {
            links.push(Link::from(&value.links[k]));
            k += 1;
        }
        let status = match &value.status {
            Some(s) => Some(Status { message: s.message.clone(), code: s.code.clone() }),
            None => None,
        };
        ExportedSpan {
            trace_id: hex_encode(value.trace_id.as_slice()),
            span_id: hex_encode(value.span_id.as_slice()),
            trace_state: value.trace_state.clone(),
            parent_span_id: hex_encode(value.parent_span_id.as_slice()),
            name: value.name.clone(),
            kind: value.kind.clone(),
            start_time_unix_nano: value.start_time_unix_nano,
            end_time_unix_nano: value.end_time_unix_nano,
            attributes: cnv_attributes(&value.attributes),
            dropped_attributes_count: value.dropped_attributes_count,
            events,
            dropped_events_count: value.dropped_events_count,
            links,
            dropped_links_count: value.dropped_links_count,
            status,
        }
    }
}

/// The span records of a request, in the order in which it brings them:
/// resource by resource, scope by scope.
pub open spec fn records_of(request: ExportTraceServiceRequest) -> Seq<SpanRecord> {
    request.resource_spans@.map_values(
        |r: ResourceSpans| r.scope_spans@.map_values(|s: ScopeSpans| s.spans@).flatten(),
    ).flatten()
}

/// Whether `out` holds the exported form of each record, in order.
pub open spec fn are_spans_of(out: Seq<ExportedSpan>, records: Seq<SpanRecord>) -> bool {
    &&& out.len() == records.len()
    &&& forall|i: int| 0 <= i < records.len() ==> is_span_of(#[trigger] out[i], records[i])
}

/// The trace service of the collector: it turns what an export call
/// brings into spans for tests.
#[derive(Debug)]
pub struct FakeTraceService {}

impl FakeTraceService {
    /// Makes the service.
    pub fn new() -> (service: FakeTraceService) {
        FakeTraceService {  }
    }

    /// Takes the spans out of a request, in the order in which it brings
    /// them.
    pub fn export(&self, request: ExportTraceServiceRequest) -> (out: Vec<ExportedSpan>)
        ensures
            are_spans_of(out@, records_of(request)),
    {
        let ghost by_resource = request.resource_spans@.map_values(
            |r: ResourceSpans| r.scope_spans@.map_values(|s: ScopeSpans| s.spans@).flatten(),
        );
        let mut out: Vec<ExportedSpan> = Vec::new();
        let mut i: usize = 0;
        while i < request.resource_spans.len()
            invariant
                i <= request.resource_spans.len(),
                by_resource == request.resource_spans@.map_values(
                    |r: ResourceSpans|
                        r.scope_spans@.map_values(|s: ScopeSpans| s.spans@).flatten(),
                ),
                are_spans_of(out@, by_resource.take(i as int).flatten()),
            decreases request.resource_spans.len() - i,
        {
            let resource = &request.resource_spans[i];
            let ghost by_scope = resource.scope_spans@.map_values(|s: ScopeSpans| s.spans@);
            let ghost base = by_resource.take(i as int).flatten();
            let mut j: usize = 0;
            while j < resource.scope_spans.len()
                invariant
                    j <= resource.scope_spans.len(),
                    by_scope == resource.scope_spans@.map_values(|s: ScopeSpans| s.spans@),
                    are_spans_of(out@, base + by_scope.take(j as int).flatten()),
                decreases resource.scope_spans.len() - j,
            {
                let scope = &resource.scope_spans[j];
                let ghost before = base + by_scope.take(j as int).flatten();
                let mut k: usize = 0;
                while k < scope.spans.len()
                    invariant
                        k <= scope.spans.len(),
                        are_spans_of(out@, before + scope.spans@.take(k as int)),
                    decreases scope.spans.len() - k,
                {
                    out.push(ExportedSpan::from_record(&scope.spans[k]));
                    k += 1;
                }
                proof {
                    lemma_flatten_step(by_scope, j as int);
                }
                j += 1;
            }
            proof {
                assert(by_scope.take(j as int) == by_scope);
                lemma_flatten_step(by_resource, i as int);
            }
            i += 1;
        }
        assert(by_resource.take(i as int) == by_resource);
        out
    }
}

/// The first `n + 1` members of a sequence of sequences flatten to what
/// the first `n` flatten to, followed by the member after them.
pub proof fn lemma_flatten_step<A>(s: Seq<Seq<A>>, n: int)
    requires
        0 <= n < s.len(),
    ensures
        s.take(n + 1).flatten() == s.take(n).flatten() + s[n],
{
    assert(s.take(n + 1) =~= s.take(n).push(s[n]));
    s.take(n).lemma_flatten_push(s[n]);
}

/// The trace service of a collector that hands spans on as they are
/// exported.
pub type MockTraceService = FakeTraceService;

} // verus!
